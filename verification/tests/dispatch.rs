use curvine_master::errors::{FacadeErrorKind, FsError};
use curvine_master::filesystem::MasterFilesystem;
use curvine_master::handler::{ClusterConf, MasterHandler};
use curvine_master::load::MasterLoadService;
use curvine_master::mount::MountManager;
use curvine_master::proto::{Message, Reply, RequestHeader, ResponseHeader};
use curvine_master::state::{CommitBlock, ConnState, CreateFileOpts, MkdirOpts};

fn handler(leader: bool, audit: bool, cached: bool, load: bool) -> MasterHandler {
    let conf = ClusterConf {
        audit_logging_enabled: audit,
        retry_cache_enabled: cached,
        retry_cache_size: 8,
    };
    let retry_cache = conf.build_retry_cache();
    MasterHandler::new(
        &conf,
        MasterFilesystem::new(leader),
        retry_cache,
        Some(ConnState { remote_hostname: String::from("client-1") }),
        MountManager::new(),
        if load { Some(MasterLoadService::new()) } else { None },
    )
}

fn mkdir_msg(req_id: i64, path: &str) -> Message {
    Message {
        req_id,
        code: 1,
        header: RequestHeader::Mkdir {
            path: String::from(path),
            opts: MkdirOpts::with_defaults(),
        },
    }
}

fn create_msg(req_id: i64, path: &str) -> Message {
    Message {
        req_id,
        code: 2,
        header: RequestHeader::CreateFile {
            path: String::from(path),
            opts: CreateFileOpts::with_defaults(),
        },
    }
}

fn append_msg(req_id: i64, path: &str) -> Message {
    Message {
        req_id,
        code: 3,
        header: RequestHeader::AppendFile {
            path: String::from(path),
            opts: CreateFileOpts::with_defaults(),
        },
    }
}

fn delete_msg(req_id: i64, path: &str, recursive: bool) -> Message {
    Message {
        req_id,
        code: 8,
        header: RequestHeader::Delete { path: String::from(path), recursive },
    }
}

fn reply_error(reply: &Reply) -> &FsError {
    match &reply.header {
        ResponseHeader::Error { error } => error,
        other => panic!("expected an error reply, got {:?}", other),
    }
}

#[test]
fn mkdir_succeeds_and_is_observed() {
    let mut h = handler(true, true, true, false);
    let reply = h.handle(&mkdir_msg(1, "/a/b"));
    match &reply.header {
        ResponseHeader::Mkdir { flag } => assert!(*flag),
        other => panic!("unexpected reply {:?}", other),
    }
    assert_eq!(h.metrics.count_of(1), 1);
    assert_eq!(h.audit_log.records.len(), 1);
    let rec = &h.audit_log.records[0];
    assert_eq!(rec.primary.as_deref(), Some("/a/b"));
    assert!(rec.success);
    assert_eq!(rec.code, 1);
}

#[test]
fn create_retry_replays_current_status() {
    let mut h = handler(true, false, true, false);
    let first = h.handle(&create_msg(42, "/f"));
    match &first.header {
        ResponseHeader::CreateFile { file_status } => {
            assert_eq!(file_status.len, 0);
            assert_eq!(file_status.path, "/f");
            assert!(!file_status.is_complete);
        },
        other => panic!("unexpected reply {:?}", other),
    }
    // The file grows between the attempts.
    let add = Message {
        req_id: 50,
        code: 5,
        header: RequestHeader::AddBlock {
            path: String::from("/f"),
            client_hostname: String::from("client-1"),
            previous: Some(CommitBlock { id: 1, len: 5 }),
        },
    };
    let add_reply = h.handle(&add);
    assert!(matches!(add_reply.header, ResponseHeader::AddBlock { .. }));
    // The retried create answers with the current status, not a cached
    // copy, and the facade's create ran exactly once.
    let second = h.handle(&create_msg(42, "/f"));
    match &second.header {
        ResponseHeader::CreateFile { file_status } => assert_eq!(file_status.len, 5),
        other => panic!("unexpected reply {:?}", other),
    }
    assert_eq!(h.fs.calls.create, 1);
}

#[test]
fn delete_retry_asserts_success_without_facade() {
    let mut h = handler(true, false, true, false);
    h.handle(&create_msg(1, "/x"));
    let first = h.handle(&delete_msg(7, "/x", true));
    assert!(matches!(first.header, ResponseHeader::Delete));
    assert_eq!(h.fs.calls.delete, 1);
    let second = h.handle(&delete_msg(7, "/x", true));
    assert!(matches!(second.header, ResponseHeader::Delete));
    assert_eq!(h.fs.calls.delete, 1, "the facade must not run again");
}

#[test]
fn append_retry_is_rejected() {
    let mut h = handler(true, false, true, false);
    h.handle(&create_msg(1, "/g"));
    let first = h.handle(&append_msg(9, "/g"));
    assert!(matches!(first.header, ResponseHeader::AppendFile { .. }));
    let second = h.handle(&append_msg(9, "/g"));
    let err = reply_error(&second);
    assert!(matches!(err, FsError::RetryConflict { .. }));
    assert_eq!(err.message(), "append /g repeat request");
    assert_eq!(h.fs.calls.append, 1);
}

#[test]
fn inactive_leader_short_circuits() {
    let mut h = handler(false, true, true, false);
    let reply = h.handle(&mkdir_msg(1, "/a"));
    match reply_error(&reply) {
        FsError::NotLeader { code, client } => {
            assert_eq!(*code, 1);
            assert_eq!(client.as_deref(), Some("client-1"));
        },
        other => panic!("unexpected error {:?}", other),
    }
    assert_eq!(h.metrics.count_of(1), 0);
    assert_eq!(h.metrics.total(), 0);
    assert_eq!(h.audit_log.records.len(), 0);
    assert_eq!(h.fs.calls.mkdir, 0);
}

#[test]
fn absent_load_service_is_unavailable() {
    let mut h = handler(true, true, true, false);
    let msg = Message {
        req_id: 3,
        code: 22,
        header: RequestHeader::SubmitLoadJob { path: String::from("/big") },
    };
    let reply = h.handle(&msg);
    assert!(matches!(reply_error(&reply), FsError::ServiceUnavailable));
    assert_eq!(h.metrics.total(), 0);
    assert_eq!(h.audit_log.records.len(), 0);
}

#[test]
fn unknown_code_is_unsupported_and_counted() {
    let mut h = handler(true, true, true, false);
    let msg = Message {
        req_id: 5,
        code: 99,
        header: RequestHeader::GetMasterInfo,
    };
    let reply = h.handle(&msg);
    match reply_error(&reply) {
        FsError::Unsupported { code } => assert_eq!(*code, 99),
        other => panic!("unexpected error {:?}", other),
    }
    assert_eq!(h.metrics.count_of(99), 1);
    assert_eq!(h.audit_log.records.len(), 1);
    assert!(!h.audit_log.records[0].success);
    assert_eq!(curvine_master::proto::code_label(99), "99");
}

#[test]
fn metrics_totality_over_a_run() {
    let mut h = handler(true, true, true, false);
    h.handle(&mkdir_msg(1, "/a"));
    h.handle(&create_msg(2, "/a/f"));
    h.handle(&Message {
        req_id: 3,
        code: 7,
        header: RequestHeader::Exists { path: String::from("/a/f") },
    });
    h.handle(&Message {
        req_id: 4,
        code: 99,
        header: RequestHeader::GetMasterInfo,
    });
    assert_eq!(h.metrics.total(), 4);
    // Audit parity: one record per counted dispatch.
    assert_eq!(h.audit_log.records.len(), 4);
}

#[test]
fn load_service_tracks_jobs() {
    let mut h = handler(true, true, true, true);
    let submit = h.handle(&Message {
        req_id: 11,
        code: 22,
        header: RequestHeader::SubmitLoadJob { path: String::from("/data") },
    });
    let job_id = match submit.header {
        ResponseHeader::SubmitLoadJob { job_id } => job_id,
        other => panic!("unexpected reply {:?}", other),
    };
    let status = h.handle(&Message {
        req_id: 12,
        code: 23,
        header: RequestHeader::GetLoadStatus { job_id },
    });
    match status.header {
        ResponseHeader::GetLoadStatus { job_id: got, state } => {
            assert_eq!(got, job_id);
            assert_eq!(state, 1);
        },
        other => panic!("unexpected reply {:?}", other),
    }
    // Load routing bypasses metrics and audit.
    assert_eq!(h.metrics.total(), 0);
    assert_eq!(h.audit_log.records.len(), 0);
    let cancel = h.handle(&Message {
        req_id: 13,
        code: 24,
        header: RequestHeader::CancelLoadJob { job_id },
    });
    assert!(matches!(cancel.header, ResponseHeader::CancelLoadJob));
    let after = h.handle(&Message {
        req_id: 14,
        code: 23,
        header: RequestHeader::GetLoadStatus { job_id },
    });
    match after.header {
        ResponseHeader::GetLoadStatus { state, .. } => assert_eq!(state, 0),
        other => panic!("unexpected reply {:?}", other),
    }
}

#[test]
fn malformed_header_is_refused() {
    let mut h = handler(true, true, true, false);
    let msg = Message {
        req_id: 6,
        code: 1,
        header: RequestHeader::Exists { path: String::from("/a") },
    };
    let reply = h.handle(&msg);
    match reply_error(&reply) {
        FsError::Malformed { code } => assert_eq!(*code, 1),
        other => panic!("unexpected error {:?}", other),
    }
    assert_eq!(h.metrics.count_of(1), 1, "a malformed request is still counted");
    assert!(!h.audit_log.records[0].success);
}

#[test]
fn create_without_cache_has_no_idempotency() {
    let mut h = handler(true, false, false, false);
    let first = h.handle(&create_msg(42, "/f"));
    assert!(matches!(first.header, ResponseHeader::CreateFile { .. }));
    let second = h.handle(&create_msg(42, "/f"));
    match reply_error(&second) {
        FsError::Facade { kind: FacadeErrorKind::AlreadyExists, path } => {
            assert_eq!(path, "/f");
        },
        other => panic!("unexpected error {:?}", other),
    }
    assert_eq!(h.fs.calls.create, 2);
}

#[test]
fn reply_carries_request_identity() {
    let mut h = handler(true, false, false, false);
    let reply = h.handle(&mkdir_msg(77, "/a"));
    assert_eq!(reply.req_id, 77);
    assert_eq!(reply.code, 1);
    assert!(!reply.is_error());
}

#[test]
fn set_attr_audit_carries_the_path_even_on_retry() {
    let mut h = handler(true, true, true, false);
    h.handle(&create_msg(1, "/f"));
    let set_attr = Message {
        req_id: 20,
        code: 12,
        header: RequestHeader::SetAttr {
            path: String::from("/f"),
            opts: curvine_master::state::SetAttrOpts { mode: Some(7) },
        },
    };
    h.handle(&set_attr);
    h.handle(&set_attr);
    assert_eq!(h.fs.calls.set_attr, 1);
    let first = &h.audit_log.records[1];
    let retried = &h.audit_log.records[2];
    assert_eq!(first.primary.as_deref(), Some("/f"));
    assert_eq!(retried.primary.as_deref(), Some("/f"));
    assert!(first.success && retried.success);
}
