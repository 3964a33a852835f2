use curvine_master::errors::{FacadeErrorKind, FsError};
use curvine_master::filesystem::MasterFilesystem;
use curvine_master::handler::{ClusterConf, MasterHandler};
use curvine_master::mount::MountManager;
use curvine_master::proto::{Message, Reply, RequestHeader, ResponseHeader};
use curvine_master::state::{CommitBlock, ConnState, CreateFileOpts, MkdirOpts, MountOptions,
    SetAttrOpts};

fn handler() -> MasterHandler {
    let conf = ClusterConf {
        audit_logging_enabled: false,
        retry_cache_enabled: true,
        retry_cache_size: 8,
    };
    let retry_cache = conf.build_retry_cache();
    MasterHandler::new(
        &conf,
        MasterFilesystem::new(true),
        retry_cache,
        Some(ConnState { remote_hostname: String::from("client-1") }),
        MountManager::new(),
        None,
    )
}

fn create(h: &mut MasterHandler, req_id: i64, path: &str) -> Reply {
    h.handle(&Message {
        req_id,
        code: 2,
        header: RequestHeader::CreateFile {
            path: String::from(path),
            opts: CreateFileOpts::with_defaults(),
        },
    })
}

fn mkdir(h: &mut MasterHandler, req_id: i64, path: &str) -> Reply {
    h.handle(&Message {
        req_id,
        code: 1,
        header: RequestHeader::Mkdir {
            path: String::from(path),
            opts: MkdirOpts::with_defaults(),
        },
    })
}

fn reply_error(reply: &Reply) -> &FsError {
    match &reply.header {
        ResponseHeader::Error { error } => error,
        other => panic!("expected an error reply, got {:?}", other),
    }
}

#[test]
fn file_status_reports_missing_path() {
    let mut h = handler();
    let reply = h.handle(&Message {
        req_id: 1,
        code: 4,
        header: RequestHeader::FileStatus { path: String::from("/nope") },
    });
    match reply_error(&reply) {
        FsError::Facade { kind: FacadeErrorKind::NotFound, path } => assert_eq!(path, "/nope"),
        other => panic!("unexpected error {:?}", other),
    }
    assert_eq!(reply_error(&reply).message(), "not found: /nope");
}

#[test]
fn rename_moves_the_entry() {
    let mut h = handler();
    create(&mut h, 1, "/a");
    let reply = h.handle(&Message {
        req_id: 2,
        code: 9,
        header: RequestHeader::Rename { src: String::from("/a"), dst: String::from("/b") },
    });
    match reply.header {
        ResponseHeader::Rename { result } => assert!(result),
        other => panic!("unexpected reply {:?}", other),
    }
    let gone = h.handle(&Message {
        req_id: 3,
        code: 7,
        header: RequestHeader::Exists { path: String::from("/a") },
    });
    assert!(matches!(gone.header, ResponseHeader::Exists { exists: false }));
    let there = h.handle(&Message {
        req_id: 4,
        code: 7,
        header: RequestHeader::Exists { path: String::from("/b") },
    });
    assert!(matches!(there.header, ResponseHeader::Exists { exists: true }));
}

#[test]
fn list_status_lists_what_lies_inside() {
    let mut h = handler();
    mkdir(&mut h, 1, "/d");
    create(&mut h, 2, "/d/x");
    create(&mut h, 3, "/d/y");
    create(&mut h, 4, "/e");
    let reply = h.handle(&Message {
        req_id: 5,
        code: 10,
        header: RequestHeader::ListStatus { path: String::from("/d") },
    });
    match &reply.header {
        ResponseHeader::ListStatus { statuses } => {
            assert_eq!(statuses.len(), 2);
            assert_eq!(statuses[0].path, "/d/x");
            assert_eq!(statuses[1].path, "/d/y");
        },
        other => panic!("unexpected reply {:?}", other),
    }
}

#[test]
fn delete_refuses_non_empty_directory() {
    let mut h = handler();
    mkdir(&mut h, 1, "/d");
    create(&mut h, 2, "/d/x");
    let reply = h.handle(&Message {
        req_id: 3,
        code: 8,
        header: RequestHeader::Delete { path: String::from("/d"), recursive: false },
    });
    assert!(matches!(
        reply_error(&reply),
        FsError::Facade { kind: FacadeErrorKind::NotEmpty, .. }
    ));
    // Recursive delete removes the subtree.
    let reply = h.handle(&Message {
        req_id: 4,
        code: 8,
        header: RequestHeader::Delete { path: String::from("/d"), recursive: true },
    });
    assert!(matches!(reply.header, ResponseHeader::Delete));
    let gone = h.handle(&Message {
        req_id: 5,
        code: 7,
        header: RequestHeader::Exists { path: String::from("/d/x") },
    });
    assert!(matches!(gone.header, ResponseHeader::Exists { exists: false }));
}

#[test]
fn blocks_accumulate_and_complete_seals() {
    let mut h = handler();
    create(&mut h, 1, "/f");
    for (req, prev) in [(2i64, None), (3i64, Some(CommitBlock { id: 1, len: 4 }))] {
        let reply = h.handle(&Message {
            req_id: req,
            code: 5,
            header: RequestHeader::AddBlock {
                path: String::from("/f"),
                client_hostname: String::from("client-1"),
                previous: prev,
            },
        });
        assert!(matches!(reply.header, ResponseHeader::AddBlock { .. }));
    }
    let located = h.handle(&Message {
        req_id: 4,
        code: 11,
        header: RequestHeader::GetBlockLocations { path: String::from("/f") },
    });
    match &located.header {
        ResponseHeader::GetBlockLocations { status, blocks } => {
            assert_eq!(blocks.len(), 2);
            assert_eq!(status.len, 4);
        },
        other => panic!("unexpected reply {:?}", other),
    }
    let done = h.handle(&Message {
        req_id: 5,
        code: 6,
        header: RequestHeader::CompleteFile {
            path: String::from("/f"),
            len: 4,
            last: None,
            client_name: String::from("client-1"),
        },
    });
    assert!(matches!(done.header, ResponseHeader::CompleteFile));
    let status = h.handle(&Message {
        req_id: 6,
        code: 4,
        header: RequestHeader::FileStatus { path: String::from("/f") },
    });
    match &status.header {
        ResponseHeader::FileStatus { status } => {
            assert!(status.is_complete);
            assert_eq!(status.len, 4);
        },
        other => panic!("unexpected reply {:?}", other),
    }
}

#[test]
fn set_attr_retry_keeps_first_outcome() {
    let mut h = handler();
    create(&mut h, 1, "/f");
    let first = h.handle(&Message {
        req_id: 20,
        code: 12,
        header: RequestHeader::SetAttr {
            path: String::from("/f"),
            opts: SetAttrOpts { mode: Some(7) },
        },
    });
    assert!(matches!(first.header, ResponseHeader::SetAttr));
    // The retry answers success without running the facade again.
    let second = h.handle(&Message {
        req_id: 20,
        code: 12,
        header: RequestHeader::SetAttr {
            path: String::from("/f"),
            opts: SetAttrOpts { mode: Some(42) },
        },
    });
    assert!(matches!(second.header, ResponseHeader::SetAttr));
    assert_eq!(h.fs.calls.set_attr, 1);
    let status = h.handle(&Message {
        req_id: 21,
        code: 4,
        header: RequestHeader::FileStatus { path: String::from("/f") },
    });
    match &status.header {
        ResponseHeader::FileStatus { status } => assert_eq!(status.mode, 7),
        other => panic!("unexpected reply {:?}", other),
    }
}

#[test]
fn symlink_respects_force() {
    let mut h = handler();
    create(&mut h, 1, "/old");
    let refused = h.handle(&Message {
        req_id: 2,
        code: 13,
        header: RequestHeader::Symlink {
            target: String::from("/t"),
            link: String::from("/old"),
            force: false,
            mode: 0,
        },
    });
    assert!(matches!(
        reply_error(&refused),
        FsError::Facade { kind: FacadeErrorKind::AlreadyExists, .. }
    ));
    let forced = h.handle(&Message {
        req_id: 3,
        code: 13,
        header: RequestHeader::Symlink {
            target: String::from("/t"),
            link: String::from("/old"),
            force: true,
            mode: 0,
        },
    });
    assert!(matches!(forced.header, ResponseHeader::Symlink));
    let status = h.handle(&Message {
        req_id: 4,
        code: 4,
        header: RequestHeader::FileStatus { path: String::from("/old") },
    });
    match &status.header {
        ResponseHeader::FileStatus { status } => {
            assert_eq!(status.link.as_deref(), Some("/t"));
        },
        other => panic!("unexpected reply {:?}", other),
    }
}

#[test]
fn mount_table_round_trip() {
    let mut h = handler();
    let mounted = h.handle(&Message {
        req_id: 1,
        code: 14,
        header: RequestHeader::Mount {
            curvine_path: String::from("/mnt/s3"),
            ufs_path: String::from("s3://bucket/prefix"),
            options: Some(MountOptions { read_only: true }),
        },
    });
    assert!(matches!(mounted.header, ResponseHeader::Mount));
    let again = h.handle(&Message {
        req_id: 2,
        code: 14,
        header: RequestHeader::Mount {
            curvine_path: String::from("/mnt/s3"),
            ufs_path: String::from("s3://other"),
            options: None,
        },
    });
    assert!(matches!(
        reply_error(&again),
        FsError::Facade { kind: FacadeErrorKind::AlreadyExists, .. }
    ));
    let info = h.handle(&Message {
        req_id: 3,
        code: 18,
        header: RequestHeader::GetMountInfo { path: String::from("/mnt/s3") },
    });
    match &info.header {
        ResponseHeader::GetMountInfo { mount_point } => {
            let mp = mount_point.as_ref().expect("the mount point must be there");
            assert_eq!(mp.ufs_path, "s3://bucket/prefix");
            assert!(mp.read_only);
        },
        other => panic!("unexpected reply {:?}", other),
    }
    let table = h.handle(&Message { req_id: 4, code: 17, header: RequestHeader::GetMountTable });
    match &table.header {
        ResponseHeader::GetMountTable { mount_points } => assert_eq!(mount_points.len(), 1),
        other => panic!("unexpected reply {:?}", other),
    }
    let unmounted = h.handle(&Message {
        req_id: 5,
        code: 15,
        header: RequestHeader::UnMount { curvine_path: String::from("/mnt/s3") },
    });
    assert!(matches!(unmounted.header, ResponseHeader::UnMount));
    let empty = h.handle(&Message { req_id: 6, code: 17, header: RequestHeader::GetMountTable });
    match &empty.header {
        ResponseHeader::GetMountTable { mount_points } => assert_eq!(mount_points.len(), 0),
        other => panic!("unexpected reply {:?}", other),
    }
}

#[test]
fn update_mount_is_a_stub() {
    let mut h = handler();
    let reply = h.handle(&Message { req_id: 1, code: 16, header: RequestHeader::UpdateMount });
    assert!(matches!(reply.header, ResponseHeader::UpdateMount));
}

#[test]
fn heartbeat_upserts_one_worker_row() {
    let mut h = handler();
    for req in [1i64, 2] {
        let reply = h.handle(&Message {
            req_id: req,
            code: 19,
            header: RequestHeader::WorkerHeartbeat {
                cluster_id: String::from("c1"),
                status: 1,
                hostname: String::from("w1"),
                port: 7000,
                storages: Vec::new(),
            },
        });
        match &reply.header {
            ResponseHeader::WorkerHeartbeat { cmds } => assert!(cmds.is_empty()),
            other => panic!("unexpected reply {:?}", other),
        }
    }
    let info = h.handle(&Message { req_id: 3, code: 21, header: RequestHeader::GetMasterInfo });
    match &info.header {
        ResponseHeader::GetMasterInfo { info } => {
            assert_eq!(info.worker_count, 1);
            assert!(info.active);
        },
        other => panic!("unexpected reply {:?}", other),
    }
}

#[test]
fn block_report_is_accepted() {
    let mut h = handler();
    let reply = h.handle(&Message {
        req_id: 1,
        code: 20,
        header: RequestHeader::WorkerBlockReport {
            report: curvine_master::state::BlockReportList {
                worker_hostname: String::from("w1"),
                block_ids: vec![1, 2],
            },
        },
    });
    assert!(matches!(reply.header, ResponseHeader::WorkerBlockReport));
    assert_eq!(h.fs.calls.block_report, 1);
}

#[test]
fn invalid_path_is_refused() {
    let mut h = handler();
    let reply = mkdir(&mut h, 1, "relative");
    match reply_error(&reply) {
        FsError::Facade { kind: FacadeErrorKind::InvalidPath, path } => {
            assert_eq!(path, "relative");
        },
        other => panic!("unexpected error {:?}", other),
    }
    assert_eq!(reply_error(&reply).message(), "invalid path: relative");
}

#[test]
fn append_on_directory_is_not_a_file() {
    let mut h = handler();
    mkdir(&mut h, 1, "/d");
    let reply = h.handle(&Message {
        req_id: 2,
        code: 3,
        header: RequestHeader::AppendFile {
            path: String::from("/d"),
            opts: CreateFileOpts::with_defaults(),
        },
    });
    match reply_error(&reply) {
        FsError::Facade { kind: FacadeErrorKind::NotFile, path } => assert_eq!(path, "/d"),
        other => panic!("unexpected error {:?}", other),
    }
    assert_eq!(reply_error(&reply).message(), "not a file: /d");
}

#[test]
fn rename_retry_asserts_success_without_facade() {
    let mut h = handler();
    create(&mut h, 1, "/a");
    let first = h.handle(&Message {
        req_id: 30,
        code: 9,
        header: RequestHeader::Rename { src: String::from("/a"), dst: String::from("/b") },
    });
    assert!(matches!(first.header, ResponseHeader::Rename { result: true }));
    assert_eq!(h.fs.calls.rename, 1);
    // The retried rename reports success again without running the
    // facade, although the source is gone by now.
    let second = h.handle(&Message {
        req_id: 30,
        code: 9,
        header: RequestHeader::Rename { src: String::from("/a"), dst: String::from("/b") },
    });
    assert!(matches!(second.header, ResponseHeader::Rename { result: true }));
    assert_eq!(h.fs.calls.rename, 1);
}

#[test]
fn mount_info_refuses_a_relative_path() {
    let mut h = handler();
    let reply = h.handle(&Message {
        req_id: 1,
        code: 18,
        header: RequestHeader::GetMountInfo { path: String::from("no-slash") },
    });
    assert!(matches!(
        reply_error(&reply),
        FsError::Facade { kind: FacadeErrorKind::InvalidPath, .. }
    ));
}
