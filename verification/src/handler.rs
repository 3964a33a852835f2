//! The operation dispatcher: one entry point that turns every inbound
//! message into an outbound reply, enforcing the leader gate, routing
//! load codes, applying each operation's retry policy, and emitting one
//! audit record and one metrics update per counted dispatch.

use vstd::prelude::*;
use crate::audit::{AuditLog, AuditRecord};
use crate::clock::now_micros;
use crate::context::RpcContext;
use crate::errors::{FacadeErrorKind, FsError, FsResult};
use crate::filesystem::{find_file, spec_add_block, spec_append, spec_block_report, spec_complete,
    spec_create, spec_delete, spec_heartbeat, spec_mkdir, spec_rename, spec_set_attr, spec_symlink,
    blocks_of, is_inside, FsV, MasterFilesystem, MasterMonitor, WorkerManager};
use crate::load::{spec_load_handle, LoadV, MasterLoadService};
use crate::metrics::{rows_record, MasterMetrics, MetricEntry};
use crate::mount::{find_mount, spec_mount, spec_umount, MountManager};
use crate::proto::{code_of, error_reply, is_load_code, spec_code_of, spec_is_load_code, Message,
    Reply, ReplyV, RequestHeader, RespV, ResponseHeader, RpcCode};
use crate::retry_cache::{cache_after_observe, cache_after_record, cache_idx, cache_observed,
    CacheV, FsRetryCache, OperationStatus};
use crate::seqs::keep_matching;
use crate::state::{ConnState, CreateFileOpts, FileStatus, HeartbeatStatus, MasterInfo,
    MountPoint, WorkerEntry};

verus! {

/// The startup configuration this core consumes.
#[derive(Clone, Debug)]
pub struct ClusterConf {
    /// Whether an audit record is emitted per counted dispatch.
    pub audit_logging_enabled: bool,
    /// Whether the process builds a retry cache for the dispatcher.
    pub retry_cache_enabled: bool,
    /// The bound of the retry cache the process builds.
    pub retry_cache_size: usize,
}

impl ClusterConf {
    /// The retry cache this configuration asks for: an empty cache of
    /// the configured bound, never under one slot, or none at all.
    pub fn build_retry_cache(&self) -> (r: Option<FsRetryCache>)
        ensures
            self.retry_cache_enabled ==> (r matches Some(c) && c.wf() && c.entries@.len() == 0
                && c.capacity == (if self.retry_cache_size >= 1 {
                self.retry_cache_size
            } else {
                1
            })),
            !self.retry_cache_enabled ==> r is None,
    {
        if self.retry_cache_enabled {
            let capacity = if self.retry_cache_size >= 1 {
                self.retry_cache_size
            } else {
                1
            };
            Some(FsRetryCache::new(capacity))
        } else {
            None
        }
    }
}

/// The dispatcher and the handles it owns.
pub struct MasterHandler {
    pub fs: MasterFilesystem,
    pub retry_cache: Option<FsRetryCache>,
    pub metrics: MasterMetrics,
    pub audit_logging_enabled: bool,
    pub conn_state: Option<ConnState>,
    pub load_service: Option<MasterLoadService>,
    pub mount_manager: MountManager,
    pub audit_log: AuditLog,
}

/// The dispatcher state the model speaks of.
#[verifier::ext_equal]
pub ghost struct HandlerV {
    pub fs: FsV,
    pub cache: Option<CacheV>,
    pub metrics: Seq<MetricEntry>,
    pub audit_enabled: bool,
    pub client: Option<String>,
    pub load: Option<LoadV>,
    pub mounts: Seq<MountPoint>,
    pub audit: Seq<AuditRecord>,
}

impl View for MasterHandler {
    type V = HandlerV;

    open spec fn view(&self) -> HandlerV {
        HandlerV {
            fs: self.fs@,
            cache: match self.retry_cache {
                Some(c) => Some(c@),
                None => None,
            },
            metrics: self.metrics.entries@,
            audit_enabled: self.audit_logging_enabled,
            client: match self.conn_state {
                Some(cs) => Some(cs.remote_hostname),
                None => None,
            },
            load: match self.load_service {
                Some(l) => Some(l@),
                None => None,
            },
            mounts: self.mount_manager.mounts@,
            audit: self.audit_log.records@,
        }
    }
}

/// What a retry-cache lookup reports and leaves behind, for a
/// dispatcher with or without a cache.
pub open spec fn spec_check_retry(c: Option<CacheV>, id: i64) -> (Option<CacheV>, bool) {
    match c {
        None => (None, false),
        Some(cv) => (
            Some(CacheV { entries: cache_after_observe(cv.entries, cv.capacity, id), ..cv }),
            cache_observed(cv.entries, id),
        ),
    }
}

/// What recording a terminal outcome leaves behind.
pub open spec fn spec_set_cache(c: Option<CacheV>, id: i64, ok: bool) -> Option<CacheV> {
    match c {
        None => None,
        Some(cv) => Some(CacheV { entries: cache_after_record(cv.entries, id, ok), ..cv }),
    }
}

/// The status recorded for an id, absent without a cache.
pub open spec fn spec_get_cache(c: Option<CacheV>, id: i64) -> Option<OperationStatus> {
    match c {
        None => None,
        Some(cv) => if cache_idx(cv.entries, id) >= 0 {
            Some(cv.entries[cache_idx(cv.entries, id)].status)
        } else {
            None
        },
    }
}

/// What one handler invocation does: the facade and cache state it
/// leaves, its outcome, and the audit subjects it attempted.
pub ghost struct StepV {
    pub fs: FsV,
    pub cache: Option<CacheV>,
    pub mounts: Seq<MountPoint>,
    pub result: Result<RespV, FsError>,
    pub a1: Option<String>,
    pub a2: Option<String>,
}

/// A step that refuses the message as malformed for its code.
pub open spec fn step_malformed(h: HandlerV, msg: Message) -> StepV {
    StepV {
        fs: h.fs,
        cache: h.cache,
        mounts: h.mounts,
        result: Err(FsError::Malformed { code: msg.code }),
        a1: None,
        a2: None,
    }
}

/// The make-directory handler.
pub open spec fn step_mkdir(h: HandlerV, msg: Message) -> StepV {
    match msg.header {
        RequestHeader::Mkdir { path, opts } => {
            let (fs2, r) = spec_mkdir(h.fs, path, opts);
            StepV {
                fs: fs2,
                cache: h.cache,
                mounts: h.mounts,
                result: match r {
                    Ok(flag) => Ok(RespV::Mkdir { flag }),
                    Err(e) => Err(e),
                },
                a1: Some(path),
                a2: None,
            }
        },
        _ => step_malformed(h, msg),
    }
}

/// The create-file core: on a retried id the current status of the
/// path is re-queried and returned as if the original had succeeded;
/// a first attempt runs the facade and records its outcome.
pub open spec fn step_create_inner(
    fs: FsV,
    cache: Option<CacheV>,
    req_id: i64,
    path: String,
    opts: CreateFileOpts,
) -> (FsV, Option<CacheV>, FsResult<FileStatus>) {
    let (cache2, retry) = spec_check_retry(cache, req_id);
    if retry {
        let i = find_file(fs.files, path@);
        (
            fs,
            cache2,
            if i >= 0 {
                Ok(fs.files[i])
            } else {
                Err(FsError::Facade { kind: FacadeErrorKind::NotFound, path })
            },
        )
    } else {
        let (fs2, r) = spec_create(fs, path, opts);
        (fs2, spec_set_cache(cache2, req_id, r is Ok), r)
    }
}

/// The create-file handler, status-replay retry policy.
pub open spec fn step_create(h: HandlerV, msg: Message) -> StepV {
    match msg.header {
        RequestHeader::CreateFile { path, opts } => {
            let (fs2, cache2, r) = step_create_inner(h.fs, h.cache, msg.req_id, path, opts);
            StepV {
                fs: fs2,
                cache: cache2,
                mounts: h.mounts,
                result: match r {
                    Ok(status) => Ok(RespV::CreateFile { file_status: status }),
                    Err(e) => Err(e),
                },
                a1: Some(path),
                a2: None,
            }
        },
        _ => step_malformed(h, msg),
    }
}

/// The append-file handler, reject-on-retry policy: a repeated id is
/// refused outright, because the last-block handle of the first
/// attempt cannot be safely reconstructed.
pub open spec fn step_append(h: HandlerV, msg: Message) -> StepV {
    match msg.header {
        RequestHeader::AppendFile { path, opts } => {
            let (cache2, retry) = spec_check_retry(h.cache, msg.req_id);
            if retry {
                StepV {
                    fs: h.fs,
                    cache: cache2,
                    mounts: h.mounts,
                    result: Err(FsError::RetryConflict { path }),
                    a1: Some(path),
                    a2: None,
                }
            } else {
                let (fs2, r) = spec_append(h.fs, path, opts);
                match r {
                    Ok(p) => StepV {
                        fs: fs2,
                        cache: spec_set_cache(cache2, msg.req_id, true),
                        mounts: h.mounts,
                        result: Ok(RespV::AppendFile { file_status: p.1, last_block: p.0 }),
                        a1: Some(path),
                        a2: None,
                    },
                    // A failed append propagates before the outcome is
                    // recorded; the in-progress observation remains.
                    Err(e) => StepV {
                        fs: fs2,
                        cache: cache2,
                        mounts: h.mounts,
                        result: Err(e),
                        a1: Some(path),
                        a2: None,
                    },
                }
            }
        },
        _ => step_malformed(h, msg),
    }
}

/// The file-status handler, read-only.
pub open spec fn step_file_status(h: HandlerV, msg: Message) -> StepV {
    match msg.header {
        RequestHeader::FileStatus { path } => {
            let i = find_file(h.fs.files, path@);
            StepV {
                fs: h.fs,
                cache: h.cache,
                mounts: h.mounts,
                result: if i >= 0 {
                    Ok(RespV::FileStatus { status: h.fs.files[i] })
                } else {
                    Err(FsError::Facade { kind: FacadeErrorKind::NotFound, path })
                },
                a1: Some(path),
                a2: None,
            }
        },
        _ => step_malformed(h, msg),
    }
}

/// The add-block handler; the facade itself owns retry detection.
pub open spec fn step_add_block(h: HandlerV, msg: Message) -> StepV {
    match msg.header {
        RequestHeader::AddBlock { path, previous, .. } => {
            let (fs2, r) = spec_add_block(h.fs, path, previous);
            StepV {
                fs: fs2,
                cache: h.cache,
                mounts: h.mounts,
                result: match r {
                    Ok(block) => Ok(RespV::AddBlock { block }),
                    Err(e) => Err(e),
                },
                a1: Some(path),
                a2: None,
            }
        },
        _ => step_malformed(h, msg),
    }
}

/// The complete-file handler; the facade itself owns retry detection.
pub open spec fn step_complete_file(h: HandlerV, msg: Message) -> StepV {
    match msg.header {
        RequestHeader::CompleteFile { path, len, last, .. } => {
            let (fs2, r) = spec_complete(h.fs, path, len, last);
            StepV {
                fs: fs2,
                cache: h.cache,
                mounts: h.mounts,
                result: match r {
                    Ok(_) => Ok(RespV::CompleteFile),
                    Err(e) => Err(e),
                },
                a1: Some(path),
                a2: None,
            }
        },
        _ => step_malformed(h, msg),
    }
}

/// The exists handler, read-only.
pub open spec fn step_exists(h: HandlerV, msg: Message) -> StepV {
    match msg.header {
        RequestHeader::Exists { path } => StepV {
            fs: h.fs,
            cache: h.cache,
            mounts: h.mounts,
            result: Ok(RespV::Exists { exists: find_file(h.fs.files, path@) >= 0 }),
            a1: Some(path),
            a2: None,
        },
        _ => step_malformed(h, msg),
    }
}

/// The delete core, success-assert retry policy: a repeated id gets
/// the success signal again without touching the facade.
pub open spec fn step_delete_inner(
    fs: FsV,
    cache: Option<CacheV>,
    req_id: i64,
    path: String,
    recursive: bool,
) -> (FsV, Option<CacheV>, FsResult<bool>) {
    let (cache2, retry) = spec_check_retry(cache, req_id);
    if retry {
        (fs, cache2, Ok(true))
    } else {
        let (fs2, r) = spec_delete(fs, path, recursive);
        (fs2, spec_set_cache(cache2, req_id, r is Ok), r)
    }
}

/// The delete handler.
pub open spec fn step_delete(h: HandlerV, msg: Message) -> StepV {
    match msg.header {
        RequestHeader::Delete { path, recursive } => {
            let (fs2, cache2, r) = step_delete_inner(h.fs, h.cache, msg.req_id, path, recursive);
            StepV {
                fs: fs2,
                cache: cache2,
                mounts: h.mounts,
                result: match r {
                    Ok(_) => Ok(RespV::Delete),
                    Err(e) => Err(e),
                },
                a1: Some(path),
                a2: None,
            }
        },
        _ => step_malformed(h, msg),
    }
}

/// The rename core, success-assert retry policy.
pub open spec fn step_rename_inner(
    fs: FsV,
    cache: Option<CacheV>,
    req_id: i64,
    src: String,
    dst: String,
) -> (FsV, Option<CacheV>, FsResult<bool>) {
    let (cache2, retry) = spec_check_retry(cache, req_id);
    if retry {
        (fs, cache2, Ok(true))
    } else {
        let (fs2, r) = spec_rename(fs, src, dst);
        (fs2, spec_set_cache(cache2, req_id, r is Ok), r)
    }
}

/// The rename handler.
pub open spec fn step_rename(h: HandlerV, msg: Message) -> StepV {
    match msg.header {
        RequestHeader::Rename { src, dst } => {
            let (fs2, cache2, r) = step_rename_inner(h.fs, h.cache, msg.req_id, src, dst);
            StepV {
                fs: fs2,
                cache: cache2,
                mounts: h.mounts,
                result: match r {
                    Ok(b) => Ok(RespV::Rename { result: b }),
                    Err(e) => Err(e),
                },
                a1: Some(src),
                a2: Some(dst),
            }
        },
        _ => step_malformed(h, msg),
    }
}

/// The list-status handler, read-only: a directory lists what lies
/// inside it, a file lists itself.
pub open spec fn step_list_status(h: HandlerV, msg: Message) -> StepV {
    match msg.header {
        RequestHeader::ListStatus { path } => {
            let i = find_file(h.fs.files, path@);
            StepV {
                fs: h.fs,
                cache: h.cache,
                mounts: h.mounts,
                result: if i < 0 {
                    Err(FsError::Facade { kind: FacadeErrorKind::NotFound, path })
                } else if h.fs.files[i].is_dir {
                    Ok(RespV::ListStatus {
                        statuses: keep_matching(h.fs.files, is_inside(path@)),
                    })
                } else {
                    Ok(RespV::ListStatus { statuses: seq![h.fs.files[i]] })
                },
                a1: Some(path),
                a2: None,
            }
        },
        _ => step_malformed(h, msg),
    }
}

/// The get-block-locations handler, read-only.
pub open spec fn step_get_block_locations(h: HandlerV, msg: Message) -> StepV {
    match msg.header {
        RequestHeader::GetBlockLocations { path } => {
            let i = find_file(h.fs.files, path@);
            StepV {
                fs: h.fs,
                cache: h.cache,
                mounts: h.mounts,
                result: if i >= 0 {
                    Ok(RespV::GetBlockLocations {
                        status: h.fs.files[i],
                        blocks: blocks_of(h.fs.blocks, h.fs.files[i].id),
                    })
                } else {
                    Err(FsError::Facade { kind: FacadeErrorKind::NotFound, path })
                },
                a1: Some(path),
                a2: None,
            }
        },
        _ => step_malformed(h, msg),
    }
}

/// The set-attributes handler, success-assert retry policy; the
/// path is the audit subject on every parsed dispatch, retried or not.
pub open spec fn step_set_attr(h: HandlerV, msg: Message) -> StepV {
    match msg.header {
        RequestHeader::SetAttr { path, opts } => {
            let (cache2, retry) = spec_check_retry(h.cache, msg.req_id);
            if retry {
                StepV {
                    fs: h.fs,
                    cache: cache2,
                    mounts: h.mounts,
                    result: Ok(RespV::SetAttr),
                    a1: Some(path),
                    a2: None,
                }
            } else {
                let (fs2, r) = spec_set_attr(h.fs, path, opts);
                StepV {
                    fs: fs2,
                    cache: cache2,
                    mounts: h.mounts,
                    result: match r {
                        Ok(_) => Ok(RespV::SetAttr),
                        Err(e) => Err(e),
                    },
                    a1: Some(path),
                    a2: None,
                }
            }
        },
        _ => step_malformed(h, msg),
    }
}

/// The symlink handler, success-assert retry policy.
pub open spec fn step_symlink(h: HandlerV, msg: Message) -> StepV {
    match msg.header {
        RequestHeader::Symlink { target, link, force, mode } => {
            let (cache2, retry) = spec_check_retry(h.cache, msg.req_id);
            if retry {
                StepV {
                    fs: h.fs,
                    cache: cache2,
                    mounts: h.mounts,
                    result: Ok(RespV::Symlink),
                    a1: Some(target),
                    a2: Some(link),
                }
            } else {
                let (fs2, r) = spec_symlink(h.fs, target, link, force, mode);
                StepV {
                    fs: fs2,
                    cache: cache2,
                    mounts: h.mounts,
                    result: match r {
                        Ok(_) => Ok(RespV::Symlink),
                        Err(e) => Err(e),
                    },
                    a1: Some(target),
                    a2: Some(link),
                }
            }
        },
        _ => step_malformed(h, msg),
    }
}

/// The mount handler, delegated to the mount table.
pub open spec fn step_mount(h: HandlerV, msg: Message) -> StepV {
    match msg.header {
        RequestHeader::Mount { curvine_path, ufs_path, options } => {
            let read_only = match options {
                Some(o) => o.read_only,
                None => false,
            };
            let (mounts2, r) = spec_mount(h.mounts, curvine_path, ufs_path, read_only);
            StepV {
                fs: h.fs,
                cache: h.cache,
                mounts: mounts2,
                result: match r {
                    Ok(_) => Ok(RespV::Mount),
                    Err(e) => Err(e),
                },
                a1: None,
                a2: None,
            }
        },
        _ => step_malformed(h, msg),
    }
}

/// The unmount handler.
pub open spec fn step_umount(h: HandlerV, msg: Message) -> StepV {
    match msg.header {
        RequestHeader::UnMount { curvine_path } => {
            let (mounts2, r) = spec_umount(h.mounts, curvine_path);
            StepV {
                fs: h.fs,
                cache: h.cache,
                mounts: mounts2,
                result: match r {
                    Ok(_) => Ok(RespV::UnMount),
                    Err(e) => Err(e),
                },
                a1: None,
                a2: None,
            }
        },
        _ => step_malformed(h, msg),
    }
}

/// The update-mount handler: a stub answering success, kept as the
/// protocol has it.
pub open spec fn step_update_mount(h: HandlerV, msg: Message) -> StepV {
    StepV {
        fs: h.fs,
        cache: h.cache,
        mounts: h.mounts,
        result: Ok(RespV::UpdateMount),
        a1: None,
        a2: None,
    }
}

/// The get-mount-table handler, read-only.
pub open spec fn step_get_mount_table(h: HandlerV, msg: Message) -> StepV {
    match msg.header {
        RequestHeader::GetMountTable => StepV {
            fs: h.fs,
            cache: h.cache,
            mounts: h.mounts,
            result: Ok(RespV::GetMountTable { mount_points: h.mounts }),
            a1: None,
            a2: None,
        },
        _ => step_malformed(h, msg),
    }
}

/// The get-mount-info handler, read-only.
pub open spec fn step_get_mount_point(h: HandlerV, msg: Message) -> StepV {
    match msg.header {
        RequestHeader::GetMountInfo { path } => StepV {
            fs: h.fs,
            cache: h.cache,
            mounts: h.mounts,
            result: if !crate::paths::spec_valid_path(path@) {
                Err(FsError::Facade { kind: FacadeErrorKind::InvalidPath, path })
            } else if find_mount(h.mounts, path@) >= 0 {
                Ok(RespV::GetMountInfo {
                    mount_point: Some(h.mounts[find_mount(h.mounts, path@)]),
                })
            } else {
                Ok(RespV::GetMountInfo { mount_point: None })
            },
            a1: Some(path),
            a2: None,
        },
        _ => step_malformed(h, msg),
    }
}

/// Heartbeat status codes as workers report them.
pub open spec fn spec_hb_status(v: u32) -> HeartbeatStatus {
    if v == 0 {
        HeartbeatStatus::Start
    } else if v == 2 {
        HeartbeatStatus::Shutdown
    } else {
        HeartbeatStatus::Running
    }
}

/// The worker-heartbeat handler.
pub open spec fn step_worker_heartbeat(h: HandlerV, msg: Message) -> StepV {
    match msg.header {
        RequestHeader::WorkerHeartbeat { cluster_id, status, hostname, port, storages } => {
            let fs2 = spec_heartbeat(
                h.fs,
                cluster_id,
                spec_hb_status(status),
                hostname,
                port,
                storages@.len() as int,
            ).0;
            StepV {
                fs: fs2,
                cache: h.cache,
                mounts: h.mounts,
                result: Ok(RespV::WorkerHeartbeat { cmds: Seq::empty() }),
                a1: None,
                a2: None,
            }
        },
        _ => step_malformed(h, msg),
    }
}

/// The block-report handler.
pub open spec fn step_block_report(h: HandlerV, msg: Message) -> StepV {
    match msg.header {
        RequestHeader::WorkerBlockReport { .. } => {
            let fs2 = spec_block_report(h.fs).0;
            StepV {
                fs: fs2,
                cache: h.cache,
                mounts: h.mounts,
                result: Ok(RespV::WorkerBlockReport),
                a1: None,
                a2: None,
            }
        },
        _ => step_malformed(h, msg),
    }
}

/// The get-master-info handler, read-only.
pub open spec fn step_get_master_info(h: HandlerV, msg: Message) -> StepV {
    match msg.header {
        RequestHeader::GetMasterInfo => StepV {
            fs: h.fs,
            cache: h.cache,
            mounts: h.mounts,
            result: Ok(RespV::GetMasterInfo {
                info: MasterInfo {
                    active: h.fs.active,
                    file_count: h.fs.files.len() as u64,
                    block_count: h.fs.blocks.len() as u64,
                    worker_count: h.fs.workers.len() as u64,
                },
            }),
            a1: None,
            a2: None,
        },
        _ => step_malformed(h, msg),
    }
}

/// A step that refuses a code outside the table.
pub open spec fn step_unsupported(h: HandlerV, msg: Message) -> StepV {
    StepV {
        fs: h.fs,
        cache: h.cache,
        mounts: h.mounts,
        result: Err(FsError::Unsupported { code: msg.code }),
        a1: None,
        a2: None,
    }
}

/// Handler dispatch over the closed code table; the load codes never
/// reach this point.
pub open spec fn spec_step(h: HandlerV, msg: Message) -> StepV {
    match spec_code_of(msg.code as int) {
        Some(RpcCode::Mkdir) => step_mkdir(h, msg),
        Some(RpcCode::CreateFile) => step_create(h, msg),
        Some(RpcCode::AppendFile) => step_append(h, msg),
        Some(RpcCode::FileStatus) => step_file_status(h, msg),
        Some(RpcCode::AddBlock) => step_add_block(h, msg),
        Some(RpcCode::CompleteFile) => step_complete_file(h, msg),
        Some(RpcCode::Exists) => step_exists(h, msg),
        Some(RpcCode::Delete) => step_delete(h, msg),
        Some(RpcCode::Rename) => step_rename(h, msg),
        Some(RpcCode::ListStatus) => step_list_status(h, msg),
        Some(RpcCode::GetBlockLocations) => step_get_block_locations(h, msg),
        Some(RpcCode::SetAttr) => step_set_attr(h, msg),
        Some(RpcCode::Symlink) => step_symlink(h, msg),
        Some(RpcCode::Mount) => step_mount(h, msg),
        Some(RpcCode::UnMount) => step_umount(h, msg),
        Some(RpcCode::UpdateMount) => step_update_mount(h, msg),
        Some(RpcCode::GetMountTable) => step_get_mount_table(h, msg),
        Some(RpcCode::GetMountInfo) => step_get_mount_point(h, msg),
        Some(RpcCode::WorkerHeartbeat) => step_worker_heartbeat(h, msg),
        Some(RpcCode::WorkerBlockReport) => step_block_report(h, msg),
        Some(RpcCode::GetMasterInfo) => step_get_master_info(h, msg),
        _ => step_unsupported(h, msg),
    }
}

/// The error reply for one message.
pub open spec fn spec_error_reply(msg: Message, e: FsError) -> ReplyV {
    ReplyV { req_id: msg.req_id, code: msg.code, header: RespV::Error { error: e } }
}

/// Whether the dispatcher forwards this message to the load
/// sub-service.
pub open spec fn spec_routes_to_load(msg: Message) -> bool {
    match spec_code_of(msg.code as int) {
        Some(c) => spec_is_load_code(c),
        None => false,
    }
}

/// What one dispatch does to the whole dispatcher, given the elapsed
/// microseconds `t` and the closing clock reading `ts` that the wall
/// clock happened to give.
///
/// An inactive leader short-circuits untouched; load codes go to the
/// sub-service whole; every other message runs its handler step and is
/// then counted once in the metrics and, when enabled, audited once.
pub open spec fn spec_handle(h: HandlerV, msg: Message, t: u64, ts: u64) -> (HandlerV, ReplyV) {
    if !h.fs.active {
        (h, spec_error_reply(msg, FsError::NotLeader { code: msg.code, client: h.client }))
    } else if spec_routes_to_load(msg) {
        match h.load {
            None => (h, spec_error_reply(msg, FsError::ServiceUnavailable)),
            Some(ls) => {
                let (ls2, rep) = spec_load_handle(ls, msg);
                (HandlerV { load: Some(ls2), ..h }, rep)
            },
        }
    } else {
        let st = spec_step(h, msg);
        let success = st.result is Ok;
        let audit2 = if h.audit_enabled {
            h.audit.push(
                AuditRecord {
                    timestamp_us: ts,
                    code: msg.code,
                    primary: st.a1,
                    secondary: st.a2,
                    client: h.client,
                    success,
                    elapsed_us: t,
                },
            )
        } else {
            h.audit
        };
        let reply = match st.result {
            Ok(rv) => ReplyV { req_id: msg.req_id, code: msg.code, header: rv },
            Err(e) => spec_error_reply(msg, e),
        };
        (
            HandlerV {
                fs: st.fs,
                cache: st.cache,
                mounts: st.mounts,
                metrics: rows_record(h.metrics, msg.code, t),
                audit: audit2,
                ..h
            },
            reply,
        )
    }
}

/// A handler step left the dispatcher exactly as the model says, and
/// touched nothing else.
pub open spec fn step_applied(pre: MasterHandler, post: MasterHandler, st: StepV) -> bool {
    &&& post@.fs == st.fs
    &&& post@.cache == st.cache
    &&& post@.mounts == st.mounts
    &&& post.metrics == pre.metrics
    &&& post.audit_log == pre.audit_log
    &&& post.audit_logging_enabled == pre.audit_logging_enabled
    &&& post.conn_state == pre.conn_state
    &&& post.load_service == pre.load_service
}

/// A handler step left the context's audit subjects as the model says
/// and its identity untouched.
pub open spec fn ctx_stepped(pre: RpcContext<'_>, post: RpcContext<'_>, st: StepV) -> bool {
    &&& post.msg == pre.msg
    &&& post.code == pre.code
    &&& post.start_us == pre.start_us
    &&& post.audit_primary == st.a1
    &&& post.audit_secondary == st.a2
    &&& post.responded == (st.result is Ok)
}

/// A handler's return value carries the step's outcome: the typed
/// reply on success, the very error otherwise.
pub open spec fn res_matches(r: FsResult<Reply>, st: StepV, msg: Message) -> bool {
    match r {
        Ok(rep) => st.result is Ok && rep@ == (ReplyV {
            req_id: msg.req_id,
            code: msg.code,
            header: st.result->Ok_0,
        }),
        Err(e) => st.result is Err && e == st.result->Err_0,
    }
}

/// Everything but the facade and cache is untouched.
pub open spec fn rest_unchanged(pre: MasterHandler, post: MasterHandler) -> bool {
    &&& post.metrics == pre.metrics
    &&& post.audit_log == pre.audit_log
    &&& post.audit_logging_enabled == pre.audit_logging_enabled
    &&& post.conn_state == pre.conn_state
    &&& post.load_service == pre.load_service
    &&& post.mount_manager == pre.mount_manager
}

impl MasterHandler {
    /// Well-formedness of every owned table.
    pub open spec fn wf(&self) -> bool {
        &&& self.fs.wf()
        &&& self.metrics.wf()
        &&& self.mount_manager.wf()
        &&& match self.retry_cache {
            Some(c) => c.wf(),
            None => true,
        }
    }

    /// Wire the dispatcher to its facades and configuration.
    pub fn new(
        conf: &ClusterConf,
        fs: MasterFilesystem,
        retry_cache: Option<FsRetryCache>,
        conn_state: Option<ConnState>,
        mount_manager: MountManager,
        load_service: Option<MasterLoadService>,
    ) -> (r: MasterHandler)
        requires
            fs.wf(),
            mount_manager.wf(),
            match retry_cache {
                Some(c) => c.wf(),
                None => true,
            },
        ensures
            r.wf(),
            r.fs == fs,
            r.retry_cache == retry_cache,
            r.conn_state == conn_state,
            r.load_service == load_service,
            r.mount_manager == mount_manager,
            r.audit_logging_enabled == conf.audit_logging_enabled,
            r@.metrics.len() == 0,
            r@.audit.len() == 0,
    {
        MasterHandler {
            fs,
            retry_cache,
            metrics: MasterMetrics::new(),
            audit_logging_enabled: conf.audit_logging_enabled,
            conn_state,
            load_service,
            mount_manager,
            audit_log: AuditLog::new(),
        }
    }

    /// Read the status the retry cache holds for an id.
    pub fn get_req_cache(&self, id: i64) -> (r: Option<OperationStatus>)
        ensures
            r == spec_get_cache(self@.cache, id),
    {
        match &self.retry_cache {
            Some(c) => c.get(id),
            None => None,
        }
    }

    /// Record the terminal outcome of an attempt and pass it through.
    pub fn set_req_cache<T>(&mut self, id: i64, res: FsResult<T>) -> (r: FsResult<T>)
        requires
            old(self).wf(),
        ensures
            final(self).wf(),
            final(self)@.cache == spec_set_cache(old(self)@.cache, id, res is Ok),
            final(self).fs == old(self).fs,
            rest_unchanged(*old(self), *final(self)),
            r == res,
    {
        let ok = res.is_ok();
        match &mut self.retry_cache {
            Some(c) => c.set_status(id, ok),
            None => {},
        }
        res
    }

    /// Report whether an id is a retry, inserting a fresh in-progress
    /// observation when it is not. Never fails.
    pub fn check_is_retry(&mut self, id: i64) -> (r: FsResult<bool>)
        requires
            old(self).wf(),
        ensures
            final(self).wf(),
            final(self)@.cache == spec_check_retry(old(self)@.cache, id).0,
            final(self).fs == old(self).fs,
            rest_unchanged(*old(self), *final(self)),
            r == Ok::<bool, FsError>(spec_check_retry(old(self)@.cache, id).1),
    {
        match &mut self.retry_cache {
            Some(c) => Ok(c.check_is_retry(id)),
            None => Ok(false),
        }
    }

    /// The remote client hostname, empty when the connection is
    /// unknown.
    pub fn client_ip(&self) -> (r: &str)
        ensures
            r@ == (match self.conn_state {
                Some(cs) => cs.remote_hostname@,
                None => Seq::<char>::empty(),
            }),
    {
        match &self.conn_state {
            None => {
                proof {
                    reveal_strlit("");
                }
                ""
            },
            Some(v) => v.remote_hostname.as_str(),
        }
    }

    /// The remote client hostname as the audit log carries it.
    fn client_hostname(&self) -> (r: Option<String>)
        ensures
            r == self@.client,
    {
        match &self.conn_state {
            Some(cs) => Some(cs.remote_hostname.clone()),
            None => None,
        }
    }

    /// A deep copy of the filesystem facade handle.
    pub fn clone_fs(&self) -> (r: MasterFilesystem)
        ensures
            r@ == self.fs@,
    {
        let n = self.fs.files.len();
        let mut files: Vec<FileStatus> = Vec::new();
        let mut i: usize = 0;
        while i < n
            invariant
                n == self.fs.files@.len(),
                i <= n,
                files@ == self.fs.files@.take(i as int),
            decreases n - i,
        {
            files.push(self.fs.files[i].duplicate());
            proof {
                assert(files@ =~= self.fs.files@.take(i as int + 1));
            }
            i += 1;
        }
        let bn = self.fs.blocks.len();
        let mut blocks: Vec<crate::state::BlockEntry> = Vec::new();
        let mut j: usize = 0;
        while j < bn
            invariant
                bn == self.fs.blocks@.len(),
                j <= bn,
                blocks@ == self.fs.blocks@.take(j as int),
            decreases bn - j,
        {
            blocks.push(self.fs.blocks[j]);
            proof {
                assert(blocks@ =~= self.fs.blocks@.take(j as int + 1));
            }
            j += 1;
        }
        let wn = self.fs.worker_manager.workers.len();
        let mut workers: Vec<WorkerEntry> = Vec::new();
        let mut k: usize = 0;
        while k < wn
            invariant
                wn == self.fs.worker_manager.workers@.len(),
                k <= wn,
                workers@ == self.fs.worker_manager.workers@.take(k as int),
            decreases wn - k,
        {
            let w = &self.fs.worker_manager.workers[k];
            workers.push(WorkerEntry {
                cluster_id: w.cluster_id.clone(),
                hostname: w.hostname.clone(),
                port: w.port,
                status: w.status,
                storage_count: w.storage_count,
            });
            proof {
                assert(workers@ =~= self.fs.worker_manager.workers@.take(k as int + 1));
            }
            k += 1;
        }
        let r = MasterFilesystem {
            master_monitor: MasterMonitor { active: self.fs.master_monitor.active },
            files,
            blocks,
            next_file_id: self.fs.next_file_id,
            next_block_id: self.fs.next_block_id,
            worker_manager: WorkerManager { workers },
            calls: self.fs.calls,
        };
        proof {
            assert(self.fs.files@.take(n as int) =~= self.fs.files@);
            assert(self.fs.blocks@.take(bn as int) =~= self.fs.blocks@);
            assert(self.fs.worker_manager.workers@.take(wn as int)
                =~= self.fs.worker_manager.workers@);
            assert(r@ =~= self.fs@);
        }
        r
    }

    /// The create-file core with its status-replay retry policy.
    fn create_file0(&mut self, req_id: i64, path: String, opts: CreateFileOpts) -> (r:
        FsResult<FileStatus>)
        requires
            old(self).wf(),
        ensures
            final(self).wf(),
            final(self)@.fs == step_create_inner(old(self)@.fs, old(self)@.cache, req_id, path,
                opts).0,
            final(self)@.cache == step_create_inner(old(self)@.fs, old(self)@.cache, req_id, path,
                opts).1,
            r == step_create_inner(old(self)@.fs, old(self)@.cache, req_id, path, opts).2,
            rest_unchanged(*old(self), *final(self)),
    {
        if self.check_is_retry(req_id)? {
            // The retry of a create re-queries the current status, as
            // if the original attempt had just succeeded; the result
            // may lag behind concurrent mutation, which is the traded
            // cost of not caching whole response payloads.
            return self.fs.file_status(&path);
        }
        let res = self.fs.create_with_opts(&path, opts);
        self.set_req_cache(req_id, res)
    }

    /// The delete core with its success-assert retry policy.
    pub fn delete0(&mut self, req_id: i64, path: &String, recursive: bool) -> (r: FsResult<bool>)
        requires
            old(self).wf(),
        ensures
            final(self).wf(),
            final(self)@.fs == step_delete_inner(old(self)@.fs, old(self)@.cache, req_id, *path,
                recursive).0,
            final(self)@.cache == step_delete_inner(old(self)@.fs, old(self)@.cache, req_id,
                *path, recursive).1,
            r == step_delete_inner(old(self)@.fs, old(self)@.cache, req_id, *path, recursive).2,
            rest_unchanged(*old(self), *final(self)),
    {
        if self.check_is_retry(req_id)? {
            return Ok(true);
        }
        let res = self.fs.delete(path, recursive);
        self.set_req_cache(req_id, res)
    }

    /// The rename core with its success-assert retry policy.
    pub fn rename0(&mut self, req_id: i64, src: &String, dst: &String) -> (r: FsResult<bool>)
        requires
            old(self).wf(),
        ensures
            final(self).wf(),
            final(self)@.fs == step_rename_inner(old(self)@.fs, old(self)@.cache, req_id, *src,
                *dst).0,
            final(self)@.cache == step_rename_inner(old(self)@.fs, old(self)@.cache, req_id, *src,
                *dst).1,
            r == step_rename_inner(old(self)@.fs, old(self)@.cache, req_id, *src, *dst).2,
            rest_unchanged(*old(self), *final(self)),
    {
        if self.check_is_retry(req_id)? {
            return Ok(true);
        }
        let res = self.fs.rename(src, dst);
        self.set_req_cache(req_id, res)
    }

    /// Handle a make-directory request.
    pub fn mkdir(&mut self, ctx: &mut RpcContext<'_>) -> (r: FsResult<Reply>)
        requires
            old(self).wf(),
            !old(ctx).responded,
            old(ctx).audit_primary is None,
            old(ctx).audit_secondary is None,
        ensures
            final(self).wf(),
            step_applied(*old(self), *final(self), step_mkdir(old(self)@, *old(ctx).msg)),
            ctx_stepped(*old(ctx), *final(ctx), step_mkdir(old(self)@, *old(ctx).msg)),
            res_matches(r, step_mkdir(old(self)@, *old(ctx).msg), *old(ctx).msg),
    {
        let (path, opts) = match &ctx.msg.header {
            RequestHeader::Mkdir { path, opts } => (path.clone(), *opts),
            _ => {
                return Err(FsError::Malformed { code: ctx.msg.code });
            },
        };
        ctx.set_audit(Some(path.clone()), None);
        let flag = self.fs.mkdir_with_opts(&path, opts)?;
        ctx.response(ResponseHeader::Mkdir { flag })
    }

    /// Handle a create-file request under the status-replay policy.
    pub fn retry_check_create_file(&mut self, ctx: &mut RpcContext<'_>) -> (r: FsResult<Reply>)
        requires
            old(self).wf(),
            !old(ctx).responded,
            old(ctx).audit_primary is None,
            old(ctx).audit_secondary is None,
        ensures
            final(self).wf(),
            step_applied(*old(self), *final(self), step_create(old(self)@, *old(ctx).msg)),
            ctx_stepped(*old(ctx), *final(ctx), step_create(old(self)@, *old(ctx).msg)),
            res_matches(r, step_create(old(self)@, *old(ctx).msg), *old(ctx).msg),
    {
        let (path, opts) = match &ctx.msg.header {
            RequestHeader::CreateFile { path, opts } => (path.clone(), *opts),
            _ => {
                return Err(FsError::Malformed { code: ctx.msg.code });
            },
        };
        ctx.set_audit(Some(path.clone()), None);
        let status = self.create_file0(ctx.msg.req_id, path, opts)?;
        ctx.response(ResponseHeader::CreateFile { file_status: status })
    }

    /// Handle a read-only file-status request.
    pub fn file_status(&self, ctx: &mut RpcContext<'_>) -> (r: FsResult<Reply>)
        requires
            !old(ctx).responded,
            old(ctx).audit_primary is None,
            old(ctx).audit_secondary is None,
        ensures
            ctx_stepped(*old(ctx), *final(ctx), step_file_status(self@, *old(ctx).msg)),
            res_matches(r, step_file_status(self@, *old(ctx).msg), *old(ctx).msg),
    {
        let path = match &ctx.msg.header {
            RequestHeader::FileStatus { path } => path.clone(),
            _ => {
                return Err(FsError::Malformed { code: ctx.msg.code });
            },
        };
        ctx.set_audit(Some(path.clone()), None);
        let status = self.fs.file_status(&path)?;
        ctx.response(ResponseHeader::FileStatus { status })
    }

    /// Handle a read-only existence check.
    pub fn path_exists(&self, ctx: &mut RpcContext<'_>) -> (r: FsResult<Reply>)
        requires
            !old(ctx).responded,
            old(ctx).audit_primary is None,
            old(ctx).audit_secondary is None,
        ensures
            ctx_stepped(*old(ctx), *final(ctx), step_exists(self@, *old(ctx).msg)),
            res_matches(r, step_exists(self@, *old(ctx).msg), *old(ctx).msg),
    {
        let path = match &ctx.msg.header {
            RequestHeader::Exists { path } => path.clone(),
            _ => {
                return Err(FsError::Malformed { code: ctx.msg.code });
            },
        };
        ctx.set_audit(Some(path.clone()), None);
        let found = self.fs.path_exists(&path)?;
        ctx.response(ResponseHeader::Exists { exists: found })
    }

    /// Handle a delete request under the success-assert policy.
    pub fn retry_check_delete(&mut self, ctx: &mut RpcContext<'_>) -> (r: FsResult<Reply>)
        requires
            old(self).wf(),
            !old(ctx).responded,
            old(ctx).audit_primary is None,
            old(ctx).audit_secondary is None,
        ensures
            final(self).wf(),
            step_applied(*old(self), *final(self), step_delete(old(self)@, *old(ctx).msg)),
            ctx_stepped(*old(ctx), *final(ctx), step_delete(old(self)@, *old(ctx).msg)),
            res_matches(r, step_delete(old(self)@, *old(ctx).msg), *old(ctx).msg),
    {
        let (path, recursive) = match &ctx.msg.header {
            RequestHeader::Delete { path, recursive } => (path.clone(), *recursive),
            _ => {
                return Err(FsError::Malformed { code: ctx.msg.code });
            },
        };
        ctx.set_audit(Some(path.clone()), None);
        self.delete0(ctx.msg.req_id, &path, recursive)?;
        ctx.response(ResponseHeader::Delete)
    }

    /// Handle a rename request under the success-assert policy.
    pub fn retry_check_rename(&mut self, ctx: &mut RpcContext<'_>) -> (r: FsResult<Reply>)
        requires
            old(self).wf(),
            !old(ctx).responded,
            old(ctx).audit_primary is None,
            old(ctx).audit_secondary is None,
        ensures
            final(self).wf(),
            step_applied(*old(self), *final(self), step_rename(old(self)@, *old(ctx).msg)),
            ctx_stepped(*old(ctx), *final(ctx), step_rename(old(self)@, *old(ctx).msg)),
            res_matches(r, step_rename(old(self)@, *old(ctx).msg), *old(ctx).msg),
    {
        let (src, dst) = match &ctx.msg.header {
            RequestHeader::Rename { src, dst } => (src.clone(), dst.clone()),
            _ => {
                return Err(FsError::Malformed { code: ctx.msg.code });
            },
        };
        ctx.set_audit(Some(src.clone()), Some(dst.clone()));
        let result = self.rename0(ctx.msg.req_id, &src, &dst)?;
        ctx.response(ResponseHeader::Rename { result })
    }

    /// Handle a read-only directory listing.
    pub fn list_status(&self, ctx: &mut RpcContext<'_>) -> (r: FsResult<Reply>)
        requires
            !old(ctx).responded,
            old(ctx).audit_primary is None,
            old(ctx).audit_secondary is None,
        ensures
            ctx_stepped(*old(ctx), *final(ctx), step_list_status(self@, *old(ctx).msg)),
            res_matches(r, step_list_status(self@, *old(ctx).msg), *old(ctx).msg),
    {
        let path = match &ctx.msg.header {
            RequestHeader::ListStatus { path } => path.clone(),
            _ => {
                return Err(FsError::Malformed { code: ctx.msg.code });
            },
        };
        ctx.set_audit(Some(path.clone()), None);
        let list = self.fs.list_status(&path)?;
        ctx.response(ResponseHeader::ListStatus { statuses: list })
    }

    /// Handle an add-block request; the facade owns retry detection.
    pub fn add_block(&mut self, ctx: &mut RpcContext<'_>) -> (r: FsResult<Reply>)
        requires
            old(self).wf(),
            !old(ctx).responded,
            old(ctx).audit_primary is None,
            old(ctx).audit_secondary is None,
        ensures
            final(self).wf(),
            step_applied(*old(self), *final(self), step_add_block(old(self)@, *old(ctx).msg)),
            ctx_stepped(*old(ctx), *final(ctx), step_add_block(old(self)@, *old(ctx).msg)),
            res_matches(r, step_add_block(old(self)@, *old(ctx).msg), *old(ctx).msg),
    {
        let (path, previous) = match &ctx.msg.header {
            RequestHeader::AddBlock { path, previous, .. } => (path.clone(), *previous),
            _ => {
                return Err(FsError::Malformed { code: ctx.msg.code });
            },
        };
        ctx.set_audit(Some(path.clone()), None);
        let block = self.fs.add_block(&path, previous)?;
        ctx.response(ResponseHeader::AddBlock { block })
    }

    /// Handle a complete-file request; the facade owns retry detection.
    pub fn complete_file(&mut self, ctx: &mut RpcContext<'_>) -> (r: FsResult<Reply>)
        requires
            old(self).wf(),
            !old(ctx).responded,
            old(ctx).audit_primary is None,
            old(ctx).audit_secondary is None,
        ensures
            final(self).wf(),
            step_applied(*old(self), *final(self), step_complete_file(old(self)@, *old(ctx).msg)),
            ctx_stepped(*old(ctx), *final(ctx), step_complete_file(old(self)@, *old(ctx).msg)),
            res_matches(r, step_complete_file(old(self)@, *old(ctx).msg), *old(ctx).msg),
    {
        let (path, len, last) = match &ctx.msg.header {
            RequestHeader::CompleteFile { path, len, last, .. } => (
                path.clone(),
                *len,
                *last,
            ),
            _ => {
                return Err(FsError::Malformed { code: ctx.msg.code });
            },
        };
        ctx.set_audit(Some(path.clone()), None);
        self.fs.complete_file(&path, len, last)?;
        ctx.response(ResponseHeader::CompleteFile)
    }

    /// Handle an append-file request under the reject-on-retry policy.
    pub fn retry_check_append_file(&mut self, ctx: &mut RpcContext<'_>) -> (r: FsResult<Reply>)
        requires
            old(self).wf(),
            !old(ctx).responded,
            old(ctx).audit_primary is None,
            old(ctx).audit_secondary is None,
        ensures
            final(self).wf(),
            step_applied(*old(self), *final(self), step_append(old(self)@, *old(ctx).msg)),
            ctx_stepped(*old(ctx), *final(ctx), step_append(old(self)@, *old(ctx).msg)),
            res_matches(r, step_append(old(self)@, *old(ctx).msg), *old(ctx).msg),
    {
        let (path, opts) = match &ctx.msg.header {
            RequestHeader::AppendFile { path, opts } => (path.clone(), *opts),
            _ => {
                return Err(FsError::Malformed { code: ctx.msg.code });
            },
        };
        ctx.set_audit(Some(path.clone()), None);
        if self.check_is_retry(ctx.msg.req_id)? {
            return Err(FsError::RetryConflict { path });
        }
        let (last_block, status) = self.fs.append_file(&path, opts)?;
        let res = ctx.response(ResponseHeader::AppendFile { file_status: status, last_block });
        self.set_req_cache(ctx.msg.req_id, res)
    }

    /// Handle a read-only block-locations request.
    pub fn get_block_locations(&self, ctx: &mut RpcContext<'_>) -> (r: FsResult<Reply>)
        requires
            !old(ctx).responded,
            old(ctx).audit_primary is None,
            old(ctx).audit_secondary is None,
        ensures
            ctx_stepped(*old(ctx), *final(ctx), step_get_block_locations(self@, *old(ctx).msg)),
            res_matches(r, step_get_block_locations(self@, *old(ctx).msg), *old(ctx).msg),
    {
        let path = match &ctx.msg.header {
            RequestHeader::GetBlockLocations { path } => path.clone(),
            _ => {
                return Err(FsError::Malformed { code: ctx.msg.code });
            },
        };
        ctx.set_audit(Some(path.clone()), None);
        let (status, blocks) = self.fs.get_block_locations(&path)?;
        ctx.response(ResponseHeader::GetBlockLocations { status, blocks })
    }

    /// Handle a read-only master-info request.
    pub fn get_master_info(&self, ctx: &mut RpcContext<'_>) -> (r: FsResult<Reply>)
        requires
            !old(ctx).responded,
            old(ctx).audit_primary is None,
            old(ctx).audit_secondary is None,
        ensures
            ctx_stepped(*old(ctx), *final(ctx), step_get_master_info(self@, *old(ctx).msg)),
            res_matches(r, step_get_master_info(self@, *old(ctx).msg), *old(ctx).msg),
    {
        match &ctx.msg.header {
            RequestHeader::GetMasterInfo => {},
            _ => {
                return Err(FsError::Malformed { code: ctx.msg.code });
            },
        }
        let info = self.fs.master_info()?;
        ctx.response(ResponseHeader::GetMasterInfo { info })
    }

    /// Handle a worker heartbeat. The worker-table update completes
    /// before the reply is built, keeping the critical section short.
    pub fn worker_heartbeat(&mut self, ctx: &mut RpcContext<'_>) -> (r: FsResult<Reply>)
        requires
            old(self).wf(),
            !old(ctx).responded,
            old(ctx).audit_primary is None,
            old(ctx).audit_secondary is None,
        ensures
            final(self).wf(),
            step_applied(*old(self), *final(self), step_worker_heartbeat(old(self)@, *old(ctx).msg)),
            ctx_stepped(*old(ctx), *final(ctx), step_worker_heartbeat(old(self)@, *old(ctx).msg)),
            res_matches(r, step_worker_heartbeat(old(self)@, *old(ctx).msg), *old(ctx).msg),
    {
        let cmds = match &ctx.msg.header {
            RequestHeader::WorkerHeartbeat { cluster_id, status, hostname, port, storages } => {
                let st = hb_status(*status);
                self.fs.heartbeat(cluster_id, st, hostname, *port, storages)?
            },
            _ => {
                return Err(FsError::Malformed { code: ctx.msg.code });
            },
        };
        proof {
            assert(cmds@ =~= Seq::<crate::state::WorkerCommand>::empty());
        }
        ctx.response(ResponseHeader::WorkerHeartbeat { cmds })
    }

    /// Handle a worker block report.
    pub fn block_report(&mut self, ctx: &mut RpcContext<'_>) -> (r: FsResult<Reply>)
        requires
            old(self).wf(),
            !old(ctx).responded,
            old(ctx).audit_primary is None,
            old(ctx).audit_secondary is None,
        ensures
            final(self).wf(),
            step_applied(*old(self), *final(self), step_block_report(old(self)@, *old(ctx).msg)),
            ctx_stepped(*old(ctx), *final(ctx), step_block_report(old(self)@, *old(ctx).msg)),
            res_matches(r, step_block_report(old(self)@, *old(ctx).msg), *old(ctx).msg),
    {
        match &ctx.msg.header {
            RequestHeader::WorkerBlockReport { report } => {
                self.fs.block_report(report)?;
            },
            _ => {
                return Err(FsError::Malformed { code: ctx.msg.code });
            },
        }
        ctx.response(ResponseHeader::WorkerBlockReport)
    }

    /// Handle a mount request, delegated to the mount table.
    pub fn mount(&mut self, ctx: &mut RpcContext<'_>) -> (r: FsResult<Reply>)
        requires
            old(self).wf(),
            !old(ctx).responded,
            old(ctx).audit_primary is None,
            old(ctx).audit_secondary is None,
        ensures
            final(self).wf(),
            step_applied(*old(self), *final(self), step_mount(old(self)@, *old(ctx).msg)),
            ctx_stepped(*old(ctx), *final(ctx), step_mount(old(self)@, *old(ctx).msg)),
            res_matches(r, step_mount(old(self)@, *old(ctx).msg), *old(ctx).msg),
    {
        let (curvine_path, ufs_path, read_only) = match &ctx.msg.header {
            RequestHeader::Mount { curvine_path, ufs_path, options } => (
                curvine_path.clone(),
                ufs_path.clone(),
                match options {
                    Some(o) => o.read_only,
                    None => false,
                },
            ),
            _ => {
                return Err(FsError::Malformed { code: ctx.msg.code });
            },
        };
        self.mount_manager.mount(&curvine_path, &ufs_path, read_only)?;
        ctx.response(ResponseHeader::Mount)
    }

    /// Handle an update-mount request: a stub answering success.
    pub fn update_mount(&self, ctx: &mut RpcContext<'_>) -> (r: FsResult<Reply>)
        requires
            !old(ctx).responded,
            old(ctx).audit_primary is None,
            old(ctx).audit_secondary is None,
        ensures
            ctx_stepped(*old(ctx), *final(ctx), step_update_mount(self@, *old(ctx).msg)),
            res_matches(r, step_update_mount(self@, *old(ctx).msg), *old(ctx).msg),
    {
        ctx.response(ResponseHeader::UpdateMount)
    }

    /// Handle an unmount request.
    pub fn umount(&mut self, ctx: &mut RpcContext<'_>) -> (r: FsResult<Reply>)
        requires
            old(self).wf(),
            !old(ctx).responded,
            old(ctx).audit_primary is None,
            old(ctx).audit_secondary is None,
        ensures
            final(self).wf(),
            step_applied(*old(self), *final(self), step_umount(old(self)@, *old(ctx).msg)),
            ctx_stepped(*old(ctx), *final(ctx), step_umount(old(self)@, *old(ctx).msg)),
            res_matches(r, step_umount(old(self)@, *old(ctx).msg), *old(ctx).msg),
    {
        let curvine_path = match &ctx.msg.header {
            RequestHeader::UnMount { curvine_path } => curvine_path.clone(),
            _ => {
                return Err(FsError::Malformed { code: ctx.msg.code });
            },
        };
        self.mount_manager.umount(&curvine_path)?;
        ctx.response(ResponseHeader::UnMount)
    }

    /// Handle a read-only mount-info request.
    pub fn get_mount_point(&self, ctx: &mut RpcContext<'_>) -> (r: FsResult<Reply>)
        requires
            !old(ctx).responded,
            old(ctx).audit_primary is None,
            old(ctx).audit_secondary is None,
        ensures
            ctx_stepped(*old(ctx), *final(ctx), step_get_mount_point(self@, *old(ctx).msg)),
            res_matches(r, step_get_mount_point(self@, *old(ctx).msg), *old(ctx).msg),
    {
        let path = match &ctx.msg.header {
            RequestHeader::GetMountInfo { path } => path.clone(),
            _ => {
                return Err(FsError::Malformed { code: ctx.msg.code });
            },
        };
        ctx.set_audit(Some(path.clone()), None);
        let ret = self.mount_manager.get_mount_point(&path)?;
        ctx.response(ResponseHeader::GetMountInfo { mount_point: ret })
    }

    /// Handle a read-only mount-table request.
    pub fn get_mount_table(&self, ctx: &mut RpcContext<'_>) -> (r: FsResult<Reply>)
        requires
            !old(ctx).responded,
            old(ctx).audit_primary is None,
            old(ctx).audit_secondary is None,
        ensures
            ctx_stepped(*old(ctx), *final(ctx), step_get_mount_table(self@, *old(ctx).msg)),
            res_matches(r, step_get_mount_table(self@, *old(ctx).msg), *old(ctx).msg),
    {
        match &ctx.msg.header {
            RequestHeader::GetMountTable => {},
            _ => {
                return Err(FsError::Malformed { code: ctx.msg.code });
            },
        }
        let mount_points = self.mount_manager.get_mount_table()?;
        ctx.response(ResponseHeader::GetMountTable { mount_points })
    }

    /// Handle a set-attributes request under the success-assert policy;
    /// the header is parsed first, so the subject path reaches the
    /// audit record on the retry path too.
    pub fn set_attr_retry_check(&mut self, ctx: &mut RpcContext<'_>) -> (r: FsResult<Reply>)
        requires
            old(self).wf(),
            !old(ctx).responded,
            old(ctx).audit_primary is None,
            old(ctx).audit_secondary is None,
        ensures
            final(self).wf(),
            step_applied(*old(self), *final(self), step_set_attr(old(self)@, *old(ctx).msg)),
            ctx_stepped(*old(ctx), *final(ctx), step_set_attr(old(self)@, *old(ctx).msg)),
            res_matches(r, step_set_attr(old(self)@, *old(ctx).msg), *old(ctx).msg),
    {
        let (path, opts) = match &ctx.msg.header {
            RequestHeader::SetAttr { path, opts } => (path.clone(), *opts),
            _ => {
                return Err(FsError::Malformed { code: ctx.msg.code });
            },
        };
        ctx.set_audit(Some(path.clone()), None);
        if self.check_is_retry(ctx.msg.req_id)? {
            return ctx.response(ResponseHeader::SetAttr);
        }
        self.fs.set_attr(&path, opts)?;
        ctx.response(ResponseHeader::SetAttr)
    }

    /// Handle a symlink request under the success-assert policy.
    pub fn symlink_retry_check(&mut self, ctx: &mut RpcContext<'_>) -> (r: FsResult<Reply>)
        requires
            old(self).wf(),
            !old(ctx).responded,
            old(ctx).audit_primary is None,
            old(ctx).audit_secondary is None,
        ensures
            final(self).wf(),
            step_applied(*old(self), *final(self), step_symlink(old(self)@, *old(ctx).msg)),
            ctx_stepped(*old(ctx), *final(ctx), step_symlink(old(self)@, *old(ctx).msg)),
            res_matches(r, step_symlink(old(self)@, *old(ctx).msg), *old(ctx).msg),
    {
        let (target, link, force, mode) = match &ctx.msg.header {
            RequestHeader::Symlink { target, link, force, mode } => (
                target.clone(),
                link.clone(),
                *force,
                *mode,
            ),
            _ => {
                return Err(FsError::Malformed { code: ctx.msg.code });
            },
        };
        ctx.set_audit(Some(target.clone()), Some(link.clone()));
        if self.check_is_retry(ctx.msg.req_id)? {
            return ctx.response(ResponseHeader::Symlink);
        }
        self.fs.symlink(&target, &link, force, mode)?;
        ctx.response(ResponseHeader::Symlink)
    }

    /// The single entry point: turn one inbound message into one
    /// outbound reply. The leader gate short-circuits untouched, load
    /// codes are forwarded whole, every other message runs its handler
    /// and is then counted and, when audit is enabled, audited; errors
    /// never propagate upward, they become error replies.
    pub fn handle(&mut self, msg: &Message) -> (r: Reply)
        requires
            old(self).wf(),
        ensures
            final(self).wf(),
            exists|t: u64, ts: u64|
                final(self)@ == spec_handle(old(self)@, *msg, t, ts).0 && r@ == spec_handle(
                    old(self)@,
                    *msg,
                    t,
                    ts,
                ).1,
    {
        let ghost pre = *self;
        let start = now_micros();
        let mut rpc_context = RpcContext::new(msg, start);
        let ctx = &mut rpc_context;

        // Leader gate: an inactive master refuses before any work, and
        // neither metrics nor audit see the request.
        if !self.fs.master_monitor.is_active() {
            let client = self.client_hostname();
            let out = error_reply(msg, FsError::NotLeader { code: msg.code, client });
            proof {
                assert(self@ == spec_handle(pre@, *msg, 0u64, 0u64).0);
                assert(out@ == spec_handle(pre@, *msg, 0u64, 0u64).1);
            }
            return out;
        }

        // Load routing: the four load codes go to the sub-service
        // whole, and its reply goes back unchanged.
        let code = code_of(msg.code);
        let routed = match code {
            Some(c) => is_load_code(c),
            None => false,
        };
        if routed {
            match &mut self.load_service {
                Some(ls) => {
                    let out = ls.handle(msg);
                    proof {
                        assert(self@ =~~= spec_handle(pre@, *msg, 0u64, 0u64).0);
                        assert(out@ == spec_handle(pre@, *msg, 0u64, 0u64).1);
                    }
                    return out;
                },
                None => {
                    let out = error_reply(msg, FsError::ServiceUnavailable);
                    proof {
                        assert(self@ == spec_handle(pre@, *msg, 0u64, 0u64).0);
                        assert(out@ == spec_handle(pre@, *msg, 0u64, 0u64).1);
                    }
                    return out;
                },
            }
        }

        // Handler dispatch over the closed code table.
        let response: FsResult<Reply> = match code {
            Some(RpcCode::Mkdir) => self.mkdir(ctx),
            Some(RpcCode::CreateFile) => self.retry_check_create_file(ctx),
            Some(RpcCode::AppendFile) => self.retry_check_append_file(ctx),
            Some(RpcCode::FileStatus) => self.file_status(ctx),
            Some(RpcCode::AddBlock) => self.add_block(ctx),
            Some(RpcCode::CompleteFile) => self.complete_file(ctx),
            Some(RpcCode::Exists) => self.path_exists(ctx),
            Some(RpcCode::Delete) => self.retry_check_delete(ctx),
            Some(RpcCode::Rename) => self.retry_check_rename(ctx),
            Some(RpcCode::ListStatus) => self.list_status(ctx),
            Some(RpcCode::GetBlockLocations) => self.get_block_locations(ctx),
            Some(RpcCode::SetAttr) => self.set_attr_retry_check(ctx),
            Some(RpcCode::Symlink) => self.symlink_retry_check(ctx),
            Some(RpcCode::Mount) => self.mount(ctx),
            Some(RpcCode::UnMount) => self.umount(ctx),
            Some(RpcCode::UpdateMount) => self.update_mount(ctx),
            Some(RpcCode::GetMountTable) => self.get_mount_table(ctx),
            Some(RpcCode::GetMountInfo) => self.get_mount_point(ctx),
            Some(RpcCode::WorkerHeartbeat) => self.worker_heartbeat(ctx),
            Some(RpcCode::WorkerBlockReport) => self.block_report(ctx),
            Some(RpcCode::GetMasterInfo) => self.get_master_info(ctx),
            _ => Err(FsError::Unsupported { code: msg.code }),
        };

        // Post-processing: one metrics update, one audit record.
        let end = now_micros();
        let used = rpc_context.elapsed_us(end);
        let success = response.is_ok();
        if self.audit_logging_enabled {
            let primary = match &rpc_context.audit_primary {
                Some(s) => Some(s.clone()),
                None => None,
            };
            let secondary = match &rpc_context.audit_secondary {
                Some(s) => Some(s.clone()),
                None => None,
            };
            let client = self.client_hostname();
            self.audit_log.append(AuditRecord {
                timestamp_us: end,
                code: msg.code,
                primary,
                secondary,
                client,
                success,
                elapsed_us: used,
            });
        }
        self.metrics.record(msg.code, used);

        // Error shaping: the caller always gets a reply to send.
        let out = match response {
            Ok(v) => v,
            Err(e) => error_reply(msg, e),
        };
        proof {
            assert(self@ =~~= spec_handle(pre@, *msg, used, end).0);
            assert(out@ == spec_handle(pre@, *msg, used, end).1);
        }
        out
    }
}

/// Heartbeat status decoding, as workers report it on the wire.
pub fn hb_status(v: u32) -> (r: HeartbeatStatus)
    ensures
        r == spec_hb_status(v),
{
    if v == 0 {
        HeartbeatStatus::Start
    } else if v == 2 {
        HeartbeatStatus::Shutdown
    } else {
        HeartbeatStatus::Running
    }
}

} // verus!
