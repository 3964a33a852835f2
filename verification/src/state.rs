//! Plain-value state carried through the protocol: file metadata,
//! operation options, block handles, worker and mount records.

use vstd::prelude::*;

verus! {

/// Metadata of one namespace entry as reported to clients.
#[derive(Clone, Debug)]
pub struct FileStatus {
    pub id: i64,
    pub path: String,
    pub is_dir: bool,
    pub len: i64,
    pub mode: u32,
    pub is_complete: bool,
    /// Target of a symbolic link, absent for plain files and directories.
    pub link: Option<String>,
}

/// Options of a create-file request.
#[derive(Clone, Copy, Debug)]
pub struct CreateFileOpts {
    /// Replace an existing entry at the target path.
    pub overwrite: bool,
    pub mode: u32,
}

impl CreateFileOpts {
    /// The options a client gets when it asks for nothing special.
    pub fn with_defaults() -> (r: CreateFileOpts)
        ensures
            r.overwrite == false,
            r.mode == 420,
    {
        CreateFileOpts { overwrite: false, mode: 420 }
    }
}

/// Options of a make-directory request.
#[derive(Clone, Copy, Debug)]
pub struct MkdirOpts {
    /// Create missing ancestors instead of failing.
    pub create_parent: bool,
    pub mode: u32,
}

impl MkdirOpts {
    pub fn with_defaults() -> (r: MkdirOpts)
        ensures
            r.create_parent == true,
            r.mode == 493,
    {
        MkdirOpts { create_parent: true, mode: 493 }
    }
}

/// Options of a set-attributes request.
#[derive(Clone, Copy, Debug)]
pub struct SetAttrOpts {
    /// New permission bits, absent to leave them as they are.
    pub mode: Option<u32>,
}

/// A block a client reports as written, with its final length.
#[derive(Clone, Copy, Debug, PartialEq, Eq, Structural)]
pub struct CommitBlock {
    pub id: i64,
    pub len: i64,
}

/// A block handle returned to a writing client.
#[derive(Clone, Copy, Debug, PartialEq, Eq, Structural)]
pub struct LocatedBlock {
    pub id: i64,
    pub offset: i64,
}

/// One block known to the master, owned by the file with `file_id`.
#[derive(Clone, Copy, Debug, PartialEq, Eq, Structural)]
pub struct BlockEntry {
    pub file_id: i64,
    pub block_id: i64,
    pub offset: i64,
}

/// Network address of one worker node.
#[derive(Clone, Debug)]
pub struct WorkerAddress {
    pub hostname: String,
    pub port: u32,
}

/// Storage capacity one worker directory reports.
#[derive(Clone, Copy, Debug, PartialEq, Eq, Structural)]
pub struct StorageInfo {
    pub dir_id: u32,
    pub capacity: i64,
    pub available: i64,
}

/// Heartbeat kind a worker reports.
#[derive(Clone, Copy, Debug, PartialEq, Eq, Structural)]
pub enum HeartbeatStatus {
    Start,
    Running,
    Shutdown,
}

/// One worker as the master's worker table records it.
#[derive(Clone, Debug)]
pub struct WorkerEntry {
    pub cluster_id: String,
    pub hostname: String,
    pub port: u32,
    pub status: HeartbeatStatus,
    pub storage_count: usize,
}

/// A command the master hands back to a worker in a heartbeat reply.
#[derive(Clone, Copy, Debug, PartialEq, Eq, Structural)]
pub struct WorkerCommand {
    pub kind: u32,
    pub block_id: i64,
}

/// Blocks one worker reports as present or vanished.
#[derive(Clone, Debug)]
pub struct BlockReportList {
    pub worker_hostname: String,
    pub block_ids: Vec<i64>,
}

/// A snapshot of cluster-wide counts.
#[derive(Clone, Debug)]
pub struct MasterInfo {
    pub active: bool,
    pub file_count: u64,
    pub block_count: u64,
    pub worker_count: u64,
}

/// Options of a mount request.
#[derive(Clone, Copy, Debug)]
pub struct MountOptions {
    pub read_only: bool,
}

/// One binding of a namespace path to a backing storage location.
#[derive(Clone, Debug)]
pub struct MountPoint {
    pub curvine_path: String,
    pub ufs_path: String,
    pub read_only: bool,
}

/// Remote peer of the connection a message arrived on.
#[derive(Clone, Debug)]
pub struct ConnState {
    pub remote_hostname: String,
}

} // verus!
