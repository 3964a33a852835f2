//! The closed operation-code table, the typed request and response
//! headers bound to each code, and the message envelopes.

use vstd::prelude::*;
use vstd::string::*;
use crate::errors::FsError;
use crate::state::{
    BlockReportList, CommitBlock, CreateFileOpts, FileStatus, LocatedBlock, MasterInfo, MkdirOpts,
    MountOptions, MountPoint, SetAttrOpts, StorageInfo, WorkerCommand,
};

verus! {

/// The closed set of operations the dispatcher recognizes.
#[derive(Clone, Copy, Debug, PartialEq, Eq, Structural)]
pub enum RpcCode {
    Mkdir,
    CreateFile,
    AppendFile,
    FileStatus,
    AddBlock,
    CompleteFile,
    Exists,
    Delete,
    Rename,
    ListStatus,
    GetBlockLocations,
    SetAttr,
    Symlink,
    Mount,
    UnMount,
    UpdateMount,
    GetMountTable,
    GetMountInfo,
    WorkerHeartbeat,
    WorkerBlockReport,
    GetMasterInfo,
    SubmitLoadJob,
    GetLoadStatus,
    CancelLoadJob,
    ReportLoadTask,
}

/// Binding of wire code values to operations; values outside it are
/// unsupported.
pub open spec fn spec_code_of(v: int) -> Option<RpcCode> {
    if v == 1 {
        Some(RpcCode::Mkdir)
    } else if v == 2 {
        Some(RpcCode::CreateFile)
    } else if v == 3 {
        Some(RpcCode::AppendFile)
    } else if v == 4 {
        Some(RpcCode::FileStatus)
    } else if v == 5 {
        Some(RpcCode::AddBlock)
    } else if v == 6 {
        Some(RpcCode::CompleteFile)
    } else if v == 7 {
        Some(RpcCode::Exists)
    } else if v == 8 {
        Some(RpcCode::Delete)
    } else if v == 9 {
        Some(RpcCode::Rename)
    } else if v == 10 {
        Some(RpcCode::ListStatus)
    } else if v == 11 {
        Some(RpcCode::GetBlockLocations)
    } else if v == 12 {
        Some(RpcCode::SetAttr)
    } else if v == 13 {
        Some(RpcCode::Symlink)
    } else if v == 14 {
        Some(RpcCode::Mount)
    } else if v == 15 {
        Some(RpcCode::UnMount)
    } else if v == 16 {
        Some(RpcCode::UpdateMount)
    } else if v == 17 {
        Some(RpcCode::GetMountTable)
    } else if v == 18 {
        Some(RpcCode::GetMountInfo)
    } else if v == 19 {
        Some(RpcCode::WorkerHeartbeat)
    } else if v == 20 {
        Some(RpcCode::WorkerBlockReport)
    } else if v == 21 {
        Some(RpcCode::GetMasterInfo)
    } else if v == 22 {
        Some(RpcCode::SubmitLoadJob)
    } else if v == 23 {
        Some(RpcCode::GetLoadStatus)
    } else if v == 24 {
        Some(RpcCode::CancelLoadJob)
    } else if v == 25 {
        Some(RpcCode::ReportLoadTask)
    } else {
        None
    }
}

/// Decode a wire code value against the closed table.
pub fn code_of(v: u32) -> (r: Option<RpcCode>)
    ensures
        r == spec_code_of(v as int),
{
    if v == 1 {
        Some(RpcCode::Mkdir)
    } else if v == 2 {
        Some(RpcCode::CreateFile)
    } else if v == 3 {
        Some(RpcCode::AppendFile)
    } else if v == 4 {
        Some(RpcCode::FileStatus)
    } else if v == 5 {
        Some(RpcCode::AddBlock)
    } else if v == 6 {
        Some(RpcCode::CompleteFile)
    } else if v == 7 {
        Some(RpcCode::Exists)
    } else if v == 8 {
        Some(RpcCode::Delete)
    } else if v == 9 {
        Some(RpcCode::Rename)
    } else if v == 10 {
        Some(RpcCode::ListStatus)
    } else if v == 11 {
        Some(RpcCode::GetBlockLocations)
    } else if v == 12 {
        Some(RpcCode::SetAttr)
    } else if v == 13 {
        Some(RpcCode::Symlink)
    } else if v == 14 {
        Some(RpcCode::Mount)
    } else if v == 15 {
        Some(RpcCode::UnMount)
    } else if v == 16 {
        Some(RpcCode::UpdateMount)
    } else if v == 17 {
        Some(RpcCode::GetMountTable)
    } else if v == 18 {
        Some(RpcCode::GetMountInfo)
    } else if v == 19 {
        Some(RpcCode::WorkerHeartbeat)
    } else if v == 20 {
        Some(RpcCode::WorkerBlockReport)
    } else if v == 21 {
        Some(RpcCode::GetMasterInfo)
    } else if v == 22 {
        Some(RpcCode::SubmitLoadJob)
    } else if v == 23 {
        Some(RpcCode::GetLoadStatus)
    } else if v == 24 {
        Some(RpcCode::CancelLoadJob)
    } else if v == 25 {
        Some(RpcCode::ReportLoadTask)
    } else {
        None
    }
}

/// The four codes the dispatcher forwards to the load sub-service.
pub open spec fn spec_is_load_code(c: RpcCode) -> bool {
    c == RpcCode::SubmitLoadJob || c == RpcCode::GetLoadStatus || c == RpcCode::CancelLoadJob
        || c == RpcCode::ReportLoadTask
}

/// Whether an operation is routed to the load sub-service.
pub fn is_load_code(c: RpcCode) -> (r: bool)
    ensures
        r == spec_is_load_code(c),
{
    match c {
        RpcCode::SubmitLoadJob | RpcCode::GetLoadStatus | RpcCode::CancelLoadJob
            | RpcCode::ReportLoadTask => true,
        _ => false,
    }
}

/// The characters of one decimal digit.
pub open spec fn digit_seq(d: int) -> Seq<char> {
    if d == 0 {
        "0"@
    } else if d == 1 {
        "1"@
    } else if d == 2 {
        "2"@
    } else if d == 3 {
        "3"@
    } else if d == 4 {
        "4"@
    } else if d == 5 {
        "5"@
    } else if d == 6 {
        "6"@
    } else if d == 7 {
        "7"@
    } else if d == 8 {
        "8"@
    } else {
        "9"@
    }
}

/// Decimal notation of a non-negative integer.
pub open spec fn spec_decimal(v: int) -> Seq<char>
    decreases v,
{
    if v < 10 {
        digit_seq(v)
    } else {
        spec_decimal(v / 10) + digit_seq(v % 10)
    }
}

/// The single-character string of one decimal digit.
fn digit_str(d: u32) -> (r: &'static str)
    requires
        d < 10,
    ensures
        r@ == digit_seq(d as int),
{
    if d == 0 {
        "0"
    } else if d == 1 {
        "1"
    } else if d == 2 {
        "2"
    } else if d == 3 {
        "3"
    } else if d == 4 {
        "4"
    } else if d == 5 {
        "5"
    } else if d == 6 {
        "6"
    } else if d == 7 {
        "7"
    } else if d == 8 {
        "8"
    } else {
        "9"
    }
}

/// Render a wire code value in decimal.
pub fn u32_decimal(v: u32) -> (r: String)
    ensures
        r@ == spec_decimal(v as int),
    decreases v,
{
    if v < 10 {
        String::from_str(digit_str(v))
    } else {
        let prefix = u32_decimal(v / 10);
        prefix.concat(digit_str(v % 10))
    }
}

/// The metrics label of an operation: its name.
pub open spec fn spec_code_name(c: RpcCode) -> Seq<char> {
    match c {
        RpcCode::Mkdir => "Mkdir"@,
        RpcCode::CreateFile => "CreateFile"@,
        RpcCode::AppendFile => "AppendFile"@,
        RpcCode::FileStatus => "FileStatus"@,
        RpcCode::AddBlock => "AddBlock"@,
        RpcCode::CompleteFile => "CompleteFile"@,
        RpcCode::Exists => "Exists"@,
        RpcCode::Delete => "Delete"@,
        RpcCode::Rename => "Rename"@,
        RpcCode::ListStatus => "ListStatus"@,
        RpcCode::GetBlockLocations => "GetBlockLocations"@,
        RpcCode::SetAttr => "SetAttr"@,
        RpcCode::Symlink => "Symlink"@,
        RpcCode::Mount => "Mount"@,
        RpcCode::UnMount => "UnMount"@,
        RpcCode::UpdateMount => "UpdateMount"@,
        RpcCode::GetMountTable => "GetMountTable"@,
        RpcCode::GetMountInfo => "GetMountInfo"@,
        RpcCode::WorkerHeartbeat => "WorkerHeartbeat"@,
        RpcCode::WorkerBlockReport => "WorkerBlockReport"@,
        RpcCode::GetMasterInfo => "GetMasterInfo"@,
        RpcCode::SubmitLoadJob => "SubmitLoadJob"@,
        RpcCode::GetLoadStatus => "GetLoadStatus"@,
        RpcCode::CancelLoadJob => "CancelLoadJob"@,
        RpcCode::ReportLoadTask => "ReportLoadTask"@,
    }
}

/// The metrics label of a wire code value: the operation name for a
/// known code, its decimal digits for an unknown one.
pub open spec fn spec_code_label(v: int) -> Seq<char> {
    match spec_code_of(v) {
        Some(c) => spec_code_name(c),
        None => spec_decimal(v),
    }
}

/// Stringify a wire code value for metrics labels, stable across
/// versions.
pub fn code_label(v: u32) -> (r: String)
    ensures
        r@ == spec_code_label(v as int),
{
    match code_of(v) {
        Some(c) => match c {
            RpcCode::Mkdir => String::from_str("Mkdir"),
            RpcCode::CreateFile => String::from_str("CreateFile"),
            RpcCode::AppendFile => String::from_str("AppendFile"),
            RpcCode::FileStatus => String::from_str("FileStatus"),
            RpcCode::AddBlock => String::from_str("AddBlock"),
            RpcCode::CompleteFile => String::from_str("CompleteFile"),
            RpcCode::Exists => String::from_str("Exists"),
            RpcCode::Delete => String::from_str("Delete"),
            RpcCode::Rename => String::from_str("Rename"),
            RpcCode::ListStatus => String::from_str("ListStatus"),
            RpcCode::GetBlockLocations => String::from_str("GetBlockLocations"),
            RpcCode::SetAttr => String::from_str("SetAttr"),
            RpcCode::Symlink => String::from_str("Symlink"),
            RpcCode::Mount => String::from_str("Mount"),
            RpcCode::UnMount => String::from_str("UnMount"),
            RpcCode::UpdateMount => String::from_str("UpdateMount"),
            RpcCode::GetMountTable => String::from_str("GetMountTable"),
            RpcCode::GetMountInfo => String::from_str("GetMountInfo"),
            RpcCode::WorkerHeartbeat => String::from_str("WorkerHeartbeat"),
            RpcCode::WorkerBlockReport => String::from_str("WorkerBlockReport"),
            RpcCode::GetMasterInfo => String::from_str("GetMasterInfo"),
            RpcCode::SubmitLoadJob => String::from_str("SubmitLoadJob"),
            RpcCode::GetLoadStatus => String::from_str("GetLoadStatus"),
            RpcCode::CancelLoadJob => String::from_str("CancelLoadJob"),
            RpcCode::ReportLoadTask => String::from_str("ReportLoadTask"),
        },
        None => u32_decimal(v),
    }
}

/// The typed request header bound to each operation code. A header whose
/// variant does not match the message's code fails decoding.
#[derive(Clone, Debug)]
pub enum RequestHeader {
    Mkdir { path: String, opts: MkdirOpts },
    CreateFile { path: String, opts: CreateFileOpts },
    AppendFile { path: String, opts: CreateFileOpts },
    FileStatus { path: String },
    AddBlock { path: String, client_hostname: String, previous: Option<CommitBlock> },
    CompleteFile { path: String, len: i64, last: Option<CommitBlock>, client_name: String },
    Exists { path: String },
    Delete { path: String, recursive: bool },
    Rename { src: String, dst: String },
    ListStatus { path: String },
    GetBlockLocations { path: String },
    SetAttr { path: String, opts: SetAttrOpts },
    Symlink { target: String, link: String, force: bool, mode: u32 },
    Mount { curvine_path: String, ufs_path: String, options: Option<MountOptions> },
    UnMount { curvine_path: String },
    UpdateMount,
    GetMountTable,
    GetMountInfo { path: String },
    WorkerHeartbeat {
        cluster_id: String,
        status: u32,
        hostname: String,
        port: u32,
        storages: Vec<StorageInfo>,
    },
    WorkerBlockReport { report: BlockReportList },
    GetMasterInfo,
    SubmitLoadJob { path: String },
    GetLoadStatus { job_id: i64 },
    CancelLoadJob { job_id: i64 },
    ReportLoadTask { job_id: i64, progress: i64 },
}

/// The typed response header bound to each operation code, plus the
/// error shape every code can produce.
#[derive(Clone, Debug)]
pub enum ResponseHeader {
    Mkdir { flag: bool },
    CreateFile { file_status: FileStatus },
    AppendFile { file_status: FileStatus, last_block: Option<LocatedBlock> },
    FileStatus { status: FileStatus },
    AddBlock { block: LocatedBlock },
    CompleteFile,
    Exists { exists: bool },
    Delete,
    Rename { result: bool },
    ListStatus { statuses: Vec<FileStatus> },
    GetBlockLocations { status: FileStatus, blocks: Vec<LocatedBlock> },
    SetAttr,
    Symlink,
    Mount,
    UnMount,
    UpdateMount,
    GetMountTable { mount_points: Vec<MountPoint> },
    GetMountInfo { mount_point: Option<MountPoint> },
    WorkerHeartbeat { cmds: Vec<WorkerCommand> },
    WorkerBlockReport,
    GetMasterInfo { info: MasterInfo },
    SubmitLoadJob { job_id: i64 },
    GetLoadStatus { job_id: i64, state: u32 },
    CancelLoadJob,
    ReportLoadTask,
    Error { error: FsError },
}

/// Abstract response header: as the concrete one, with sequences in
/// place of vectors so the dispatch model can build it.
pub ghost enum RespV {
    Mkdir { flag: bool },
    CreateFile { file_status: FileStatus },
    AppendFile { file_status: FileStatus, last_block: Option<LocatedBlock> },
    FileStatus { status: FileStatus },
    AddBlock { block: LocatedBlock },
    CompleteFile,
    Exists { exists: bool },
    Delete,
    Rename { result: bool },
    ListStatus { statuses: Seq<FileStatus> },
    GetBlockLocations { status: FileStatus, blocks: Seq<LocatedBlock> },
    SetAttr,
    Symlink,
    Mount,
    UnMount,
    UpdateMount,
    GetMountTable { mount_points: Seq<MountPoint> },
    GetMountInfo { mount_point: Option<MountPoint> },
    WorkerHeartbeat { cmds: Seq<WorkerCommand> },
    WorkerBlockReport,
    GetMasterInfo { info: MasterInfo },
    SubmitLoadJob { job_id: i64 },
    GetLoadStatus { job_id: i64, state: u32 },
    CancelLoadJob,
    ReportLoadTask,
    Error { error: FsError },
}

impl View for ResponseHeader {
    type V = RespV;

    open spec fn view(&self) -> RespV {
        match *self {
            ResponseHeader::Mkdir { flag } => RespV::Mkdir { flag },
            ResponseHeader::CreateFile { file_status } => RespV::CreateFile { file_status },
            ResponseHeader::AppendFile { file_status, last_block } => RespV::AppendFile {
                file_status,
                last_block,
            },
            ResponseHeader::FileStatus { status } => RespV::FileStatus { status },
            ResponseHeader::AddBlock { block } => RespV::AddBlock { block },
            ResponseHeader::CompleteFile => RespV::CompleteFile,
            ResponseHeader::Exists { exists } => RespV::Exists { exists },
            ResponseHeader::Delete => RespV::Delete,
            ResponseHeader::Rename { result } => RespV::Rename { result },
            ResponseHeader::ListStatus { statuses } => RespV::ListStatus { statuses: statuses@ },
            ResponseHeader::GetBlockLocations { status, blocks } => RespV::GetBlockLocations {
                status,
                blocks: blocks@,
            },
            ResponseHeader::SetAttr => RespV::SetAttr,
            ResponseHeader::Symlink => RespV::Symlink,
            ResponseHeader::Mount => RespV::Mount,
            ResponseHeader::UnMount => RespV::UnMount,
            ResponseHeader::UpdateMount => RespV::UpdateMount,
            ResponseHeader::GetMountTable { mount_points } => RespV::GetMountTable {
                mount_points: mount_points@,
            },
            ResponseHeader::GetMountInfo { mount_point } => RespV::GetMountInfo { mount_point },
            ResponseHeader::WorkerHeartbeat { cmds } => RespV::WorkerHeartbeat { cmds: cmds@ },
            ResponseHeader::WorkerBlockReport => RespV::WorkerBlockReport,
            ResponseHeader::GetMasterInfo { info } => RespV::GetMasterInfo { info },
            ResponseHeader::SubmitLoadJob { job_id } => RespV::SubmitLoadJob { job_id },
            ResponseHeader::GetLoadStatus { job_id, state } => RespV::GetLoadStatus {
                job_id,
                state,
            },
            ResponseHeader::CancelLoadJob => RespV::CancelLoadJob,
            ResponseHeader::ReportLoadTask => RespV::ReportLoadTask,
            ResponseHeader::Error { error } => RespV::Error { error },
        }
    }
}

/// The request envelope: one operation code, one monotonic request id,
/// one typed header whose shape the code determines.
#[derive(Clone, Debug)]
pub struct Message {
    pub req_id: i64,
    pub code: u32,
    pub header: RequestHeader,
}

/// The reply envelope the dispatcher always hands back, error-bearing
/// or not, carrying the original request id and code.
#[derive(Clone, Debug)]
pub struct Reply {
    pub req_id: i64,
    pub code: u32,
    pub header: ResponseHeader,
}

/// Abstract reply, the shape the dispatch model speaks of.
pub ghost struct ReplyV {
    pub req_id: i64,
    pub code: u32,
    pub header: RespV,
}

impl View for Reply {
    type V = ReplyV;

    open spec fn view(&self) -> ReplyV {
        ReplyV { req_id: self.req_id, code: self.code, header: self.header@ }
    }
}

impl Reply {
    /// Whether this reply carries an error instead of a typed response.
    pub open spec fn spec_is_error(&self) -> bool {
        self.header is Error
    }

    pub fn is_error(&self) -> (r: bool)
        ensures
            r == self.spec_is_error(),
    {
        match self.header {
            ResponseHeader::Error { .. } => true,
            _ => false,
        }
    }
}

/// The error reply for a message: same id and code, the error as
/// payload. Errors never leave the dispatcher any other way.
pub fn error_reply(msg: &Message, error: FsError) -> (r: Reply)
    ensures
        r@ == (ReplyV { req_id: msg.req_id, code: msg.code, header: RespV::Error { error } }),
{
    Reply { req_id: msg.req_id, code: msg.code, header: ResponseHeader::Error { error } }
}

} // verus!
