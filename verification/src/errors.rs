//! Error taxonomy of the dispatch core.
//!
//! Errors never leave the dispatcher: every kind below is eventually
//! shaped into an error-bearing reply message.

use vstd::prelude::*;
use vstd::string::*;

verus! {

/// Errors produced while the namespace, mount or worker facade carries
/// out an operation. The dispatcher keeps them opaque and forwards them.
#[derive(Clone, Debug)]
pub enum FacadeErrorKind {
    /// The subject path does not exist.
    NotFound,
    /// The subject path already exists and may not be replaced.
    AlreadyExists,
    /// A directory could not be removed because it still has children.
    NotEmpty,
    /// The path failed validation.
    InvalidPath,
    /// The operation needs a regular file but the path names a directory.
    NotFile,
}

/// Every error the dispatch core can put into a reply.
#[derive(Clone, Debug)]
pub enum FsError {
    /// This instance is not the active master. Emitted before any handler
    /// work; neither audited nor counted.
    NotLeader { code: u32, client: Option<String> },
    /// The typed header carried by the message does not decode against
    /// the schema that the operation code demands.
    Malformed { code: u32 },
    /// The operation code is outside the closed code table.
    Unsupported { code: u32 },
    /// The load sub-service was absent at process init.
    ServiceUnavailable,
    /// A repeated append request was refused: its last-block handle
    /// cannot be safely reconstructed.
    RetryConflict { path: String },
    /// An error bubbling from a facade, forwarded with its subject path.
    Facade { kind: FacadeErrorKind, path: String },
}

/// Outcome type shared by the facades and the handlers.
pub type FsResult<T> = Result<T, FsError>;

/// The human-readable text of the append-retry refusal.
pub open spec fn retry_conflict_text(path: Seq<char>) -> Seq<char> {
    "append "@ + path + " repeat request"@
}

/// The human-readable text of a forwarded facade error.
pub open spec fn facade_text(kind: FacadeErrorKind, path: Seq<char>) -> Seq<char> {
    match kind {
        FacadeErrorKind::NotFound => "not found: "@ + path,
        FacadeErrorKind::AlreadyExists => "already exists: "@ + path,
        FacadeErrorKind::NotEmpty => "directory not empty: "@ + path,
        FacadeErrorKind::InvalidPath => "invalid path: "@ + path,
        FacadeErrorKind::NotFile => "not a file: "@ + path,
    }
}

impl FsError {
    /// Free-form message string carried by an error reply.
    pub fn message(&self) -> (r: String)
        ensures
            self is NotLeader ==> r@ == "not the active master"@,
            self is Malformed ==> r@ == "malformed request header"@,
            self is Unsupported ==> r@ == "Unsupported operation"@,
            self is ServiceUnavailable ==> r@ == "Load service not initialized"@,
            self matches FsError::RetryConflict { path } ==> r@ == retry_conflict_text(path@),
            self matches FsError::Facade { kind, path } ==> r@ == facade_text(*kind, path@),
    {
        match self {
            FsError::NotLeader { .. } => String::from_str("not the active master"),
            FsError::Malformed { .. } => String::from_str("malformed request header"),
            FsError::Unsupported { .. } => String::from_str("Unsupported operation"),
            FsError::ServiceUnavailable => String::from_str("Load service not initialized"),
            FsError::RetryConflict { path } => {
                let s = String::from_str("append ");
                let s = s.concat(path.as_str());
                let s = s.concat(" repeat request");
                s
            },
            FsError::Facade { kind, path } => {
                let s = match kind {
                    FacadeErrorKind::NotFound => String::from_str("not found: "),
                    FacadeErrorKind::AlreadyExists => String::from_str("already exists: "),
                    FacadeErrorKind::NotEmpty => String::from_str("directory not empty: "),
                    FacadeErrorKind::InvalidPath => String::from_str("invalid path: "),
                    FacadeErrorKind::NotFile => String::from_str("not a file: "),
                };
                s.concat(path.as_str())
            },
        }
    }
}

} // verus!
