//! Per-request scratch state: the message under dispatch, the audit
//! subjects the handler attempted, the start of timing, and the
//! guarantee that at most one response is built.

use vstd::prelude::*;
use crate::errors::{FsError, FsResult};
use crate::proto::{Message, Reply, ReplyV, ResponseHeader};

verus! {

/// Per-request context, created at message entry, dropped at exit.
pub struct RpcContext<'a> {
    /// The message under dispatch.
    pub msg: &'a Message,
    /// Its operation code, decoded once.
    pub code: u32,
    /// Primary audit subject, set by the handler before fallible work.
    pub audit_primary: Option<String>,
    /// Secondary audit subject, for operations with two subjects.
    pub audit_secondary: Option<String>,
    /// Clock reading at construction.
    pub start_us: u64,
    /// Whether the response builder has run; it may run at most once.
    pub responded: bool,
}

impl<'a> RpcContext<'a> {
    /// Open a context around one message.
    pub fn new(msg: &'a Message, start_us: u64) -> (r: RpcContext<'a>)
        ensures
            r.msg == msg,
            r.code == msg.code,
            r.audit_primary is None,
            r.audit_secondary is None,
            r.start_us == start_us,
            !r.responded,
    {
        RpcContext {
            msg,
            code: msg.code,
            audit_primary: None,
            audit_secondary: None,
            start_us,
            responded: false,
        }
    }

    /// Attach the subject paths later audited, overwriting prior ones.
    /// Callable before the operation succeeds or fails, so the audit
    /// log records attempted subjects.
    pub fn set_audit(&mut self, primary: Option<String>, secondary: Option<String>)
        ensures
            final(self).audit_primary == primary,
            final(self).audit_secondary == secondary,
            final(self).msg == old(self).msg,
            final(self).code == old(self).code,
            final(self).start_us == old(self).start_us,
            final(self).responded == old(self).responded,
    {
        self.audit_primary = primary;
        self.audit_secondary = secondary;
    }

    /// Build the reply carrying a typed response header. Infallible,
    /// and callable at most once per context.
    pub fn response(&mut self, header: ResponseHeader) -> (r: FsResult<Reply>)
        requires
            !old(self).responded,
        ensures
            final(self).responded,
            final(self).msg == old(self).msg,
            final(self).code == old(self).code,
            final(self).audit_primary == old(self).audit_primary,
            final(self).audit_secondary == old(self).audit_secondary,
            final(self).start_us == old(self).start_us,
            r == Ok::<Reply, FsError>(Reply {
                req_id: old(self).msg.req_id,
                code: old(self).msg.code,
                header,
            }),
    {
        self.responded = true;
        Ok(Reply { req_id: self.msg.req_id, code: self.msg.code, header })
    }

    /// Microseconds between construction and the given clock reading.
    pub fn elapsed_us(&self, now_us: u64) -> (r: u64)
        ensures
            r == now_us.saturating_sub(self.start_us),
    {
        now_us.saturating_sub(self.start_us)
    }
}

} // verus!
