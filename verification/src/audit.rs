//! Structured audit records, one per counted dispatch, appended in
//! first-in first-out order when audit logging is enabled.

use vstd::prelude::*;

verus! {

/// One audit record: the attempted subjects, the outcome, the cost.
#[derive(Clone, Debug)]
pub struct AuditRecord {
    /// Wall-clock reading when the record was emitted.
    pub timestamp_us: u64,
    /// The operation code of the dispatch.
    pub code: u32,
    /// Primary subject path, as the client supplied it.
    pub primary: Option<String>,
    /// Secondary subject path, for operations with two subjects.
    pub secondary: Option<String>,
    /// Remote client hostname, absent when the connection is unknown.
    pub client: Option<String>,
    /// Whether the handler succeeded.
    pub success: bool,
    /// Microseconds between message entry and message exit.
    pub elapsed_us: u64,
}

/// The audit sink: records in emission order.
#[derive(Clone, Debug)]
pub struct AuditLog {
    pub records: Vec<AuditRecord>,
}

impl AuditLog {
    /// An empty sink.
    pub fn new() -> (r: AuditLog)
        ensures
            r.records@.len() == 0,
    {
        AuditLog { records: Vec::new() }
    }

    /// Append one record.
    pub fn append(&mut self, record: AuditRecord)
        ensures
            final(self).records@ == old(self).records@.push(record),
    {
        self.records.push(record);
    }
}

} // verus!
