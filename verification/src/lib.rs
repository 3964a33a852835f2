//! RPC dispatch and idempotency core of the metadata master of a
//! distributed caching file system.
//!
//! A decoded message arrives at the dispatcher, which consults the leader
//! gate and the operation-code table, routes load-job codes to a
//! sub-service, invokes the selected handler against the namespace, mount
//! and worker facades, records the outcome in a bounded retry cache, and
//! always returns a typed reply, error-bearing or not, together with one
//! audit record and one metrics update per counted dispatch.

use vstd::prelude::*;

pub mod audit;
pub mod clock;
pub mod context;
pub mod errors;
pub mod filesystem;
pub mod handler;
pub mod laws;
pub mod load;
pub mod metrics;
pub mod mount;
pub mod paths;
pub mod nums;
pub mod proto;
pub mod retry_cache;
pub mod seqs;
pub mod state;

verus! {

} // verus!
