//! The dispatcher's invariants, proved of the dispatch model that
//! `MasterHandler::handle` is verified against: the leader gate, the
//! at-most-once effect of retried mutations, status replay on create,
//! the append-retry refusal, metrics totality, audit parity, and the
//! refusal of unknown codes.

use vstd::prelude::*;
use crate::errors::FsError;
use crate::handler::{spec_error_reply, spec_handle, spec_routes_to_load, HandlerV};
use crate::metrics::{lemma_rows_count_le_total, lemma_rows_record_count, lemma_rows_record_total,
    total_count};
use crate::proto::{spec_code_of, Message, RequestHeader, RespV, RpcCode};
use crate::retry_cache::{cache_after_observe, cache_after_record, cache_observed, has_id,
    CacheEntry, OperationStatus};
use crate::seqs::{lemma_first_match_found, lemma_first_match_props};
use crate::filesystem::find_file;

verus! {

/// A fresh in-progress observation is an observation.
pub proof fn lemma_observe_observed(s: Seq<CacheEntry>, cap: int, id: i64)
    ensures
        cache_observed(cache_after_observe(s, cap, id), id),
{
    let s2 = cache_after_observe(s, cap, id);
    if !cache_observed(s, id) {
        lemma_first_match_props(s2, has_id(id));
        assert(s2[s2.len() - 1].id == id);
    }
}

/// Recording a terminal status keeps the id observed.
pub proof fn lemma_record_keeps_observed(s: Seq<CacheEntry>, id: i64, ok: bool)
    requires
        cache_observed(s, id),
    ensures
        cache_observed(cache_after_record(s, id, ok), id),
{
    lemma_first_match_props(s, has_id(id));
    let i = crate::retry_cache::cache_idx(s, id);
    let s2 = cache_after_record(s, id, ok);
    if s2 != s {
        assert(forall|j: int| 0 <= j < i ==> s2[j] == s[j]);
        assert(s2[i].id == id);
        lemma_first_match_found(s2, has_id(id), i);
    }
}

/// Leader gate: when the oracle reports inactive, the reply is the
/// not-leader error carrying the code and the client, the handler does
/// not run, the retry cache is untouched, and neither an audit record
/// nor a metrics update is emitted.
pub proof fn lemma_leader_gate(h: HandlerV, msg: Message, t: u64, ts: u64)
    requires
        !h.fs.active,
    ensures
        spec_handle(h, msg, t, ts).0 == h,
        spec_handle(h, msg, t, ts).1 == spec_error_reply(
            msg,
            FsError::NotLeader { code: msg.code, client: h.client },
        ),
{
}

/// The operation codes under the success-assert retry policy.
pub open spec fn success_assert_code(c: RpcCode) -> bool {
    c == RpcCode::Delete || c == RpcCode::Rename || c == RpcCode::SetAttr || c == RpcCode::Symlink
}

/// A success-assert dispatch whose id is already observed leaves the
/// facade untouched: the underlying mutating call is not invoked, and
/// its invocation counters stand still.
pub proof fn lemma_observed_short_circuit(h: HandlerV, msg: Message, t: u64, ts: u64)
    requires
        h.fs.active,
        h.cache is Some,
        cache_observed(h.cache->Some_0.entries, msg.req_id),
        spec_code_of(msg.code as int) is Some,
        success_assert_code(spec_code_of(msg.code as int)->Some_0),
    ensures
        spec_handle(h, msg, t, ts).0.fs == h.fs,
        spec_handle(h, msg, t, ts).0.cache == h.cache,
{
}

/// A success-assert dispatch that parsed leaves its id observed, so a
/// later retry will short-circuit.
pub proof fn lemma_mutating_leaves_observed(h: HandlerV, msg: Message, t: u64, ts: u64)
    requires
        h.fs.active,
        h.cache is Some,
        spec_code_of(msg.code as int) is Some,
        success_assert_code(spec_code_of(msg.code as int)->Some_0),
        match spec_code_of(msg.code as int)->Some_0 {
            RpcCode::Delete => msg.header is Delete,
            RpcCode::Rename => msg.header is Rename,
            RpcCode::SetAttr => msg.header is SetAttr,
            RpcCode::Symlink => msg.header is Symlink,
            _ => true,
        },
    ensures
        spec_handle(h, msg, t, ts).0.cache is Some,
        cache_observed(spec_handle(h, msg, t, ts).0.cache->Some_0.entries, msg.req_id),
{
    let cv = h.cache->Some_0;
    lemma_observe_observed(cv.entries, cv.capacity, msg.req_id);
    let after = cache_after_observe(cv.entries, cv.capacity, msg.req_id);
    lemma_record_keeps_observed(after, msg.req_id, true);
    lemma_record_keeps_observed(after, msg.req_id, false);
}

/// At-most-one effect: for a success-assert operation and two messages
/// sharing one request id, the facade's mutating call runs at most
/// once — the second dispatch leaves the facade exactly as the first
/// left it.
pub proof fn lemma_at_most_once_effect(
    h: HandlerV,
    msg1: Message,
    msg2: Message,
    t1: u64,
    ts1: u64,
    t2: u64,
    ts2: u64,
)
    requires
        h.fs.active,
        h.cache is Some,
        msg1.req_id == msg2.req_id,
        spec_code_of(msg1.code as int) is Some,
        success_assert_code(spec_code_of(msg1.code as int)->Some_0),
        spec_code_of(msg2.code as int) is Some,
        success_assert_code(spec_code_of(msg2.code as int)->Some_0),
        match spec_code_of(msg1.code as int)->Some_0 {
            RpcCode::Delete => msg1.header is Delete,
            RpcCode::Rename => msg1.header is Rename,
            RpcCode::SetAttr => msg1.header is SetAttr,
            RpcCode::Symlink => msg1.header is Symlink,
            _ => true,
        },
    ensures
        spec_handle(spec_handle(h, msg1, t1, ts1).0, msg2, t2, ts2).0.fs == spec_handle(
            h,
            msg1,
            t1,
            ts1,
        ).0.fs,
{
    let mid = spec_handle(h, msg1, t1, ts1).0;
    lemma_mutating_leaves_observed(h, msg1, t1, ts1);
    assert(mid.fs.active == h.fs.active);
    lemma_observed_short_circuit(mid, msg2, t2, ts2);
}

/// Status replay: a retried create answers with the current status of
/// the path, read at reply time, and does not run the create itself.
pub proof fn lemma_create_status_replay(h: HandlerV, msg: Message, t: u64, ts: u64)
    requires
        h.fs.active,
        h.cache is Some,
        cache_observed(h.cache->Some_0.entries, msg.req_id),
        spec_code_of(msg.code as int) == Some(RpcCode::CreateFile),
        msg.header is CreateFile,
        find_file(h.fs.files, (msg.header->CreateFile_path)@) >= 0,
    ensures
        spec_handle(h, msg, t, ts).1.header == (RespV::CreateFile {
            file_status: h.fs.files[find_file(h.fs.files, (msg.header->CreateFile_path)@)],
        }),
        spec_handle(h, msg, t, ts).0.fs == h.fs,
{
}

/// Append reject: a retried append is refused with the retry-conflict
/// error, and the facade is not invoked.
pub proof fn lemma_append_retry_rejected(h: HandlerV, msg: Message, t: u64, ts: u64)
    requires
        h.fs.active,
        h.cache is Some,
        cache_observed(h.cache->Some_0.entries, msg.req_id),
        spec_code_of(msg.code as int) == Some(RpcCode::AppendFile),
        msg.header is AppendFile,
    ensures
        spec_handle(h, msg, t, ts).1.header == (RespV::Error {
            error: FsError::RetryConflict { path: msg.header->AppendFile_path },
        }),
        spec_handle(h, msg, t, ts).0.fs == h.fs,
{
}

/// Metrics totality, one step: a counted dispatch raises the sum of
/// all per-code counts by exactly one, while the leader gate and load
/// routing leave it alone.
pub proof fn lemma_metrics_totality_step(h: HandlerV, msg: Message, t: u64, ts: u64)
    requires
        total_count(h.metrics) < u64::MAX,
    ensures
        total_count(spec_handle(h, msg, t, ts).0.metrics) == total_count(h.metrics) + (
        if h.fs.active && !spec_routes_to_load(msg) {
            1int
        } else {
            0int
        }),
{
    if h.fs.active && !spec_routes_to_load(msg) {
        lemma_rows_count_le_total(h.metrics, msg.code);
        lemma_rows_record_total(h.metrics, msg.code, t);
    }
}

/// Audit parity, one step: with audit enabled, the audit log and the
/// metrics total grow in lockstep, so the number of audit records
/// always equals the number of counted dispatches.
pub proof fn lemma_audit_parity_step(h: HandlerV, msg: Message, t: u64, ts: u64)
    requires
        h.audit_enabled,
        h.audit.len() == total_count(h.metrics),
        total_count(h.metrics) < u64::MAX,
    ensures
        spec_handle(h, msg, t, ts).0.audit.len() == total_count(
            spec_handle(h, msg, t, ts).0.metrics,
        ),
{
    lemma_metrics_totality_step(h, msg, t, ts);
}

/// Unknown code: a message whose code lies outside the table is
/// answered with the unsupported error, and metrics and audit are
/// still emitted, under the code's own label.
pub proof fn lemma_unknown_code(h: HandlerV, msg: Message, t: u64, ts: u64)
    requires
        h.fs.active,
        spec_code_of(msg.code as int) is None,
        crate::metrics::rows_count(h.metrics, msg.code) < u64::MAX,
    ensures
        spec_handle(h, msg, t, ts).1.header == (RespV::Error {
            error: FsError::Unsupported { code: msg.code },
        }),
        crate::metrics::rows_count(spec_handle(h, msg, t, ts).0.metrics, msg.code)
            == crate::metrics::rows_count(h.metrics, msg.code) + 1,
        h.audit_enabled ==> spec_handle(h, msg, t, ts).0.audit == h.audit.push(
            crate::audit::AuditRecord {
                timestamp_us: ts,
                code: msg.code,
                primary: None,
                secondary: None,
                client: h.client,
                success: false,
                elapsed_us: t,
            },
        ),
{
    assert(!spec_routes_to_load(msg));
    lemma_rows_record_count(h.metrics, msg.code, t);
}

/// Dispatch of a whole run of messages, threading the state.
pub open spec fn spec_handle_all(h: HandlerV, msgs: Seq<Message>, t: u64, ts: u64) -> HandlerV
    decreases msgs.len(),
{
    if msgs.len() == 0 {
        h
    } else {
        spec_handle_all(spec_handle(h, msgs[0], t, ts).0, msgs.drop_first(), t, ts)
    }
}

/// No dispatch moves the leader flag or the audit switch.
pub proof fn lemma_handle_keeps_config(h: HandlerV, msg: Message, t: u64, ts: u64)
    ensures
        spec_handle(h, msg, t, ts).0.fs.active == h.fs.active,
        spec_handle(h, msg, t, ts).0.audit_enabled == h.audit_enabled,
{
}

/// Metrics totality over a run: with the leader active and no load
/// routing, N dispatches raise the sum of per-code counts by N.
pub proof fn lemma_metrics_totality(h: HandlerV, msgs: Seq<Message>, t: u64, ts: u64)
    requires
        h.fs.active,
        forall|k: int| 0 <= k < msgs.len() ==> !spec_routes_to_load(#[trigger] msgs[k]),
        total_count(h.metrics) + msgs.len() <= u64::MAX,
    ensures
        total_count(spec_handle_all(h, msgs, t, ts).metrics) == total_count(h.metrics)
            + msgs.len(),
    decreases msgs.len(),
{
    if msgs.len() > 0 {
        let mid = spec_handle(h, msgs[0], t, ts).0;
        lemma_metrics_totality_step(h, msgs[0], t, ts);
        lemma_handle_keeps_config(h, msgs[0], t, ts);
        assert(forall|k: int|
            0 <= k < msgs.drop_first().len() ==> !spec_routes_to_load(
                #[trigger] msgs.drop_first()[k],
            ));
        lemma_metrics_totality(mid, msgs.drop_first(), t, ts);
    }
}

/// Audit parity over a run: with audit enabled and parity at the
/// start, the audit log stays exactly as long as the counted total.
pub proof fn lemma_audit_parity(h: HandlerV, msgs: Seq<Message>, t: u64, ts: u64)
    requires
        h.audit_enabled,
        h.audit.len() == total_count(h.metrics),
        total_count(h.metrics) + msgs.len() <= u64::MAX,
    ensures
        spec_handle_all(h, msgs, t, ts).audit.len() == total_count(
            spec_handle_all(h, msgs, t, ts).metrics,
        ),
    decreases msgs.len(),
{
    if msgs.len() > 0 {
        let mid = spec_handle(h, msgs[0], t, ts).0;
        lemma_metrics_totality_step(h, msgs[0], t, ts);
        lemma_audit_parity_step(h, msgs[0], t, ts);
        lemma_handle_keeps_config(h, msgs[0], t, ts);
        lemma_audit_parity(mid, msgs.drop_first(), t, ts);
    }
}

} // verus!

