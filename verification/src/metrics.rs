//! Per-code request metrics: a pair of cumulative counters, elapsed
//! microseconds and request count, labeled by the operation code.

use vstd::prelude::*;
use crate::seqs::{first_match, lemma_first_match_found, lemma_first_match_none};

verus! {

/// The two counters of one operation code.
#[derive(Clone, Copy, Debug, PartialEq, Eq, Structural)]
pub struct MetricEntry {
    pub code: u32,
    pub count: u64,
    pub time_us: u64,
}

/// The metrics registry: one row per code seen so far.
#[derive(Clone, Debug)]
pub struct MasterMetrics {
    pub entries: Vec<MetricEntry>,
}

/// Predicate picking the row of one code.
pub open spec fn has_code(code: u32) -> spec_fn(MetricEntry) -> bool {
    |e: MetricEntry| e.code == code
}

/// Sum of the request counts of all rows.
pub open spec fn total_count(s: Seq<MetricEntry>) -> int
    decreases s.len(),
{
    if s.len() == 0 {
        0
    } else {
        total_count(s.drop_last()) + s.last().count
    }
}

/// Position of a code's row, -1 when the code was never counted.
pub open spec fn rows_idx(s: Seq<MetricEntry>, code: u32) -> int {
    first_match(s, has_code(code))
}

/// The request count recorded for a code.
pub open spec fn rows_count(s: Seq<MetricEntry>, code: u32) -> u64 {
    if rows_idx(s, code) >= 0 {
        s[rows_idx(s, code)].count
    } else {
        0
    }
}

/// The cumulative elapsed time recorded for a code.
pub open spec fn rows_time(s: Seq<MetricEntry>, code: u32) -> u64 {
    if rows_idx(s, code) >= 0 {
        s[rows_idx(s, code)].time_us
    } else {
        0
    }
}

/// The rows after counting one dispatch of `code` that took
/// `elapsed_us`: its row is bumped, or born with count one.
pub open spec fn rows_record(s: Seq<MetricEntry>, code: u32, elapsed_us: u64) -> Seq<MetricEntry> {
    let i = rows_idx(s, code);
    if i >= 0 {
        s.update(
            i,
            MetricEntry {
                code,
                count: s[i].count.saturating_add(1),
                time_us: s[i].time_us.saturating_add(elapsed_us),
            },
        )
    } else {
        s.push(MetricEntry { code, count: 1, time_us: elapsed_us })
    }
}

impl MasterMetrics {
    /// Well-formedness: one row per code.
    pub open spec fn wf(&self) -> bool {
        forall|i: int, j: int|
            0 <= i < j < self.entries@.len() ==> self.entries@[i].code != self.entries@[j].code
    }

    /// Position of a code's row, -1 when the code was never counted.
    pub open spec fn spec_idx(&self, code: u32) -> int {
        rows_idx(self.entries@, code)
    }

    /// The request count recorded for a code.
    pub open spec fn spec_count(&self, code: u32) -> u64 {
        rows_count(self.entries@, code)
    }

    /// The cumulative elapsed time recorded for a code.
    pub open spec fn spec_time(&self, code: u32) -> u64 {
        rows_time(self.entries@, code)
    }

    /// The rows after counting one dispatch of `code` that took
    /// `elapsed_us`: its row is bumped, or born with count one.
    pub open spec fn spec_record(&self, code: u32, elapsed_us: u64) -> Seq<MetricEntry> {
        rows_record(self.entries@, code, elapsed_us)
    }

    /// An empty registry.
    pub fn new() -> (r: MasterMetrics)
        ensures
            r.wf(),
            r.entries@.len() == 0,
    {
        MasterMetrics { entries: Vec::new() }
    }

    /// Position of a code's row in the backing vector.
    fn find(&self, code: u32) -> (r: Option<usize>)
        ensures
            match r {
                Some(i) => self.spec_idx(code) == i && i < self.entries@.len(),
                None => self.spec_idx(code) == -1,
            },
    {
        let ghost p = has_code(code);
        let n = self.entries.len();
        let mut i: usize = 0;
        while i < n
            invariant
                n == self.entries@.len(),
                i <= n,
                forall|j: int| 0 <= j < i ==> !p(self.entries@[j]),
                p == has_code(code),
            decreases n - i,
        {
            if self.entries[i].code == code {
                proof {
                    lemma_first_match_found(self.entries@, p, i as int);
                }
                return Some(i);
            }
            i += 1;
        }
        proof {
            lemma_first_match_none(self.entries@, p);
        }
        None
    }

    /// Read the request count of a code; zero when never counted.
    pub fn count_of(&self, code: u32) -> (r: u64)
        ensures
            r == self.spec_count(code),
    {
        match self.find(code) {
            Some(i) => self.entries[i].count,
            None => 0,
        }
    }

    /// Read the cumulative elapsed time of a code.
    pub fn time_of(&self, code: u32) -> (r: u64)
        ensures
            r == self.spec_time(code),
    {
        match self.find(code) {
            Some(i) => self.entries[i].time_us,
            None => 0,
        }
    }

    /// Count one dispatch: bump the code's time counter by the elapsed
    /// microseconds and its request counter by one.
    pub fn record(&mut self, code: u32, elapsed_us: u64)
        requires
            old(self).wf(),
        ensures
            final(self).wf(),
            final(self).entries@ == old(self).spec_record(code, elapsed_us),
    {
        let ghost pre = *self;
        match self.find(code) {
            Some(i) => {
                let e = self.entries[i];
                self.entries.set(
                    i,
                    MetricEntry {
                        code,
                        count: e.count.saturating_add(1),
                        time_us: e.time_us.saturating_add(elapsed_us),
                    },
                );
                proof {
                    crate::seqs::lemma_first_match_props(pre.entries@, has_code(code));
                    assert(pre.entries@[i as int].code == code);
                    assert(forall|k: int|
                        0 <= k < self.entries@.len() ==> self.entries@[k].code
                            == pre.entries@[k].code);
                }
            },
            None => {
                self.entries.push(MetricEntry { code, count: 1, time_us: elapsed_us });
                proof {
                    crate::seqs::lemma_first_match_props(pre.entries@, has_code(code));
                    assert(forall|k: int|
                        0 <= k < self.entries@.len() - 1 ==> self.entries@[k]
                            == pre.entries@[k]);
                }
            },
        }
    }

    /// Sum of all request counts, the total number of counted
    /// dispatches, as long as no counter has saturated.
    pub fn total(&self) -> (r: u64)
        requires
            total_count(self.entries@) <= u64::MAX,
    ensures
            r == total_count(self.entries@),
    {
        let n = self.entries.len();
        let mut i: usize = 0;
        let mut acc: u64 = 0;
        while i < n
            invariant
                n == self.entries@.len(),
                i <= n,
                acc == total_count(self.entries@.take(i as int)),
                total_count(self.entries@) <= u64::MAX,
            decreases n - i,
        {
            proof {
                lemma_total_take_step(self.entries@, i as int);
                lemma_total_take_bound(self.entries@, i as int + 1);
            }
            acc = acc + self.entries[i].count;
            i += 1;
        }
        proof {
            assert(self.entries@.take(n as int) =~= self.entries@);
        }
        acc
    }
}

/// One more row extends the sum by that row's count.
pub proof fn lemma_total_take_step(s: Seq<MetricEntry>, i: int)
    requires
        0 <= i < s.len(),
    ensures
        total_count(s.take(i + 1)) == total_count(s.take(i)) + s[i].count,
{
    assert(s.take(i + 1).drop_last() =~= s.take(i));
    assert(s.take(i + 1).last() == s[i]);
}

/// Counts are non-negative, so partial sums never pass the total.
pub proof fn lemma_total_take_bound(s: Seq<MetricEntry>, i: int)
    requires
        0 <= i <= s.len(),
    ensures
        0 <= total_count(s.take(i)) <= total_count(s),
    decreases s.len() - i,
{
    lemma_total_nonneg(s.take(i));
    if i == s.len() {
        assert(s.take(i) =~= s);
    } else {
        lemma_total_take_step(s, i);
        lemma_total_take_bound(s, i + 1);
    }
}

/// A sum of counts is never negative.
pub proof fn lemma_total_nonneg(s: Seq<MetricEntry>)
    ensures
        total_count(s) >= 0,
    decreases s.len(),
{
    if s.len() > 0 {
        lemma_total_nonneg(s.drop_last());
    }
}

/// The sum is at least any single row's count.
pub proof fn lemma_total_ge_elem(s: Seq<MetricEntry>, i: int)
    requires
        0 <= i < s.len(),
    ensures
        total_count(s) >= s[i].count,
    decreases s.len(),
{
    if i == s.len() - 1 {
        lemma_total_nonneg(s.drop_last());
    } else {
        lemma_total_ge_elem(s.drop_last(), i);
    }
}

/// A row's count never exceeds the sum of all counts.
pub proof fn lemma_rows_count_le_total(s: Seq<MetricEntry>, code: u32)
    ensures
        0 <= rows_count(s, code) <= total_count(s),
{
    let i = rows_idx(s, code);
    crate::seqs::lemma_first_match_props(s, has_code(code));
    if i >= 0 {
        lemma_total_ge_elem(s, i);
    } else {
        lemma_total_nonneg(s);
    }
}

/// Counting one dispatch raises the sum of counts by exactly one, as
/// long as the bumped counter has room.
pub proof fn lemma_rows_record_total(s: Seq<MetricEntry>, code: u32, t: u64)
    requires
        rows_count(s, code) < u64::MAX,
    ensures
        total_count(rows_record(s, code, t)) == total_count(s) + 1,
{
    let i = rows_idx(s, code);
    crate::seqs::lemma_first_match_props(s, has_code(code));
    if i >= 0 {
        let e = MetricEntry {
            code,
            count: s[i].count.saturating_add(1),
            time_us: s[i].time_us.saturating_add(t),
        };
        lemma_total_update(s, i, e);
    } else {
        let e = MetricEntry { code, count: 1, time_us: t };
        assert(s.push(e).drop_last() =~= s);
    }
}

/// Counting one dispatch raises its own code's count by exactly one.
pub proof fn lemma_rows_record_count(s: Seq<MetricEntry>, code: u32, t: u64)
    requires
        rows_count(s, code) < u64::MAX,
    ensures
        rows_count(rows_record(s, code, t), code) == rows_count(s, code) + 1,
{
    let i = rows_idx(s, code);
    crate::seqs::lemma_first_match_props(s, has_code(code));
    let s2 = rows_record(s, code, t);
    if i >= 0 {
        assert(forall|j: int| 0 <= j < i ==> s2[j] == s[j]);
        lemma_first_match_found(s2, has_code(code), i);
    } else {
        assert(forall|j: int| 0 <= j < s2.len() - 1 ==> s2[j] == s[j]);
        lemma_first_match_found(s2, has_code(code), s2.len() - 1);
    }
}

/// Updating one row moves the sum by the difference of its counts.
pub proof fn lemma_total_update(s: Seq<MetricEntry>, i: int, e: MetricEntry)
    requires
        0 <= i < s.len(),
    ensures
        total_count(s.update(i, e)) == total_count(s) - s[i].count + e.count,
    decreases s.len(),
{
    let t = s.update(i, e);
    if i == s.len() - 1 {
        assert(t.drop_last() =~= s.drop_last());
        assert(t.last() == e);
    } else {
        assert(t.drop_last() =~= s.drop_last().update(i, e));
        assert(t.last() == s.last());
        lemma_total_update(s.drop_last(), i, e);
    }
}

} // verus!
