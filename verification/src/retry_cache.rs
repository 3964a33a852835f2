//! Bounded record of recent request ids and their terminal status, used
//! to give mutating operations at-most-once effect under client retries.
//!
//! An id transitions only absent, to in-progress, to one terminal
//! status; a terminal entry is immutable until eviction; eviction is
//! first-in first-out, and an evicted id looks like a never-seen one.

use vstd::prelude::*;
use crate::seqs::{first_match, lemma_first_match_found, lemma_first_match_none,
    lemma_first_match_props};

verus! {

/// Terminal outcome of the prior attempt recorded for one request id.
#[derive(Clone, Copy, Debug, PartialEq, Eq, Structural)]
pub enum OperationStatus {
    InProgress,
    Succeeded,
    Failed,
}

/// One cached observation: a request id and its status.
#[derive(Clone, Copy, Debug, PartialEq, Eq, Structural)]
pub struct CacheEntry {
    pub id: i64,
    pub status: OperationStatus,
}

/// The retry cache, bounded by entry count, evicted in insertion order.
#[derive(Clone, Debug)]
pub struct FsRetryCache {
    pub entries: Vec<CacheEntry>,
    pub capacity: usize,
}

/// Predicate picking the entry of one request id.
pub open spec fn has_id(id: i64) -> spec_fn(CacheEntry) -> bool {
    |e: CacheEntry| e.id == id
}

/// The cache state the dispatch model speaks of.
#[verifier::ext_equal]
pub ghost struct CacheV {
    pub entries: Seq<CacheEntry>,
    pub capacity: int,
}

impl View for FsRetryCache {
    type V = CacheV;

    open spec fn view(&self) -> CacheV {
        CacheV { entries: self.entries@, capacity: self.capacity as int }
    }
}

/// Position of an id's entry, -1 when never observed or evicted.
pub open spec fn cache_idx(entries: Seq<CacheEntry>, id: i64) -> int {
    first_match(entries, has_id(id))
}

/// Whether the entries hold an observation for this id.
pub open spec fn cache_observed(entries: Seq<CacheEntry>, id: i64) -> bool {
    cache_idx(entries, id) >= 0
}

/// The entries after a lookup that inserts a fresh in-progress
/// observation, evicting the oldest entry when the cache is full.
pub open spec fn cache_after_observe(entries: Seq<CacheEntry>, capacity: int, id: i64) -> Seq<
    CacheEntry,
> {
    if cache_observed(entries, id) {
        entries
    } else if entries.len() >= capacity {
        entries.drop_first().push(CacheEntry { id, status: OperationStatus::InProgress })
    } else {
        entries.push(CacheEntry { id, status: OperationStatus::InProgress })
    }
}

/// The entries after recording a terminal status.
pub open spec fn cache_after_record(entries: Seq<CacheEntry>, id: i64, ok: bool) -> Seq<
    CacheEntry,
> {
    let i = cache_idx(entries, id);
    if i >= 0 && entries[i].status == OperationStatus::InProgress {
        entries.update(
            i,
            CacheEntry {
                id,
                status: if ok {
                    OperationStatus::Succeeded
                } else {
                    OperationStatus::Failed
                },
            },
        )
    } else {
        entries
    }
}

impl FsRetryCache {
    /// Well-formedness: at least one slot, never over capacity, one
    /// entry per id.
    pub open spec fn wf(&self) -> bool {
        &&& self.capacity >= 1
        &&& self.entries@.len() <= self.capacity
        &&& forall|i: int, j: int|
            0 <= i < j < self.entries@.len() ==> self.entries@[i].id != self.entries@[j].id
    }

    /// Position of an id's entry, -1 when the id was never observed or
    /// has been evicted.
    pub open spec fn spec_idx(&self, id: i64) -> int {
        cache_idx(self.entries@, id)
    }

    /// Whether the cache holds an observation for this id.
    pub open spec fn observed(&self, id: i64) -> bool {
        self.spec_idx(id) >= 0
    }

    /// The status recorded for an id, absent when never observed.
    pub open spec fn spec_get(&self, id: i64) -> Option<OperationStatus> {
        if self.spec_idx(id) >= 0 {
            Some(self.entries@[self.spec_idx(id)].status)
        } else {
            None
        }
    }

    /// The entries after a lookup that inserts a fresh in-progress
    /// observation, evicting the oldest entry when the cache is full.
    pub open spec fn spec_after_observe(&self, id: i64) -> Seq<CacheEntry> {
        cache_after_observe(self.entries@, self.capacity as int, id)
    }

    /// The entries after recording a terminal status: an in-progress
    /// entry becomes terminal, a terminal entry is immutable, and
    /// recording for an absent (evicted) id is a no-op.
    pub open spec fn spec_after_record(&self, id: i64, ok: bool) -> Seq<CacheEntry> {
        cache_after_record(self.entries@, id, ok)
    }

    /// An empty cache with the given bound.
    pub fn new(capacity: usize) -> (r: FsRetryCache)
        requires
            capacity >= 1,
        ensures
            r.wf(),
            r.entries@.len() == 0,
            r.capacity == capacity,
    {
        FsRetryCache { entries: Vec::new(), capacity }
    }

    /// Position of an id's entry in the backing vector.
    fn find(&self, id: i64) -> (r: Option<usize>)
        ensures
            match r {
                Some(i) => self.spec_idx(id) == i && i < self.entries@.len(),
                None => self.spec_idx(id) == -1,
            },
    {
        let ghost p = has_id(id);
        let n = self.entries.len();
        let mut i: usize = 0;
        while i < n
            invariant
                n == self.entries@.len(),
                i <= n,
                forall|j: int| 0 <= j < i ==> !p(self.entries@[j]),
                p == has_id(id),
            decreases n - i,
        {
            if self.entries[i].id == id {
                proof {
                    lemma_first_match_found(self.entries@, p, i as int);
                }
                return Some(i);
            }
            i += 1;
        }
        proof {
            lemma_first_match_none(self.entries@, p);
        }
        None
    }

    /// Report the status recorded for an id. Never fails; absence means
    /// no prior observation, never a failure.
    pub fn get(&self, id: i64) -> (r: Option<OperationStatus>)
        ensures
            r == self.spec_get(id),
    {
        match self.find(id) {
            Some(i) => Some(self.entries[i].status),
            None => None,
        }
    }

    /// Report whether an id is a retry of a prior attempt, and record a
    /// fresh in-progress observation when it is not.
    pub fn check_is_retry(&mut self, id: i64) -> (r: bool)
        requires
            old(self).wf(),
        ensures
            final(self).wf(),
            r == old(self).observed(id),
            final(self).entries@ == old(self).spec_after_observe(id),
            final(self).capacity == old(self).capacity,
            final(self).observed(id),
    {
        let ghost pre = *self;
        match self.find(id) {
            Some(_) => true,
            None => {
                proof {
                    lemma_first_match_props(pre.entries@, has_id(id));
                }
                if self.entries.len() >= self.capacity {
                    self.entries.remove(0);
                    proof {
                        assert(self.entries@ =~= pre.entries@.drop_first());
                    }
                }
                self.entries.push(CacheEntry { id, status: OperationStatus::InProgress });
                proof {
                    let post = self.entries@;
                    let old_part = post.drop_last();
                    assert forall|i: int, j: int| 0 <= i < j < post.len() implies post[i].id
                        != post[j].id by {
                        if pre.entries@.len() >= pre.capacity {
                            assert(forall|k: int|
                                0 <= k < post.len() - 1 ==> post[k] == pre.entries@[k + 1]);
                        } else {
                            assert(forall|k: int|
                                0 <= k < post.len() - 1 ==> post[k] == pre.entries@[k]);
                        }
                    }
                    assert forall|j: int| 0 <= j < post.len() - 1 implies !has_id(id)(post[j]) by {
                        if pre.entries@.len() >= pre.capacity {
                            assert(post[j] == pre.entries@[j + 1]);
                        } else {
                            assert(post[j] == pre.entries@[j]);
                        }
                    }
                    lemma_first_match_found(post, has_id(id), post.len() - 1);
                }
                false
            },
        }
    }

    /// Record the terminal outcome of an attempt. A terminal entry is
    /// never rewritten, and recording after eviction is a no-op.
    pub fn set_status(&mut self, id: i64, ok: bool)
        requires
            old(self).wf(),
        ensures
            final(self).wf(),
            final(self).entries@ == old(self).spec_after_record(id, ok),
            final(self).capacity == old(self).capacity,
    {
        match self.find(id) {
            Some(i) => {
                let keep = match self.entries[i].status {
                    OperationStatus::InProgress => false,
                    _ => true,
                };
                if !keep {
                    let status = if ok {
                        OperationStatus::Succeeded
                    } else {
                        OperationStatus::Failed
                    };
                    self.entries.set(i, CacheEntry { id, status });
                    proof {
                        lemma_first_match_props(old(self).entries@, has_id(id));
                        assert(old(self).entries@[i as int].id == id);
                        assert(forall|k: int|
                            0 <= k < self.entries@.len() ==> self.entries@[k].id == old(
                                self,
                            ).entries@[k].id);
                    }
                }
            },
            None => {},
        }
    }
}

} // verus!
