//! First-match search over sequences, shared by every table of the
//! core: files, blocks, cache entries, metric rows, mounts, workers.

use vstd::prelude::*;

verus! {

/// Index of the first element satisfying `p`, or -1 when none does.
pub open spec fn first_match<T>(s: Seq<T>, p: spec_fn(T) -> bool) -> int
    decreases s.len(),
{
    if s.len() == 0 {
        -1
    } else if p(s[0]) {
        0
    } else {
        let r = first_match(s.drop_first(), p);
        if r < 0 {
            -1
        } else {
            r + 1
        }
    }
}

/// A first match at `i` is exactly a match at `i` with none before it.
pub proof fn lemma_first_match_found<T>(s: Seq<T>, p: spec_fn(T) -> bool, i: int)
    requires
        0 <= i < s.len(),
        forall|j: int| 0 <= j < i ==> !p(s[j]),
        p(s[i]),
    ensures
        first_match(s, p) == i,
    decreases i,
{
    if i == 0 {
    } else {
        assert(!p(s[0]));
        assert forall|j: int| 0 <= j < i - 1 implies !p(s.drop_first()[j]) by {
            assert(s.drop_first()[j] == s[j + 1]);
        }
        assert(s.drop_first()[i - 1] == s[i]);
        lemma_first_match_found(s.drop_first(), p, i - 1);
    }
}

/// When no element matches, the search reports -1.
pub proof fn lemma_first_match_none<T>(s: Seq<T>, p: spec_fn(T) -> bool)
    requires
        forall|j: int| 0 <= j < s.len() ==> !p(s[j]),
    ensures
        first_match(s, p) == -1,
    decreases s.len(),
{
    if s.len() == 0 {
    } else {
        assert forall|j: int| 0 <= j < s.drop_first().len() implies !p(s.drop_first()[j]) by {
            assert(s.drop_first()[j] == s[j + 1]);
        }
        lemma_first_match_none(s.drop_first(), p);
    }
}

/// What a non-negative search result means.
pub proof fn lemma_first_match_props<T>(s: Seq<T>, p: spec_fn(T) -> bool)
    ensures
        first_match(s, p) == -1 || (0 <= first_match(s, p) < s.len()),
        first_match(s, p) >= 0 ==> p(s[first_match(s, p)]),
        first_match(s, p) >= 0 ==> forall|j: int| 0 <= j < first_match(s, p) ==> !p(s[j]),
        first_match(s, p) == -1 ==> forall|j: int| 0 <= j < s.len() ==> !p(s[j]),
    decreases s.len(),
{
    if s.len() == 0 {
    } else if p(s[0]) {
    } else {
        lemma_first_match_props(s.drop_first(), p);
        let r = first_match(s.drop_first(), p);
        if r == -1 {
            assert forall|j: int| 0 <= j < s.len() implies !p(s[j]) by {
                if j > 0 {
                    assert(s[j] == s.drop_first()[j - 1]);
                }
            }
        } else {
            assert(first_match(s, p) == r + 1);
            assert(s.drop_first()[r] == s[r + 1]);
            assert forall|j: int| 0 <= j < r + 1 implies !p(s[j]) by {
                if j > 0 {
                    assert(s[j] == s.drop_first()[j - 1]);
                }
            }
        }
    }
}

/// The subsequence of elements satisfying `keep`, in order.
pub open spec fn keep_matching<T>(s: Seq<T>, keep: spec_fn(T) -> bool) -> Seq<T>
    decreases s.len(),
{
    if s.len() == 0 {
        Seq::empty()
    } else {
        let pre = keep_matching(s.drop_last(), keep);
        if keep(s.last()) {
            pre.push(s.last())
        } else {
            pre
        }
    }
}

/// How one more element extends the kept subsequence.
pub proof fn lemma_keep_take_step<T>(s: Seq<T>, keep: spec_fn(T) -> bool, i: int)
    requires
        0 <= i < s.len(),
    ensures
        keep_matching(s.take(i + 1), keep) == if keep(s[i]) {
            keep_matching(s.take(i), keep).push(s[i])
        } else {
            keep_matching(s.take(i), keep)
        },
{
    assert(s.take(i + 1).drop_last() =~= s.take(i));
    assert(s.take(i + 1).last() == s[i]);
}

/// Every kept element comes from the source sequence.
pub proof fn lemma_keep_contains<T>(s: Seq<T>, keep: spec_fn(T) -> bool)
    ensures
        forall|k: int| 0 <= k < keep_matching(s, keep).len() ==> s.contains(
            #[trigger] keep_matching(s, keep)[k],
        ),
    decreases s.len(),
{
    if s.len() > 0 {
        lemma_keep_contains(s.drop_last(), keep);
        let r = keep_matching(s, keep);
        let pre = keep_matching(s.drop_last(), keep);
        assert forall|k: int| 0 <= k < r.len() implies s.contains(r[k]) by {
            if k < pre.len() {
                assert(s.drop_last().contains(pre[k]));
                let m = choose|m: int|
                    0 <= m < s.drop_last().len() && s.drop_last()[m] == pre[k];
                assert(s[m] == r[k]);
            } else {
                assert(s[s.len() - 1] == r[k]);
            }
        }
    }
}

} // verus!
