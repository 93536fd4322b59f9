//! Runs: how far a property holds from the front, or from the end, of a sequence.

use vstd::prelude::*;

verus! {

/// Length of the longest prefix of `s` whose elements all satisfy `keep`.
pub open spec fn run_len<T>(s: Seq<T>, keep: spec_fn(T) -> bool) -> nat
    decreases s.len(),
{
    if s.len() > 0 && keep(s[0]) {
        1 + run_len(s.drop_first(), keep)
    } else {
        0
    }
}

/// Length of the longest suffix of `s` whose elements all satisfy `keep`.
pub open spec fn run_len_back<T>(s: Seq<T>, keep: spec_fn(T) -> bool) -> nat
    decreases s.len(),
{
    if s.len() > 0 && keep(s.last()) {
        1 + run_len_back(s.drop_last(), keep)
    } else {
        0
    }
}

/// A prefix run is pinned down by its end: every element before `k` satisfies
/// `keep`, and the one at `k`, if there is one, does not.
pub proof fn lemma_run_len<T>(s: Seq<T>, keep: spec_fn(T) -> bool, k: int)
    requires
        0 <= k <= s.len(),
        forall|i: int| 0 <= i < k ==> keep(#[trigger] s[i]),
        k < s.len() ==> !keep(s[k]),
    ensures
        run_len(s, keep) == k,
    decreases k,
{
    if k > 0 {
        let rest = s.drop_first();
        assert forall|i: int| 0 <= i < k - 1 implies keep(#[trigger] rest[i]) by {
            assert(rest[i] == s[i + 1]);
        }
        lemma_run_len(rest, keep, k - 1);
    }
}

/// A suffix run is pinned down by its start: every element from `k` on
/// satisfies `keep`, and the one before `k`, if there is one, does not.
pub proof fn lemma_run_len_back<T>(s: Seq<T>, keep: spec_fn(T) -> bool, k: int)
    requires
        0 <= k <= s.len(),
        forall|i: int| k <= i < s.len() ==> keep(#[trigger] s[i]),
        k > 0 ==> !keep(s[k - 1]),
    ensures
        run_len_back(s, keep) == s.len() - k,
    decreases s.len() - k,
{
    if k < s.len() {
        let rest = s.drop_last();
        assert forall|i: int| k <= i < rest.len() implies keep(#[trigger] rest[i]) by {
            assert(rest[i] == s[i]);
        }
        lemma_run_len_back(rest, keep, k);
    }
}

/// A prefix run stays inside the sequence, holds only elements that satisfy
/// `keep`, and ends before one that does not.
pub proof fn lemma_run_len_bounds<T>(s: Seq<T>, keep: spec_fn(T) -> bool)
    ensures
        run_len(s, keep) <= s.len(),
        forall|i: int| 0 <= i < run_len(s, keep) ==> keep(#[trigger] s[i]),
        run_len(s, keep) < s.len() ==> !keep(s[run_len(s, keep) as int]),
    decreases s.len(),
{
    if s.len() > 0 && keep(s[0]) {
        let rest = s.drop_first();
        lemma_run_len_bounds(rest, keep);
        assert forall|i: int| 0 <= i < run_len(s, keep) implies keep(#[trigger] s[i]) by {
            if i > 0 {
                assert(s[i] == rest[i - 1]);
            }
        }
        if run_len(s, keep) < s.len() {
            assert(s[run_len(s, keep) as int] == rest[run_len(rest, keep) as int]);
        }
    }
}

/// A suffix run stays inside the sequence, holds only elements that satisfy
/// `keep`, and starts behind one that does not.
pub proof fn lemma_run_len_back_bounds<T>(s: Seq<T>, keep: spec_fn(T) -> bool)
    ensures
        run_len_back(s, keep) <= s.len(),
        forall|i: int| s.len() - run_len_back(s, keep) <= i < s.len() ==> keep(#[trigger] s[i]),
        run_len_back(s, keep) < s.len() ==> !keep(s[s.len() - run_len_back(s, keep) - 1]),
    decreases s.len(),
{
    if s.len() > 0 && keep(s.last()) {
        let rest = s.drop_last();
        lemma_run_len_back_bounds(rest, keep);
        assert forall|i: int| s.len() - run_len_back(s, keep) <= i < s.len() implies keep(
            #[trigger] s[i],
        ) by {
            if i < s.len() - 1 {
                assert(s[i] == rest[i]);
            }
        }
        if run_len_back(s, keep) < s.len() {
            assert(s[s.len() - run_len_back(s, keep) - 1] == rest[rest.len() - run_len_back(
                rest,
                keep,
            ) - 1]);
        }
    }
}

} // verus!
