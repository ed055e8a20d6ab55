//! Grouping a line's cells into maximal runs of one colour, so that each run
//! is drawn as one styled span.

use vstd::prelude::*;

verus! {

/// `runs` cuts `0..upto` into consecutive, non-empty `[start, end)` pieces,
/// each of one key, with neighbouring pieces of different keys.
pub open spec fn spec_runs_upto(keys: Seq<u64>, runs: Seq<(usize, usize)>, upto: int) -> bool {
    &&& runs.len() > 0 ==> runs[0].0 == 0 && runs.last().1 == upto
    &&& runs.len() == 0 ==> upto == 0
    &&& forall|k: int| 0 <= k < runs.len() ==> (#[trigger] runs[k]).0 < runs[k].1
    &&& forall|k: int| 0 <= k < runs.len() - 1 ==> (#[trigger] runs[k]).1 == runs[k + 1].0
    &&& forall|k: int, i: int|
        0 <= k < runs.len() && runs[k].0 <= i < runs[k].1 ==> #[trigger] keys[i] == keys[(
        #[trigger] runs[k]).0 as int]
    &&& forall|k: int|
        0 <= k < runs.len() - 1 ==> keys[(#[trigger] runs[k]).0 as int] != keys[runs[k + 1].0 as int]
}

/// `runs` cuts `0..keys.len()` into its maximal runs of one key, in order.
pub open spec fn spec_maximal_runs(keys: Seq<u64>, runs: Seq<(usize, usize)>) -> bool {
    &&& (runs.len() == 0 <==> keys.len() == 0)
    &&& spec_runs_upto(keys, runs, keys.len() as int)
}

/// Appending a run `[start, end)` of one key, whose key differs from the
/// previous run's, extends the cut from `start` to `end`.
proof fn lemma_push_run(keys: Seq<u64>, runs: Seq<(usize, usize)>, start: usize, end: usize)
    requires
        spec_runs_upto(keys, runs, start as int),
        start < end <= keys.len(),
        forall|j: int| start <= j < end ==> #[trigger] keys[j] == keys[start as int],
        runs.len() > 0 ==> keys[runs.last().0 as int] != keys[start as int],
    ensures
        spec_runs_upto(keys, runs.push((start, end)), end as int),
{
    let out = runs.push((start, end));
    assert(forall|k: int| 0 <= k < runs.len() ==> out[k] == runs[k]);
    assert(out.last() == (start, end));
    assert forall|k: int, j: int|
        0 <= k < out.len() && out[k].0 <= j < out[k].1 implies #[trigger] keys[j] == keys[(
        #[trigger] out[k]).0 as int] by {
        if k < runs.len() {
            assert(out[k] == runs[k]);
        }
    }
    assert forall|k: int| 0 <= k < out.len() - 1 implies keys[(#[trigger] out[k]).0 as int]
        != keys[out[k + 1].0 as int] by {
        if k < runs.len() - 1 {
            assert(out[k] == runs[k] && out[k + 1] == runs[k + 1]);
        } else {
            assert(out[k] == runs.last());
        }
    }
    assert forall|k: int| 0 <= k < out.len() - 1 implies (#[trigger] out[k]).1 == out[k + 1].0 by {
        if k < runs.len() - 1 {
            assert(out[k] == runs[k] && out[k + 1] == runs[k + 1]);
        }
    }
}

/// The maximal runs of equal keys, as `[start, end)` index pairs in order.
pub fn equal_runs(keys: &Vec<u64>) -> (runs: Vec<(usize, usize)>)
    ensures
        spec_maximal_runs(keys@, runs@),
{
    let mut runs: Vec<(usize, usize)> = Vec::new();
    let n = keys.len();
    if n == 0 {
        return runs;
    }
    let mut start: usize = 0;
    let mut i: usize = 1;
    while i < n
        invariant
            n == keys@.len(),
            0 <= start < i <= n,
            forall|j: int| start <= j < i ==> #[trigger] keys@[j] == keys@[start as int],
            spec_runs_upto(keys@, runs@, start as int),
            runs@.len() > 0 ==> keys@[runs@.last().0 as int] != keys@[start as int],
        decreases n - i,
    {
        if keys[i] != keys[start] {
            proof {
                lemma_push_run(keys@, runs@, start, i);
            }
            runs.push((start, i));
            start = i;
        }
        i = i + 1;
    }
    proof {
        lemma_push_run(keys@, runs@, start, n);
    }
    runs.push((start, n));
    runs
}

} // verus!
