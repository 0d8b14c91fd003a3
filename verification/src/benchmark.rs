//! Benchmark parameters and the choice of batch sizes a throughput sweep runs.

use vstd::prelude::*;

verus! {

/// Number of warm-up passes before timing.
pub const WARMUP_ITERS: usize = 1;

/// Number of timed iterations used to compute the average.
pub const BENCH_ITERS: usize = 10;

/// Number of warm-up passes for GPU-only benchmarking.
pub const GPU_WARMUP_ITERS: usize = 3;

/// Number of timed iterations for GPU-only benchmarking.
pub const GPU_BENCH_ITERS: usize = 50;

/// Cap on total samples (N × batch) to avoid running out of memory on very large FFTs.
pub const MAX_TOTAL_SAMPLES: usize = 16 * 1024 * 1024;

/// Whether a sweep benchmarks batch size `batch_size` at transform size `n`.
pub open spec fn within_sample_cap(n: usize, batch_size: usize) -> bool {
    n * batch_size <= MAX_TOTAL_SAMPLES
}

/// Every element the filter keeps is an element of the filtered sequence.
proof fn lemma_filter_from<A>(s: Seq<A>, pred: spec_fn(A) -> bool)
    ensures
        forall|i: int| 0 <= i < s.filter(pred).len() ==> s.contains(#[trigger] s.filter(pred)[i]),
    decreases s.len(),
{
    reveal(Seq::filter);
    if s.len() > 0 {
        let front = s.drop_last();
        lemma_filter_from(front, pred);
        assert forall|i: int| 0 <= i < s.filter(pred).len() implies s.contains(#[trigger] s.filter(pred)[i]) by {
            if i < front.filter(pred).len() {
                let x = front.filter(pred)[i];
                let k = choose|k: int| 0 <= k < front.len() && front[k] == x;
                assert(s[k] == x);
            } else {
                assert(s[s.len() - 1] == s.last());
            }
        }
    }
}

/// Sweep law: when some batch size keeps `n * batch_size` within [`MAX_TOTAL_SAMPLES`], the sweep
/// runs exactly the given batch sizes that do (each of them, and no size it was not given);
/// when none does, it runs a single batch of one.
pub proof fn law_sweep_keeps_sizes_within_cap(n: usize, batch_sizes: Seq<usize>)
    ensures
        ({
            let kept = batch_sizes.filter(|b: usize| within_sample_cap(n, b));
            let r = if kept.len() == 0 { seq![1usize] } else { kept };
            &&& (exists|j: int| 0 <= j < batch_sizes.len() && n * #[trigger] batch_sizes[j] <= MAX_TOTAL_SAMPLES)
                ==> forall|i: int| 0 <= i < r.len() ==> n * #[trigger] r[i] <= MAX_TOTAL_SAMPLES && batch_sizes.contains(r[i])
            &&& forall|j: int| 0 <= j < batch_sizes.len() && n * #[trigger] batch_sizes[j] <= MAX_TOTAL_SAMPLES
                ==> r.contains(batch_sizes[j])
            &&& (forall|j: int| 0 <= j < batch_sizes.len() ==> n * #[trigger] batch_sizes[j] > MAX_TOTAL_SAMPLES)
                ==> r == seq![1usize]
        }),
{
    let pred = |b: usize| within_sample_cap(n, b);
    let kept = batch_sizes.filter(pred);
    lemma_filter_from(batch_sizes, pred);
    assert forall|i: int| 0 <= i < kept.len() implies pred(#[trigger] kept[i]) by {
        batch_sizes.lemma_filter_pred(pred, i);
    }
    assert forall|j: int| 0 <= j < batch_sizes.len() && n * #[trigger] batch_sizes[j] <= MAX_TOTAL_SAMPLES
        implies kept.contains(batch_sizes[j]) by {
        batch_sizes.lemma_filter_contains(pred, j);
    }
    if (forall|j: int| 0 <= j < batch_sizes.len() ==> n * #[trigger] batch_sizes[j] > MAX_TOTAL_SAMPLES) {
        if kept.len() > 0 {
            assert(pred(kept[0]));
            assert(batch_sizes.contains(kept[0]));
            let k = choose|k: int| 0 <= k < batch_sizes.len() && batch_sizes[k] == kept[0];
            assert(n * batch_sizes[k] > MAX_TOTAL_SAMPLES);
        }
    }
}

/// The batch sizes a sweep at transform size `n` benchmarks, in the given order: those whose
/// total sample count stays within [`MAX_TOTAL_SAMPLES`], or a single batch of one if the cap
/// rules all of them out.
pub fn sweep_batch_sizes(n: usize, batch_sizes: &[usize]) -> (r: Vec<usize>)
    requires
        forall|i: int| 0 <= i < batch_sizes@.len() ==> n * #[trigger] batch_sizes@[i] <= usize::MAX,
    ensures
        ({
            let kept = batch_sizes@.filter(|b: usize| within_sample_cap(n, b));
            r@ == (if kept.len() == 0 { seq![1usize] } else { kept })
        }),
{
    let ghost pred = |b: usize| within_sample_cap(n, b);
    let mut kept: Vec<usize> = Vec::new();
    let mut i: usize = 0;
    while i < batch_sizes.len()
        invariant
            0 <= i <= batch_sizes@.len(),
            pred == (|b: usize| within_sample_cap(n, b)),
            forall|j: int| 0 <= j < batch_sizes@.len() ==> n * #[trigger] batch_sizes@[j] <= usize::MAX,
            kept@ == batch_sizes@.take(i as int).filter(pred),
        decreases batch_sizes@.len() - i,
    {
        let batch_size = batch_sizes[i];
        let ghost next = batch_sizes@.take(i + 1);
        assert(next.drop_last() =~= batch_sizes@.take(i as int));
        assert(next.last() == batch_size);
        reveal(Seq::filter);
        assert(next.filter(pred) == (if pred(batch_size) {
            batch_sizes@.take(i as int).filter(pred).push(batch_size)
        } else {
            batch_sizes@.take(i as int).filter(pred)
        }));
        if n * batch_size <= MAX_TOTAL_SAMPLES {
            kept.push(batch_size);
        }
        i += 1;
    }
    assert(batch_sizes@.take(i as int) =~= batch_sizes@);
    reveal(Seq::filter);
    assert(batch_sizes@.take(0).filter(pred) =~= Seq::<usize>::empty());
    if kept.len() == 0 {
        kept.push(1);
        assert(kept@ =~= seq![1usize]);
    }
    kept
}

} // verus!
