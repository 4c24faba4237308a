//! The epoch schedule: shuffled training order, minibatch partition, and
//! the reporting cadence.
//!
//! One training epoch visits every sample once, in an order shuffled by
//! zipping each index with a random draw and sorting by the draw (a
//! Schwartzian-transform shuffle), then split into contiguous minibatches of
//! a fixed size, the final one possibly shorter. Progress is reported before
//! batch 0 and before every fifth batch thereafter; a window-mean loss is
//! reported after every fifth processed batch, where the first window spans
//! six batches (batch 0 is counted into the first window but triggers no
//! report of its own) and every later window spans five.
//!
//! Everything here is decision logic over plain values. The caller performs
//! the numeric work batch by batch and the reporting side effects; this
//! module fixes, and proves, which samples each batch holds and when each
//! hook fires. Sort keys are compared as unsigned bit patterns, which orders
//! them exactly as the non-negative floating-point draws they came from.

use vstd::prelude::*;
use vstd::arithmetic::div_mod::{lemma_fundamental_div_mod, lemma_mod_bound};
use vstd::seq_lib::group_to_multiset_ensures;

verus! {

/// Number of samples in a full minibatch.
pub const BATCH_SIZE: usize = 32;

/// Cadence of the reporting hooks, counted in processed batches.
pub const REPORT_PERIOD: usize = 5;

/// Number of batches the first loss-reporting window spans: batch 0 is
/// folded into it on top of the regular period.
pub const FIRST_WINDOW_SPAN: usize = REPORT_PERIOD + 1;

/// Number of minibatches an epoch over `n` samples runs: `n / BATCH_SIZE`
/// rounded up, so the final batch may be shorter than the rest.
pub open spec fn spec_num_batches(n: int) -> int {
    (n + BATCH_SIZE - 1) / (BATCH_SIZE as int)
}

/// Index of the first sample of batch `b` in the epoch's training order.
pub open spec fn spec_batch_start(b: int) -> int {
    b * BATCH_SIZE
}

/// One-past-the-last sample of batch `b`, for an epoch over `n` samples.
pub open spec fn spec_batch_end(n: int, b: int) -> int {
    if n < (b + 1) * BATCH_SIZE {
        n
    } else {
        (b + 1) * BATCH_SIZE
    }
}

/// Whether progress is reported when batch `b` comes up: at batch 0 and
/// every fifth batch thereafter. The fraction reported is the number of
/// samples consumed before the batch over the dataset size.
pub open spec fn spec_reports_progress(b: int) -> bool {
    b % (REPORT_PERIOD as int) == 0
}

/// The loss-window divisor attached to batch `b`: after every fifth
/// processed batch the mean loss since the previous report goes out, and
/// the first window divides by six because batch 0's loss is folded in
/// without a report of its own.
pub open spec fn spec_loss_divisor(b: int) -> Option<usize> {
    if b % (REPORT_PERIOD as int) == 0 && b != 0 {
        if b == REPORT_PERIOD {
            Some(FIRST_WINDOW_SPAN)
        } else {
            Some(REPORT_PERIOD)
        }
    } else {
        None
    }
}

/// One step of an epoch: the half-open range of positions
/// `[start, end)` in the shuffled training order that form this batch,
/// whether a progress fraction `start / n` is reported before the batch,
/// and, if a loss report follows the batch, the window divisor for it.
pub struct BatchStep {
    /// Position in the training order of the batch's first sample.
    pub start: usize,
    /// One past the position of the batch's last sample.
    pub end: usize,
    /// Whether the progress hook fires before this batch.
    pub report_progress: bool,
    /// Divisor of the loss window reported after this batch, if any.
    pub loss_divisor: Option<usize>,
}

/// Lays out one epoch over `n` samples: every minibatch in order, each with
/// its slice of the training order and its reporting duties. The batches
/// partition `[0, n)` contiguously; every batch is full except possibly the
/// last, and the count weights each batch equally in the epoch's mean loss.
pub fn epoch_plan(n: usize) -> (plan: Vec<BatchStep>)
    requires
        1 <= n,
        n <= usize::MAX - BATCH_SIZE,
    ensures
        plan@.len() == spec_num_batches(n as int),
        forall|b: int|
            0 <= b < plan@.len() ==> {
                &&& #[trigger] plan@[b].start == spec_batch_start(b)
                &&& plan@[b].end == spec_batch_end(n as int, b)
                &&& plan@[b].report_progress == spec_reports_progress(b)
                &&& plan@[b].loss_divisor == spec_loss_divisor(b)
            },
{
    let mut plan: Vec<BatchStep> = Vec::new();
    let mut start: usize = 0;
    while start < n
        invariant
            1 <= n <= usize::MAX - BATCH_SIZE,
            start == plan@.len() * BATCH_SIZE,
            plan@.len() >= 1 ==> (plan@.len() - 1) * BATCH_SIZE < n,
            forall|b: int|
                0 <= b < plan@.len() ==> {
                    &&& #[trigger] plan@[b].start == spec_batch_start(b)
                    &&& plan@[b].end == spec_batch_end(n as int, b)
                    &&& plan@[b].report_progress == spec_reports_progress(b)
                    &&& plan@[b].loss_divisor == spec_loss_divisor(b)
                },
        decreases n + BATCH_SIZE - start,
    {
        let b = plan.len();
        let end = if n - start <= BATCH_SIZE {
            n
        } else {
            start + BATCH_SIZE
        };
        let report_progress = b % REPORT_PERIOD == 0;
        let loss_divisor = if b % REPORT_PERIOD == 0 && b != 0 {
            if b == REPORT_PERIOD {
                Some(FIRST_WINDOW_SPAN)
            } else {
                Some(REPORT_PERIOD)
            }
        } else {
            None
        };
        plan.push(BatchStep { start, end, report_progress, loss_divisor });
        start = start + BATCH_SIZE;
    }
    proof {
        let k = plan@.len() as int;
        let ni = n as int;
        lemma_fundamental_div_mod(ni + BATCH_SIZE - 1, BATCH_SIZE as int);
        lemma_mod_bound(ni + BATCH_SIZE - 1, BATCH_SIZE as int);
        assert(k * BATCH_SIZE >= ni && (k - 1) * BATCH_SIZE < ni);
        assert(k == spec_num_batches(n as int));
    }
    plan
}

/// The minibatches partition the training order `[0, n)` contiguously:
/// batch 0 starts at 0, each batch starts where the previous one ended,
/// every batch but the last holds exactly `BATCH_SIZE` samples, the last
/// one ends at `n` — and the batch count weights each batch equally in the
/// epoch's mean of per-batch mean losses.
pub proof fn lemma_batches_partition(n: int, b: int)
    requires
        1 <= n,
        0 <= b < spec_num_batches(n),
    ensures
        spec_batch_start(b) < spec_batch_end(n, b) <= n,
        b == 0 ==> spec_batch_start(b) == 0,
        b > 0 ==> spec_batch_start(b) == spec_batch_end(n, b - 1),
        b < spec_num_batches(n) - 1 ==> spec_batch_end(n, b) - spec_batch_start(b) == BATCH_SIZE,
        b == spec_num_batches(n) - 1 ==> spec_batch_end(n, b) == n,
{
    lemma_fundamental_div_mod(n + BATCH_SIZE - 1, BATCH_SIZE as int);
    lemma_mod_bound(n + BATCH_SIZE - 1, BATCH_SIZE as int);
}

/// A sequence is a training order for `n` samples: it holds each sample
/// index below `n` exactly once.
pub open spec fn is_permutation_of_indices(order: Seq<usize>, n: nat) -> bool {
    &&& order.len() == n
    &&& order.no_duplicates()
    &&& forall|k: int| 0 <= k < n ==> #[trigger] order.contains(k as usize)
}

/// A key sequence is sorted ascending.
pub open spec fn sorted_by_key(s: Seq<(usize, u64)>) -> bool {
    forall|i: int, j: int| 0 <= i <= j < s.len() ==> s[i].1 <= s[j].1
}

/// Where to insert a key into a run of pairs sorted ascending by key, so
/// that it lands after every key not above it.
fn insert_position(sorted: &Vec<(usize, u64)>, key: u64) -> (pos: usize)
    requires
        sorted_by_key(sorted@),
    ensures
        pos <= sorted@.len(),
        forall|m: int| 0 <= m < pos ==> sorted@[m].1 <= key,
        pos < sorted@.len() ==> sorted@[pos as int].1 > key,
{
    let mut pos: usize = 0;
    while pos < sorted.len() && sorted[pos].1 <= key
        invariant
            pos <= sorted@.len(),
            forall|m: int| 0 <= m < pos ==> sorted@[m].1 <= key,
        decreases sorted@.len() - pos,
    {
        pos = pos + 1;
    }
    pos
}

/// The epoch's shuffled training order: each sample index is zipped with
/// its random draw and the indices are sorted by the draws, ascending, ties
/// keeping index order (the sort is stable). The result visits each index
/// below `keys.len()` exactly once, and the three clauses below pin it down
/// completely: it is the one permutation that is sorted by the draws and
/// stable on equal draws.
pub fn shuffled_order(keys: &Vec<u64>) -> (order: Vec<usize>)
    ensures
        is_permutation_of_indices(order@, keys@.len()),
        forall|i: int, j: int|
            0 <= i <= j < order@.len() ==> keys@[order@[i] as int] <= keys@[order@[j] as int],
        forall|i: int, j: int|
            0 <= i < j < order@.len() && keys@[order@[i] as int] == keys@[order@[j] as int]
                ==> order@[i] < order@[j],
{
    let n = keys.len();
    let mut pairs: Vec<(usize, u64)> = Vec::new();
    let mut i: usize = 0;
    while i < n
        invariant
            i <= n,
            n == keys@.len(),
            pairs@.len() == i,
            forall|k: int|
                0 <= k < i ==> #[trigger] pairs@[k] == (k as usize, keys@[k]),
        decreases n - i,
    {
        pairs.push((i, keys[i]));
        i = i + 1;
    }

    let mut sorted: Vec<(usize, u64)> = Vec::new();
    proof {
        assert(pairs@.subrange(0, 0) =~= sorted@);
    }
    let mut i: usize = 0;
    while i < n
        invariant
            i <= n,
            n == keys@.len(),
            pairs@.len() == n,
            forall|k: int|
                0 <= k < n ==> #[trigger] pairs@[k] == (k as usize, keys@[k]),
            sorted@.len() == i,
            sorted_by_key(sorted@),
            forall|m: int| 0 <= m < sorted@.len() ==> (#[trigger] sorted@[m]).0 < i,
            forall|a: int, b: int|
                0 <= a < b < sorted@.len() && sorted@[a].1 == sorted@[b].1 ==> sorted@[a].0
                    < sorted@[b].0,
            sorted@.to_multiset() == pairs@.subrange(0, i as int).to_multiset(),
        decreases n - i,
    {
        let p = pairs[i];
        let pos = insert_position(&sorted, p.1);
        let ghost prev = sorted@;
        sorted.insert(pos, p);
        proof {
            broadcast use group_to_multiset_ensures;

            assert(sorted@ == prev.insert(pos as int, p));
            assert(forall|m: int| 0 <= m < pos ==> #[trigger] sorted@[m] == prev[m]);
            assert(sorted@[pos as int] == p);
            assert(forall|m: int| pos < m < sorted@.len() ==> #[trigger] sorted@[m] == prev[m - 1]);
            assert forall|a: int, b: int|
                0 <= a <= b < sorted@.len() implies sorted@[a].1 <= sorted@[b].1 by {
                assert(forall|m: int|
                    0 <= m < prev.len() && m >= pos ==> prev[m].1 >= p.1);
            }
            // the new pair lands after every equal draw, and everything
            // after it holds a strictly larger draw, so ties stay in index
            // order
            assert forall|a: int, b: int|
                0 <= a < b < sorted@.len() && sorted@[a].1 == sorted@[b].1 implies sorted@[a].0
                    < sorted@[b].0 by {
                assert(forall|m: int|
                    0 <= m < prev.len() && m >= pos ==> prev[m].1 >= p.1);
                if b == pos {
                    assert(prev[a].0 < i);
                } else if a == pos {
                    assert(prev[b - 1].1 > p.1);
                }
            }
            assert(pairs@.subrange(0, i + 1) =~= pairs@.subrange(0, i as int).push(pairs@[i as int]));
            assert(sorted@.to_multiset() =~= pairs@.subrange(0, i + 1).to_multiset());
        }
        i = i + 1;
    }

    let mut order: Vec<usize> = Vec::new();
    let mut i: usize = 0;
    while i < n
        invariant
            i <= n,
            sorted@.len() == n,
            order@.len() == i,
            forall|k: int| 0 <= k < i ==> #[trigger] order@[k] == sorted@[k].0,
        decreases n - i,
    {
        order.push(sorted[i].0);
        i = i + 1;
    }

    proof {
        broadcast use group_to_multiset_ensures;

        assert(pairs@.subrange(0, n as int) =~= pairs@);
        assert(sorted@.to_multiset() == pairs@.to_multiset());
        assert(pairs@.no_duplicates()) by {
            assert forall|a: int, b: int|
                0 <= a < b < pairs@.len() implies pairs@[a] != pairs@[b] by {
                assert(pairs@[a].0 == a && pairs@[b].0 == b);
            }
        }
        pairs@.lemma_multiset_has_no_duplicates();
        sorted@.lemma_multiset_has_no_duplicates_conv();

        // Every sorted entry is one of the original pairs, so it carries its
        // own key: sorted[j] == (k, keys[k]) for some k below n.
        assert forall|j: int|
            0 <= j < n implies (#[trigger] sorted@[j]).0 < n && sorted@[j].1 == keys@[
            sorted@[j].0 as int] by {
            assert(sorted@.contains(sorted@[j]));
            assert(sorted@.to_multiset().count(sorted@[j]) > 0);
            assert(pairs@.contains(sorted@[j]));
            let k = choose|k: int| 0 <= k < pairs@.len() && pairs@[k] == sorted@[j];
            assert(pairs@[k] == (k as usize, keys@[k]));
        }

        // Distinct positions carry distinct indices: equal indices would
        // force equal pairs, which no_duplicates rules out.
        assert forall|a: int, b: int|
            0 <= a < b < n implies order@[a] != order@[b] by {
            if sorted@[a].0 == sorted@[b].0 {
                assert(sorted@[a] == sorted@[b]);
            }
        }
        assert(order@.no_duplicates());

        // Ties in the draws keep index order, position by position.
        assert forall|a: int, b: int|
            0 <= a < b < n && keys@[order@[a] as int] == keys@[order@[b] as int] implies order@[a]
                < order@[b] by {
            assert(sorted@[a].1 == keys@[sorted@[a].0 as int]);
            assert(sorted@[b].1 == keys@[sorted@[b].0 as int]);
        }

        // Every index below n appears: its pair is among the sorted ones.
        assert forall|k: int| 0 <= k < n implies #[trigger] order@.contains(k as usize) by {
            assert(pairs@[k] == (k as usize, keys@[k]));
            assert(pairs@.contains(pairs@[k]));
            assert(pairs@.to_multiset().count(pairs@[k]) > 0);
            assert(sorted@.contains(pairs@[k]));
            let j = choose|j: int| 0 <= j < sorted@.len() && sorted@[j] == pairs@[k];
            assert(order@[j] == k as usize);
        }
    }
    order
}

} // verus!
