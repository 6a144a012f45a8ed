//! Sampling the transaction count of a node once per period.
use vstd::prelude::*;

verus! {

/// What one sample of a node's transaction count yields.
#[derive(PartialEq, Eq, Structural, Clone, Copy, Debug)]
pub struct TxSample {
    /// Transactions processed since the previous sample.
    pub sample: u64,
    /// Transactions processed since the benchmark began.
    pub total: u64,
}

/// The counts a node's sampler remembers between samples.
pub struct TxCountSampler {
    /// The transaction count when the benchmark began.
    pub first_tx_count: u64,
    /// The transaction count at the previous sample.
    pub last_tx_count: u64,
}

/// Transactions counted since the benchmark began: none while the count has
/// not passed its first value.
pub open spec fn total_since(first_tx_count: int, tx_count: int) -> int {
    if tx_count > first_tx_count {
        tx_count - first_tx_count
    } else {
        0
    }
}

impl TxCountSampler {
    /// A sampler for a node whose count was `first_tx_count` when the
    /// benchmark began and is `current_tx_count` now.
    pub fn new(first_tx_count: u64, current_tx_count: u64) -> (r: Self)
        ensures
            r.first_tx_count == first_tx_count,
            r.last_tx_count == current_tx_count,
    {
        TxCountSampler { first_tx_count, last_tx_count: current_tx_count }
    }

    /// Takes in a newly read count, which may not be below the previous one.
    pub fn record(&mut self, tx_count: u64) -> (r: TxSample)
        requires
            tx_count >= old(self).last_tx_count,
        ensures
            final(self).first_tx_count == old(self).first_tx_count,
            final(self).last_tx_count == tx_count,
            r.sample == tx_count - old(self).last_tx_count,
            r.total == total_since(old(self).first_tx_count as int, tx_count as int),
            tx_count > old(self).first_tx_count ==> r.total == tx_count - old(self).first_tx_count,
            tx_count <= old(self).first_tx_count ==> r.total == 0,
            r.sample + old(self).last_tx_count == tx_count,
    {
        let sample = tx_count - self.last_tx_count;
        self.last_tx_count = tx_count;
        let total = if tx_count > self.first_tx_count {
            tx_count - self.first_tx_count
        } else {
            0
        };
        TxSample { sample, total }
    }
}

/// Transactions of a sample scaled to a per-second rate numerator: the
/// sample times 10^9, over which the elapsed nanoseconds are divided.
pub fn rate_numerator(sample: u64) -> (r: u64)
    requires
        sample * 1_000_000_000 <= u64::MAX,
    ensures
        r == sample * 1_000_000_000,
{
    sample * 1_000_000_000
}

/// The total is the growth of the count past its first value, and 0 while
/// there is none.
pub proof fn lemma_total_since(first_tx_count: int, tx_count: int)
    ensures
        tx_count > first_tx_count ==> total_since(first_tx_count, tx_count) == tx_count
            - first_tx_count,
        tx_count <= first_tx_count ==> total_since(first_tx_count, tx_count) == 0,
        total_since(first_tx_count, tx_count) >= 0,
{
}

/// Once the count has passed its first value, each sample adds exactly its
/// transactions to the total.
pub proof fn lemma_total_grows_by_sample(first_tx_count: int, previous: int, tx_count: int)
    requires
        first_tx_count < previous <= tx_count,
    ensures
        total_since(first_tx_count, tx_count) == total_since(first_tx_count, previous) + (tx_count
            - previous),
{
}

/// The sum of the samples taken from `initial` through the counts `counts`,
/// each sample being a count less the one before it.
pub open spec fn samples_sum(initial: int, counts: Seq<int>) -> int
    decreases counts.len(),
{
    if counts.len() == 0 {
        0
    } else {
        samples_sum(initial, counts.drop_last()) + (counts.last() - if counts.len() == 1 {
            initial
        } else {
            counts[counts.len() - 2]
        })
    }
}

/// The samples of a run add up to the growth of the count over the run.
pub proof fn lemma_samples_telescope(initial: int, counts: Seq<int>)
    requires
        counts.len() > 0,
    ensures
        samples_sum(initial, counts) == counts.last() - initial,
    decreases counts.len(),
{
    if counts.len() > 1 {
        let prefix = counts.drop_last();
        lemma_samples_telescope(initial, prefix);
        assert(prefix.last() == counts[counts.len() - 2]);
    } else {
        assert(samples_sum(initial, counts.drop_last()) == 0);
    }
}

} // verus!
