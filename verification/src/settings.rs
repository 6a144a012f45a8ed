//! The benchmark's settings, with the defaults for those not given.
use vstd::prelude::*;
use crate::arith::trunc_div;

verus! {

/// Tokens with which each generated account is funded.
pub const NUM_TOKENS_PER_ACCOUNT: i64 = 20;

/// Seconds between two samples of a node's transaction count.
pub const SAMPLE_PERIOD_SECS: u64 = 1;

/// Sending threads when none is given.
pub const DEFAULT_THREADS: usize = 4;

/// Nodes to wait for when none is given.
pub const DEFAULT_NUM_NODES: usize = 1;

/// Transactions per round when none is given.
pub const DEFAULT_TX_COUNT: i64 = 500_000;

/// The settings of one run.
pub struct BenchSettings {
    /// Threads that send the transactions.
    pub threads: usize,
    /// Nodes that must be found before the run.
    pub num_nodes: usize,
    /// Seconds the run lasts; without a limit, practically forever.
    pub duration_secs: u64,
    /// Transactions per round.
    pub tx_count: i64,
    /// Whether generating transactions overlaps with sending them.
    pub sustained: bool,
    /// Whether exactly `num_nodes` nodes are required.
    pub reject_extra_nodes: bool,
    /// Whether to stop once the cluster has converged.
    pub converge_only: bool,
}

/// The given value, or the default when none is given.
pub open spec fn or_default<T>(given: Option<T>, default: T) -> T {
    match given {
        Some(v) => v,
        None => default,
    }
}

/// A given value is kept; a missing one takes the default.
pub proof fn lemma_or_default<T>(given: Option<T>, default: T)
    ensures
        given matches Some(v) ==> or_default(given, default) == v,
        given is None ==> or_default(given, default) == default,
{
}

impl BenchSettings {
    /// The settings from the options given, each missing one at its default.
    pub fn from_options(
        threads: Option<usize>,
        num_nodes: Option<usize>,
        duration_secs: Option<u64>,
        tx_count: Option<i64>,
        sustained: bool,
        reject_extra_nodes: bool,
        converge_only: bool,
    ) -> (r: Self)
        ensures
            r.threads == or_default(threads, DEFAULT_THREADS),
            threads is None ==> r.threads == 4,
            num_nodes is None ==> r.num_nodes == 1,
            tx_count is None ==> r.tx_count == 500_000,
            threads matches Some(t) ==> r.threads == t,
            num_nodes matches Some(n) ==> r.num_nodes == n,
            duration_secs matches Some(d) ==> r.duration_secs == d,
            tx_count matches Some(c) ==> r.tx_count == c,
            r.num_nodes == or_default(num_nodes, DEFAULT_NUM_NODES),
            r.duration_secs == or_default(duration_secs, u64::MAX),
            r.tx_count == or_default(tx_count, DEFAULT_TX_COUNT),
            r.sustained == sustained,
            r.reject_extra_nodes == reject_extra_nodes,
            r.converge_only == converge_only,
    {
        BenchSettings {
            threads: match threads {
                Some(t) => t,
                None => DEFAULT_THREADS,
            },
            num_nodes: match num_nodes {
                Some(n) => n,
                None => DEFAULT_NUM_NODES,
            },
            duration_secs: match duration_secs {
                Some(d) => d,
                None => u64::MAX,
            },
            tx_count: match tx_count {
                Some(c) => c,
                None => DEFAULT_TX_COUNT,
            },
            sustained,
            reject_extra_nodes,
            converge_only,
        }
    }

    /// Accounts to generate: one for every two transactions.
    pub fn keypair_count(&self) -> (r: i64)
        ensures
            r == trunc_div(self.tx_count as int, 2),
    {
        self.tx_count / 2
    }

    /// Whether another round starts once `elapsed_secs` whole seconds (and
    /// any fraction of one more) have passed: while the run's duration, a whole
    /// number of seconds, has not been reached.
    pub fn keep_running(&self, elapsed_secs: u64) -> (r: bool)
        ensures
            r == (elapsed_secs < self.duration_secs),
    {
        elapsed_secs < self.duration_secs
    }

    /// Whether, before the barrier transaction, the round waits until no
    /// thread is still sending: in peak mode while any is.
    pub fn wait_for_senders(&self, active_senders: isize) -> (r: bool)
        ensures
            r == (!self.sustained && active_senders > 0),
    {
        !self.sustained && active_senders > 0
    }
}

} // verus!
