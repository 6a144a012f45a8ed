//! Waiting for the barrier transaction that closes each round to be confirmed.
use vstd::prelude::*;
use crate::arith::trunc_rem;
use crate::timing::{duration_in_milliseconds, millis_of, subsec_valid};

verus! {

/// How long, in milliseconds, the barrier transaction may stay unconfirmed.
pub const BARRIER_TIMEOUT_MS: u64 = 180_000;

/// What to do after one attempt at the barrier transaction.
#[derive(PartialEq, Eq, Structural, Clone, Copy, Debug)]
pub enum BarrierAction {
    /// The transaction was confirmed: check the barrier account's balance.
    CheckBalance,
    /// It stayed unconfirmed too long: give up the benchmark.
    GiveUp,
    /// Look at the cluster's last id and send the transaction again.
    Retry,
}

/// The action after an attempt that was confirmed or not, `elapsed_ms`
/// milliseconds after the first attempt.
pub open spec fn barrier_action(confirmed: bool, elapsed_ms: int) -> BarrierAction {
    if confirmed {
        BarrierAction::CheckBalance
    } else if elapsed_ms > BARRIER_TIMEOUT_MS {
        BarrierAction::GiveUp
    } else {
        BarrierAction::Retry
    }
}

/// Whether a retry numbered `sample_count` reports that the last id is stuck:
/// it did not advance, and this is a non-zero multiple of eight retries.
pub open spec fn reports_stall(sample_count: int, last_id_advanced: bool) -> bool {
    !last_id_advanced && sample_count > 0 && trunc_rem(sample_count, 8) == 0
}

/// The state of the attempts at one barrier transaction.
pub struct BarrierProgress {
    /// The number of attempts that have failed so far.
    pub sample_count: i64,
}

impl BarrierProgress {
    /// No attempt made yet.
    pub fn new() -> (r: Self)
        ensures
            r.sample_count == 0,
    {
        BarrierProgress { sample_count: 0 }
    }

    /// Counts a failed attempt, once the cluster's last id was seen to have
    /// advanced or not; returns whether to report that it is stuck.
    pub fn retry(&mut self, last_id_advanced: bool) -> (r: bool)
        requires
            old(self).sample_count < i64::MAX,
        ensures
            r == reports_stall(old(self).sample_count as int, last_id_advanced),
            final(self).sample_count == old(self).sample_count + 1,
    {
        let report = !last_id_advanced && self.sample_count > 0 && self.sample_count % 8 == 0;
        self.sample_count = self.sample_count + 1;
        report
    }
}

/// Decides what follows an attempt that was `confirmed` or not, made
/// `elapsed_secs` seconds and `elapsed_subsec_nanos` nanoseconds after the
/// first one.
pub fn next_barrier_action(confirmed: bool, elapsed_secs: u64, elapsed_subsec_nanos: u32) -> (r:
    BarrierAction)
    requires
        subsec_valid(elapsed_subsec_nanos),
        millis_of(elapsed_secs as int, elapsed_subsec_nanos as int) <= u64::MAX,
    ensures
        r == barrier_action(
            confirmed,
            millis_of(elapsed_secs as int, elapsed_subsec_nanos as int),
        ),
        confirmed ==> r == BarrierAction::CheckBalance,
        !confirmed ==> (r == BarrierAction::GiveUp <==> elapsed_secs * 1000 + elapsed_subsec_nanos
            / 1_000_000 > 180_000),
{
    let elapsed_ms = duration_in_milliseconds(elapsed_secs, elapsed_subsec_nanos);
    if confirmed {
        BarrierAction::CheckBalance
    } else if elapsed_ms > BARRIER_TIMEOUT_MS {
        BarrierAction::GiveUp
    } else {
        BarrierAction::Retry
    }
}

/// A confirmed attempt leads to the balance check; an unconfirmed one is
/// retried until more than three minutes have passed since the first.
pub proof fn lemma_barrier_action(confirmed: bool, elapsed_ms: int)
    ensures
        confirmed ==> barrier_action(confirmed, elapsed_ms) == BarrierAction::CheckBalance,
        !confirmed && elapsed_ms > 180_000 ==> barrier_action(confirmed, elapsed_ms)
            == BarrierAction::GiveUp,
        !confirmed && elapsed_ms <= 180_000 ==> barrier_action(confirmed, elapsed_ms)
            == BarrierAction::Retry,
{
}

/// Counting retries from zero, a stuck last id is reported on the 8th,
/// 16th, 24th, ... retry and on no other, and only when it did not advance.
pub proof fn lemma_reports_stall(sample_count: int, last_id_advanced: bool)
    requires
        sample_count >= 0,
    ensures
        reports_stall(sample_count, last_id_advanced) <==> (!last_id_advanced && sample_count > 0
            && sample_count % 8 == 0),
        sample_count > 0 ==> reports_stall(sample_count + 8, last_id_advanced) == reports_stall(
            sample_count,
            last_id_advanced,
        ),
{
    vstd::arithmetic::div_mod::lemma_mod_add_multiples_vanish(sample_count, 8);
}

/// The barrier account holds exactly the one token that the barrier
/// transaction moves to itself.
pub fn barrier_balance_ok(balance: i64) -> (r: bool)
    ensures
        r == (balance == 1),
{
    balance == 1
}

} // verus!
