//! When the benchmark reverses the direction in which tokens flow.
//!
//! Every round spends one token per account. Once three quarters of the
//! tokens that each account was funded with have been moved, the benchmark
//! sends them back, and from then on it reverses every quarter.
use vstd::prelude::*;
use crate::arith::{trunc_div, trunc_rem};
use vstd::arithmetic::div_mod::{lemma_fundamental_div_mod, lemma_mod_add_multiples_vanish, lemma_small_mod};

verus! {

/// The inputs on which the reversal test is computed without a division by
/// zero or an overflow: the quarter `n / 4` is non-zero, `i % quarter` does
/// not overflow, and `3 * n` fits in an `i64` whenever it is evaluated.
pub open spec fn switch_test_defined(num_tokens_per_account: int, i: int) -> bool {
    let quarter = trunc_div(num_tokens_per_account, 4);
    &&& quarter != 0
    &&& !(i == i64::MIN && quarter == -1)
    &&& trunc_rem(i, quarter) == 0 ==> i64::MIN <= 3 * num_tokens_per_account <= i64::MAX
}

/// Round `i` is a reversal point: it is a multiple of a quarter of the tokens
/// per account and at least three quarters of them have been spent.
pub open spec fn switches_at(num_tokens_per_account: int, i: int) -> bool {
    &&& trunc_rem(i, trunc_div(num_tokens_per_account, 4)) == 0
    &&& i >= trunc_div(3 * num_tokens_per_account, 4)
}

/// Whether the direction of transfers is reversed at round `i`.
pub fn should_switch_directions(num_tokens_per_account: i64, i: i64) -> (r: bool)
    requires
        switch_test_defined(num_tokens_per_account as int, i as int),
    ensures
        r == switches_at(num_tokens_per_account as int, i as int),
{
    i % (num_tokens_per_account / 4) == 0 && (i >= (3 * num_tokens_per_account) / 4)
}


/// Who pays whom in the transfers of one round.
#[derive(PartialEq, Eq, Structural, Clone, Copy, Debug)]
pub enum TransferDirection {
    /// The funding account sends one token to each generated account.
    FromSource,
    /// Each generated account sends one token back to the funding account.
    ToSource,
}

/// The direction of the transfers while the reclaim flag has the given value.
pub open spec fn direction_of(reclaim: bool) -> TransferDirection {
    if reclaim {
        TransferDirection::ToSource
    } else {
        TransferDirection::FromSource
    }
}

/// The round counter of the benchmark and the current direction of transfers.
pub struct BenchRound {
    /// Number of the round that comes next.
    pub round: i64,
    /// Whether tokens currently flow back to the funding account.
    pub reclaim: bool,
}

impl BenchRound {
    /// Starts counting at `start_round` with tokens flowing out of the funding account.
    pub fn new(start_round: i64) -> (r: Self)
        ensures
            r.round == start_round,
            !r.reclaim,
    {
        BenchRound { round: start_round, reclaim: false }
    }

    /// The direction of the transfers generated in the current round.
    pub fn direction(&self) -> (d: TransferDirection)
        ensures
            d == direction_of(self.reclaim),
            self.reclaim <==> d == TransferDirection::ToSource,
    {
        if self.reclaim {
            TransferDirection::ToSource
        } else {
            TransferDirection::FromSource
        }
    }

    /// Ends a round: the counter moves on and the direction is reversed when
    /// the new round is a reversal point.
    pub fn advance(&mut self, num_tokens_per_account: i64)
        requires
            old(self).round < i64::MAX,
            switch_test_defined(num_tokens_per_account as int, old(self).round + 1),
        ensures
            final(self).round == old(self).round + 1,
            final(self).reclaim == (old(self).reclaim != switches_at(
                num_tokens_per_account as int,
                old(self).round + 1,
            )),
    {
        self.round = self.round + 1;
        if should_switch_directions(num_tokens_per_account, self.round) {
            self.reclaim = !self.reclaim;
        }
    }
}

/// The reclaim flag after `k` calls of `advance` from round `round` with flag `reclaim`.
pub open spec fn reclaim_after(num_tokens_per_account: int, round: int, reclaim: bool, k: nat) -> bool
    decreases k,
{
    if k == 0 {
        reclaim
    } else {
        reclaim_after(num_tokens_per_account, round, reclaim, (k - 1) as nat) != switches_at(
            num_tokens_per_account,
            round + k,
        )
    }
}

/// How many of the rounds `round + 1 ..= round + k` are reversal points.
pub open spec fn switch_count(num_tokens_per_account: int, round: int, k: nat) -> nat
    decreases k,
{
    if k == 0 {
        0
    } else {
        switch_count(num_tokens_per_account, round, (k - 1) as nat) + if switches_at(
            num_tokens_per_account,
            round + k,
        ) {
            1nat
        } else {
            0nat
        }
    }
}

/// After `k` rounds the direction has been reversed once for every reversal
/// point passed: the flag differs from the starting one exactly when an odd
/// number of reversal points lie in the rounds that were entered.
pub proof fn lemma_reclaim_parity(num_tokens_per_account: int, round: int, reclaim: bool, k: nat)
    ensures
        reclaim_after(num_tokens_per_account, round, reclaim, k) == (reclaim != (switch_count(
            num_tokens_per_account,
            round,
            k,
        ) % 2 == 1)),
    decreases k,
{
    if k > 0 {
        lemma_reclaim_parity(num_tokens_per_account, round, reclaim, (k - 1) as nat);
    }
}

/// The reversal test is defined on every round whenever the tokens per
/// account are at least four and three times them fit in an `i64`, as with
/// the benchmark's twenty.
pub proof fn lemma_switch_test_defined(num_tokens_per_account: int, i: int)
    requires
        4 <= num_tokens_per_account,
        3 * num_tokens_per_account <= i64::MAX,
    ensures
        switch_test_defined(num_tokens_per_account, i),
{
}

/// With at least four tokens per account, round `i` is a reversal point
/// exactly when it is a multiple of a quarter of them and at least three
/// quarters of them have been spent.
pub proof fn lemma_switches_at_positive(num_tokens_per_account: int, i: int)
    requires
        num_tokens_per_account >= 4,
    ensures
        switches_at(num_tokens_per_account, i) <==> (i >= (3 * num_tokens_per_account) / 4 && i % (
        num_tokens_per_account / 4) == 0),
{
    assert((3 * num_tokens_per_account) / 4 >= 3);
}

/// With at most minus four tokens per account, the quarter and three
/// quarters are rounded toward zero: round `i` is a reversal point exactly
/// when its size is a multiple of `-n / 4` and it is at least `-(-3n / 4)`.
pub proof fn lemma_switches_at_negative(num_tokens_per_account: int, i: int)
    requires
        num_tokens_per_account <= -4,
    ensures
        switches_at(num_tokens_per_account, i) <==> (i >= -((-3 * num_tokens_per_account) / 4) && (
        if i >= 0 {
            i
        } else {
            -i
        }) % ((-num_tokens_per_account) / 4) == 0),
{
    let q = (-num_tokens_per_account) / 4;
    assert(q >= 1);
    assert(trunc_div(num_tokens_per_account, 4) == -q);
    let x = if i >= 0 {
        i
    } else {
        -i
    };
    assert(x % (-q) == x % q) by (nonlinear_arith)
        requires
            q > 0,
            x >= 0,
    ;
}

/// With at least four tokens per account, no reversal happens before three
/// quarters of them have been spent.
pub proof fn lemma_no_switch_before_three_quarters(num_tokens_per_account: int, i: int)
    requires
        num_tokens_per_account >= 4,
        i < trunc_div(3 * num_tokens_per_account, 4),
    ensures
        !switches_at(num_tokens_per_account, i),
{
}

/// With at least four tokens per account, past the first reversal point the
/// reversal points repeat every quarter of the tokens per account.
pub proof fn lemma_switch_period(num_tokens_per_account: int, i: int)
    requires
        num_tokens_per_account >= 4,
        i >= trunc_div(3 * num_tokens_per_account, 4),
    ensures
        switches_at(num_tokens_per_account, i + trunc_div(num_tokens_per_account, 4))
            == switches_at(num_tokens_per_account, i),
{
    let q = num_tokens_per_account / 4;
    assert(q > 0);
    assert(3 * num_tokens_per_account / 4 >= 0);
    lemma_mod_add_multiples_vanish(i, q);
}

/// With at least four tokens per account, between a reversal point and the
/// one a quarter later there is none.
pub proof fn lemma_no_switch_within_quarter(num_tokens_per_account: int, i: int, k: int)
    requires
        num_tokens_per_account >= 4,
        switches_at(num_tokens_per_account, i),
        0 < k < trunc_div(num_tokens_per_account, 4),
    ensures
        !switches_at(num_tokens_per_account, i + k),
{
    let q = num_tokens_per_account / 4;
    assert(3 * num_tokens_per_account / 4 >= 0);
    assert(i >= 0);
    lemma_fundamental_div_mod(i, q);
    let t = i / q;
    assert(i == q * t);
    vstd::arithmetic::div_mod::lemma_mod_multiples_vanish(t, k, q);
    lemma_small_mod(k as nat, q as nat);
}

} // verus!
