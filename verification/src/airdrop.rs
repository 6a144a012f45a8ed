//! Funding an account from the drone before the benchmark sends from it.
use vstd::prelude::*;

verus! {

/// How many times the balance is read while waiting for an airdrop to land.
pub const AIRDROP_POLLS: u32 = 20;

/// The tokens to request so that an account holding `starting_balance` holds
/// `target` tokens: none when it already holds enough.
pub open spec fn airdrop_need(starting_balance: int, target: int) -> Option<int> {
    if starting_balance < target {
        Some(target - starting_balance)
    } else {
        None
    }
}

/// The tokens to request for an account that holds `starting_balance` and
/// needs `target`; `None` when no airdrop is needed.
pub fn airdrop_amount(starting_balance: i64, target: i64) -> (r: Option<i64>)
    requires
        starting_balance < target ==> target - starting_balance <= i64::MAX,
    ensures
        r matches Some(a) ==> airdrop_need(starting_balance as int, target as int) == Some(a as int),
        r is None <==> airdrop_need(starting_balance as int, target as int) is None,
        starting_balance < target ==> r == Some((target - starting_balance) as i64),
        starting_balance >= target ==> r is None,
        r matches Some(a) ==> a > 0 && starting_balance + a == target,
{
    if starting_balance < target {
        Some(target - starting_balance)
    } else {
        None
    }
}

/// Tokens with which the generated accounts must be funded before the first
/// round: every one of the `tx_count` transfers needs the tokens that the first
/// account lacks of `num_tokens_per_account`; `None` when it lacks none.
pub fn funding_needed(num_tokens_per_account: i64, first_account_balance: i64, tx_count: i64) -> (r:
    Option<i64>)
    requires
        num_tokens_per_account > first_account_balance ==> {
            &&& num_tokens_per_account - first_account_balance <= i64::MAX
            &&& i64::MIN <= (num_tokens_per_account - first_account_balance) * tx_count <= i64::MAX
        },
    ensures
        r matches Some(a) ==> num_tokens_per_account > first_account_balance && a == (
        num_tokens_per_account - first_account_balance) * tx_count,
        r is None <==> num_tokens_per_account <= first_account_balance,
{
    if num_tokens_per_account > first_account_balance {
        let lacking = num_tokens_per_account - first_account_balance;
        Some(lacking * tx_count)
    } else {
        None
    }
}

/// The balance readings taken while waiting for an airdrop.
pub struct AirdropWatch {
    /// The balance before the airdrop was requested.
    pub starting_balance: i64,
    /// The balance most recently read.
    pub current_balance: i64,
    /// How many times the balance has been read.
    pub polls: u32,
}

/// The balance that a reading yields: a failed reading counts as the starting balance.
pub open spec fn reading_value(starting_balance: i64, reading: Option<i64>) -> i64 {
    match reading {
        Some(b) => b,
        None => starting_balance,
    }
}

impl AirdropWatch {
    /// Waiting begins with no reading taken.
    pub fn new(starting_balance: i64) -> (r: Self)
        ensures
            r.starting_balance == starting_balance,
            r.current_balance == starting_balance,
            r.polls == 0,
    {
        AirdropWatch { starting_balance, current_balance: starting_balance, polls: 0 }
    }

    /// Whether to read the balance again: readings remain and the balance has
    /// not moved yet.
    pub fn keep_polling(&self) -> (r: bool)
        ensures
            r == (self.polls < AIRDROP_POLLS && self.current_balance == self.starting_balance),
    {
        self.polls < AIRDROP_POLLS && self.current_balance == self.starting_balance
    }

    /// Takes in one reading, `None` when reading the balance failed.
    pub fn record_poll(&mut self, reading: Option<i64>)
        requires
            old(self).polls < AIRDROP_POLLS,
        ensures
            final(self).starting_balance == old(self).starting_balance,
            final(self).current_balance == reading_value(old(self).starting_balance, reading),
            reading matches Some(b) ==> final(self).current_balance == b,
            reading is None ==> final(self).current_balance == old(self).starting_balance,
            final(self).polls == old(self).polls + 1,
    {
        self.current_balance = match reading {
            Some(b) => b,
            None => self.starting_balance,
        };
        self.polls = self.polls + 1;
    }

    /// Whether the balance grew by exactly the `amount` requested.
    pub fn landed(&self, amount: i64) -> (r: bool)
        requires
            i64::MIN <= self.current_balance - self.starting_balance <= i64::MAX,
        ensures
            r == (self.current_balance - self.starting_balance == amount),
    {
        self.current_balance - self.starting_balance == amount
    }
}

/// An account short of its target is asked exactly the shortfall, which
/// brings it to the target; one that is not short is asked nothing.
pub proof fn lemma_airdrop_need_is_shortfall(starting_balance: int, target: int)
    ensures
        starting_balance < target ==> airdrop_need(starting_balance, target) == Some(
            target - starting_balance,
        ),
        starting_balance >= target ==> airdrop_need(starting_balance, target) is None,
        airdrop_need(starting_balance, target) matches Some(a) ==> a > 0 && starting_balance + a
            == target,
{
}

/// Two accounts with the same shortfall are asked the same amount: the
/// request depends on the balances only through their difference.
pub proof fn lemma_airdrop_need_shift(starting_balance: int, target: int, shift: int)
    ensures
        airdrop_need(starting_balance + shift, target + shift) == airdrop_need(
            starting_balance,
            target,
        ),
{
}

/// A successful reading is taken as read; a failed one counts as the
/// starting balance.
pub proof fn lemma_reading_value(starting_balance: i64, reading: Option<i64>)
    ensures
        reading matches Some(b) ==> reading_value(starting_balance, reading) == b,
        reading is None ==> reading_value(starting_balance, reading) == starting_balance,
{
}

/// An airdrop that landed leaves the account with exactly the tokens it needed.
pub proof fn lemma_landed_airdrop_reaches_target(
    starting_balance: int,
    target: int,
    amount: int,
    current_balance: int,
)
    requires
        airdrop_need(starting_balance, target) == Some(amount),
        current_balance - starting_balance == amount,
    ensures
        current_balance == target,
{
}

} // verus!
