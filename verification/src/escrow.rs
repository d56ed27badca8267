//! The escrow that holds the pooled stake of a game, and the arithmetic
//! that splits it between the winner and the platform.

use vstd::prelude::*;

use crate::errors::TablaError;

verus! {

/// The platform's share of the pooled stake, in basis points.
pub const PLATFORM_FEE_BPS: u64 = 500;

/// Basis points in a whole.
pub const BPS_DENOMINATOR: u64 = 10_000;

/// The pooled stake of one game.
#[derive(Clone, Copy, Debug, PartialEq, Eq, Structural)]
pub struct Escrow {
    /// The balance held.
    pub amount: u64,
    /// Whether the winnings were paid out.
    pub claimed: bool,
}

/// How a pooled stake is split.
#[derive(Clone, Copy, Debug, PartialEq, Eq, Structural)]
pub struct Settlement {
    /// What the winner receives.
    pub winner_payout: u64,
    /// What the platform receives.
    pub platform_fee: u64,
}

/// The stake of both players together.
pub open spec fn pooled_stake(stake: int) -> int {
    2 * stake
}

/// The platform's fee on a pooled stake: five percent, rounded down.
pub open spec fn platform_fee(pooled: int) -> int {
    pooled * PLATFORM_FEE_BPS as int / BPS_DENOMINATOR as int
}

/// What is left for the winner once the fee is taken.
pub open spec fn winner_payout(pooled: int) -> int {
    pooled - platform_fee(pooled)
}

/// The split of a pooled stake that fits the balance type.
pub open spec fn settlement_of(pooled: int) -> Settlement {
    Settlement {
        winner_payout: winner_payout(pooled) as u64,
        platform_fee: platform_fee(pooled) as u64,
    }
}

/// Fee and payout are never negative and never exceed the pooled stake.
pub proof fn lemma_split_bounds(pooled: int)
    requires
        0 <= pooled,
    ensures
        0 <= platform_fee(pooled) <= pooled,
        0 <= winner_payout(pooled) <= pooled,
        platform_fee(pooled) == pooled / 20,
{
}

/// Splits a pooled stake into the winner's payout and the platform's fee.
pub fn split_pot(pooled: u64) -> (split: Settlement)
    ensures
        split == settlement_of(pooled as int),
        split.platform_fee == platform_fee(pooled as int),
        split.winner_payout == winner_payout(pooled as int),
        split.winner_payout + split.platform_fee == pooled,
{
    proof {
        lemma_split_bounds(pooled as int);
    }
    let fee = ((pooled as u128 * PLATFORM_FEE_BPS as u128) / BPS_DENOMINATOR as u128) as u64;
    Settlement { winner_payout: pooled - fee, platform_fee: fee }
}

impl Escrow {
    /// Opens the escrow of a game in which each player stakes `stake`: it
    /// holds both stakes and nothing was paid out. There is no such escrow
    /// where the two stakes together exceed what a balance can hold.
    pub fn for_stake(stake: u64) -> (escrow: Option<Escrow>)
        ensures
            pooled_stake(stake as int) <= u64::MAX ==> escrow == Some(
                Escrow { amount: pooled_stake(stake as int) as u64, claimed: false },
            ),
            pooled_stake(stake as int) > u64::MAX ==> escrow is None,
    {
        match stake.checked_mul(2) {
            Some(amount) => Some(Escrow { amount, claimed: false }),
            None => None,
        }
    }

    /// Takes `amount` out of the balance, or refuses with
    /// `InsufficientFunds` and changes nothing where the balance is smaller.
    pub fn debit(&mut self, amount: u64) -> (result: Result<(), TablaError>)
        ensures
            amount <= old(self).amount ==> result is Ok && final(self).amount == old(self).amount
                - amount && final(self).claimed == old(self).claimed,
            amount > old(self).amount ==> result == Err::<(), TablaError>(
                TablaError::InsufficientFunds,
            ) && *final(self) == *old(self),
    {
        if amount > self.amount {
            return Err(TablaError::InsufficientFunds);
        }
        self.amount = self.amount - amount;
        Ok(())
    }
}

} // verus!
