//! Settling a finished game.

use vstd::prelude::*;

use crate::errors::TablaError;
use crate::escrow::{pooled_stake, settlement_of, split_pot, Escrow, Settlement};
use crate::identity::Identity;
use crate::state::{GameState, GameView};

verus! {

impl GameView {
    /// Why `caller` may not settle this game, if so: the game has no
    /// winner yet, or the caller is not the winner.
    pub open spec fn settle_refusal(self, caller: Identity) -> Option<TablaError> {
        match self.winner {
            None => Some(TablaError::GameNotEnded),
            Some(winner) => if winner != caller {
                Some(TablaError::NotWinner)
            } else {
                None
            },
        }
    }

    /// Why a claim of `caller` against `escrow` is refused, if it is. The
    /// tests are made in this order: the game has no winner yet, the caller
    /// is not the winner, the winnings were paid out before, the escrow
    /// holds less than the pooled stake.
    pub open spec fn claim_refusal(self, escrow: Escrow, caller: Identity) -> Option<TablaError> {
        if self.settle_refusal(caller) is Some {
            self.settle_refusal(caller)
        } else if escrow.claimed {
            Some(TablaError::AlreadyClaimed)
        } else if pooled_stake(self.stake_amount as int) > escrow.amount {
            Some(TablaError::InsufficientFunds)
        } else {
            None
        }
    }
}

/// Decides whether `caller` may settle `game`.
fn check_settle(game: &GameState, caller: &Identity) -> (refusal: Option<TablaError>)
    ensures
        refusal == game@.settle_refusal(*caller),
{
    match game.winner {
        None => Some(TablaError::GameNotEnded),
        Some(winner) => if winner != *caller {
            Some(TablaError::NotWinner)
        } else {
            None
        },
    }
}

/// Computes what the winner and the platform receive out of
/// `pooled_stake`, on behalf of `caller`. Nothing is paid by this.
pub fn settle(game: &GameState, pooled_stake: u64, caller: &Identity) -> (result: Result<
    Settlement,
    TablaError,
>)
    ensures
        match game@.settle_refusal(*caller) {
            Some(refusal) => result == Err::<Settlement, TablaError>(refusal),
            None => result == Ok::<Settlement, TablaError>(settlement_of(pooled_stake as int)),
        },
{
    match check_settle(game, caller) {
        Some(refusal) => Err(refusal),
        None => Ok(split_pot(pooled_stake)),
    }
}

/// Pays out a finished game on behalf of `caller`.
///
/// The pooled stake, twice the stake of the game, is split into the
/// winner's payout and the platform's fee; both are taken out of the
/// escrow, which is marked as paid out. A refused claim changes nothing.
/// The caller moves the funds that are returned.
pub fn handler(game: &GameState, escrow: &mut Escrow, caller: &Identity) -> (result: Result<
    Settlement,
    TablaError,
>)
    ensures
        match game@.claim_refusal(*old(escrow), *caller) {
            Some(refusal) => result == Err::<Settlement, TablaError>(refusal) && *final(escrow)
                == *old(escrow),
            None => {
                let pooled = pooled_stake(game.stake_amount as int);
                &&& result == Ok::<Settlement, TablaError>(settlement_of(pooled))
                &&& final(escrow).amount == old(escrow).amount - pooled
                &&& final(escrow).claimed
            },
        },
{
    if let Some(refusal) = check_settle(game, caller) {
        return Err(refusal);
    }
    if escrow.claimed {
        return Err(TablaError::AlreadyClaimed);
    }
    let total_pot: u128 = game.stake_amount as u128 * 2;
    if total_pot > escrow.amount as u128 {
        return Err(TablaError::InsufficientFunds);
    }
    let split = split_pot(total_pot as u64);
    escrow.debit(split.winner_payout)?;
    escrow.debit(split.platform_fee)?;
    escrow.claimed = true;
    Ok(split)
}

} // verus!
