//! Failure kinds reported by the game, settlement and tournament operations.

use vstd::prelude::*;

verus! {

/// Why an operation was rejected. A rejected operation leaves every record
/// it was given exactly as it found it.
#[derive(Clone, Copy, Debug, PartialEq, Eq, Structural)]
pub enum TablaError {
    /// The caller is not the player whose turn it is.
    NotYourTurn,
    /// A move was requested before the dice were rolled for this turn.
    DiceNotRolled,
    /// The dice were already rolled for this turn.
    DiceAlreadyRolled,
    /// The move is not legal on the current board.
    InvalidMove,
    /// The game already has a winner.
    GameEnded,
    /// Settlement was requested before the game had a winner.
    GameNotEnded,
    /// The tournament roster is at capacity.
    TournamentFull,
    /// The tournament no longer accepts this registration.
    TournamentStarted,
    /// The escrow balance does not cover the amounts to be paid out.
    InsufficientFunds,
    /// Only the winner may claim the winnings.
    NotWinner,
    /// The winnings of this game were already paid out.
    AlreadyClaimed,
}

} // verus!
