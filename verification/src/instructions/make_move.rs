//! Moving a checker and advancing the turn.

use vstd::prelude::*;

use crate::errors::TablaError;
use crate::identity::Identity;
use crate::state::{GameState, GameView};

verus! {

impl GameView {
    /// Why a move request of `player` is refused, if it is. The tests are
    /// made in this order: the game is over, it is not the caller's turn,
    /// no roll is pending, the move is illegal.
    pub open spec fn move_refusal(self, player: Identity, from: u8, to: u8) -> Option<TablaError> {
        if self.winner is Some {
            Some(TablaError::GameEnded)
        } else if self.current_turn != player {
            Some(TablaError::NotYourTurn)
        } else if !self.dice_rolled {
            Some(TablaError::DiceNotRolled)
        } else if !self.allows(from, to, player) {
            Some(TablaError::InvalidMove)
        } else {
            None
        }
    }

    /// The game after an accepted move of `player` at time `now`.
    ///
    /// The checker is moved. If that leaves a player with fifteen checkers
    /// borne off, the game ends: the winner and the end time are recorded
    /// and the turn stays where it is. Otherwise the dice are cleared and
    /// the turn passes to the other player.
    pub open spec fn after_move(self, player: Identity, from: u8, to: u8, now: i64) -> GameView {
        let moved = self.moved(from, to, player);
        match moved.winner_by_count() {
            Some(winner) => GameView { winner: Some(winner), game_ended: Some(now), ..moved },
            None => GameView {
                dice1: 0,
                dice2: 0,
                dice_rolled: false,
                current_turn: moved.opponent_of(moved.current_turn),
                ..moved
            },
        }
    }
}

/// Carries out the move of one checker from `from_position` to
/// `to_position` on behalf of `player`, at time `now`.
///
/// A refused request changes nothing. The conservation invariant is only
/// needed where the move is carried out.
pub fn handler(
    game: &mut GameState,
    player: &Identity,
    from_position: u8,
    to_position: u8,
    now: i64,
) -> (result: Result<(), TablaError>)
    requires
        old(game)@.move_refusal(*player, from_position, to_position) is None ==> old(
            game,
        )@.checkers_accounted(),
    ensures
        match old(game)@.move_refusal(*player, from_position, to_position) {
            Some(refusal) => result == Err::<(), TablaError>(refusal) && *final(game) == *old(game),
            None => result is Ok && final(game)@ == old(game)@.after_move(
                *player,
                from_position,
                to_position,
                now,
            ),
        },
        old(game)@.checkers_accounted() ==> final(game)@.checkers_accounted(),
        old(game)@.wf() ==> final(game)@.wf(),
{
    if game.winner.is_some() {
        return Err(TablaError::GameEnded);
    }
    if game.current_turn != *player {
        return Err(TablaError::NotYourTurn);
    }
    if !game.dice_rolled {
        return Err(TablaError::DiceNotRolled);
    }
    if !game.is_valid_move(from_position, to_position, player) {
        return Err(TablaError::InvalidMove);
    }
    game.execute_move(from_position, to_position, player);

    match game.check_winner() {
        Some(winner) => {
            game.winner = Some(winner);
            game.game_ended = Some(now);
        },
        None => {
            game.dice1 = 0;
            game.dice2 = 0;
            game.dice_rolled = false;
            game.current_turn = if game.current_turn == game.player_one {
                game.player_two
            } else {
                game.player_one
            };
        },
    }
    Ok(())
}

} // verus!
