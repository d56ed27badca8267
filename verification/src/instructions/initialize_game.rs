//! Creating a game.

use vstd::prelude::*;

use crate::board::lemma_standard_board_full;
use crate::identity::Identity;
use crate::state::{GameState, GameView};

verus! {

/// Creates the game between `player_one` and `player_two`.
///
/// The board shows the opening position, player one is to roll, nothing
/// is borne off and nobody has won. `now` is recorded as the start time.
pub fn handler(
    player_one: Identity,
    player_two: Identity,
    stake_amount: u64,
    now: i64,
    bump: u8,
) -> (game: GameState)
    ensures
        game@ == GameView::opening(player_one, player_two, stake_amount, now, bump),
        game@.wf(),
{
    let mut game = GameState {
        player_one,
        player_two,
        current_turn: player_one,
        board: [0;28],
        dice1: 0,
        dice2: 0,
        dice_rolled: false,
        player_one_off: 0,
        player_two_off: 0,
        winner: None,
        stake_amount,
        game_started: now,
        game_ended: None,
        bump,
    };
    game.initialize_board();
    proof {
        lemma_standard_board_full();
    }
    game
}

} // verus!
