//! The game record, its mathematical view, and the rules that read and
//! rewrite it: move legality, move execution and win detection.

use vstd::prelude::*;

use crate::board::{
    board_after_move, board_shape, checkers_on, checkers_on_board, legal_move,
    lemma_checkers_on_nonnegative, lemma_move_conserves, lemma_slot_bounded, standard_board,
    BAR_ONE, BAR_TWO, CHECKERS_PER_SIDE, POINTS, TOTAL_CHECKERS,
};
use crate::identity::Identity;

verus! {

/// One game of backgammon between two players.
#[derive(Clone, Copy, Debug, PartialEq, Eq)]
pub struct GameState {
    pub player_one: Identity,
    pub player_two: Identity,
    /// The player who rolls and moves next.
    pub current_turn: Identity,
    /// See [`crate::board`] for the meaning of the slots.
    pub board: [i8; 28],
    /// First die, `0` while no roll is pending.
    pub dice1: u8,
    /// Second die, `0` while no roll is pending.
    pub dice2: u8,
    /// Whether the dice were rolled and not yet used by a move.
    pub dice_rolled: bool,
    /// Checkers player one has borne off.
    pub player_one_off: u8,
    /// Checkers player two has borne off.
    pub player_two_off: u8,
    pub winner: Option<Identity>,
    /// What each player staked.
    pub stake_amount: u64,
    pub game_started: i64,
    pub game_ended: Option<i64>,
    pub bump: u8,
}

/// Where a game stands in its turn protocol.
#[derive(Clone, Copy, Debug, PartialEq, Eq)]
pub enum Phase {
    /// `player` has to roll the dice.
    AwaitingRoll { player: Identity },
    /// `player` rolled `die1` and `die2` and has to move.
    AwaitingMove { player: Identity, die1: u8, die2: u8 },
    /// The game is over.
    Finished { winner: Identity },
}

/// The mathematical view of a [`GameState`]: the same fields, with the
/// board as a sequence.
pub struct GameView {
    pub player_one: Identity,
    pub player_two: Identity,
    pub current_turn: Identity,
    pub board: Seq<i8>,
    pub dice1: u8,
    pub dice2: u8,
    pub dice_rolled: bool,
    pub player_one_off: u8,
    pub player_two_off: u8,
    pub winner: Option<Identity>,
    pub stake_amount: u64,
    pub game_started: i64,
    pub game_ended: Option<i64>,
    pub bump: u8,
}

impl View for GameState {
    type V = GameView;

    open spec fn view(&self) -> GameView {
        GameView {
            player_one: self.player_one,
            player_two: self.player_two,
            current_turn: self.current_turn,
            board: self.board@,
            dice1: self.dice1,
            dice2: self.dice2,
            dice_rolled: self.dice_rolled,
            player_one_off: self.player_one_off,
            player_two_off: self.player_two_off,
            winner: self.winner,
            stake_amount: self.stake_amount,
            game_started: self.game_started,
            game_ended: self.game_ended,
            bump: self.bump,
        }
    }
}

impl GameView {
    /// A game as it is right after creation: the opening position, player
    /// one to roll, nothing borne off, no winner.
    pub open spec fn opening(
        player_one: Identity,
        player_two: Identity,
        stake_amount: u64,
        now: i64,
        bump: u8,
    ) -> GameView {
        GameView {
            player_one,
            player_two,
            current_turn: player_one,
            board: standard_board(),
            dice1: 0,
            dice2: 0,
            dice_rolled: false,
            player_one_off: 0,
            player_two_off: 0,
            winner: None,
            stake_amount,
            game_started: now,
            game_ended: None,
            bump,
        }
    }

    /// All checkers of the game: those on the points, on the bars, and
    /// those borne off.
    pub open spec fn checkers(self) -> int {
        checkers_on_board(self.board) + self.player_one_off + self.player_two_off
    }

    /// The conservation invariant: the board has its shape and the game
    /// holds exactly thirty checkers.
    pub open spec fn checkers_accounted(self) -> bool {
        &&& board_shape(self.board)
        &&& self.checkers() == TOTAL_CHECKERS
    }

    /// The dice agree with the roll flag: both in `1..=6` while a roll is
    /// pending, both `0` otherwise.
    pub open spec fn dice_coherent(self) -> bool {
        if self.dice_rolled {
            1 <= self.dice1 <= 6 && 1 <= self.dice2 <= 6
        } else {
            self.dice1 == 0 && self.dice2 == 0
        }
    }

    /// Well-formedness of a game record.
    pub open spec fn wf(self) -> bool {
        &&& self.checkers_accounted()
        &&& self.player_one_off <= CHECKERS_PER_SIDE
        &&& self.player_two_off <= CHECKERS_PER_SIDE
        &&& (self.current_turn == self.player_one || self.current_turn == self.player_two)
        &&& self.dice_coherent()
    }

    /// The phase of the turn protocol that the record encodes.
    pub open spec fn phase(self) -> Phase {
        match self.winner {
            Some(winner) => Phase::Finished { winner },
            None => if self.dice_rolled {
                Phase::AwaitingMove { player: self.current_turn, die1: self.dice1, die2: self.dice2 }
            } else {
                Phase::AwaitingRoll { player: self.current_turn }
            },
        }
    }

    /// Whether `player` plays the positive checkers. Anyone but player one
    /// is taken to play the negative ones.
    pub open spec fn plays_first(self, player: Identity) -> bool {
        player == self.player_one
    }

    /// Whether moving a checker from `from` to `to` is legal for `player`.
    pub open spec fn allows(self, from: u8, to: u8, player: Identity) -> bool {
        legal_move(self.board, from as int, to as int, self.plays_first(player))
    }

    /// The record with its board replaced.
    pub open spec fn with_board(self, board: Seq<i8>) -> GameView {
        GameView { board, ..self }
    }

    /// The record after `player` moved a checker from `from` to `to`;
    /// only the board differs.
    pub open spec fn moved(self, from: u8, to: u8, player: Identity) -> GameView {
        self.with_board(
            board_after_move(self.board, from as int, to as int, self.plays_first(player)),
        )
    }

    /// The player who has borne off all fifteen checkers, player one first.
    pub open spec fn winner_by_count(self) -> Option<Identity> {
        if self.player_one_off == CHECKERS_PER_SIDE {
            Some(self.player_one)
        } else if self.player_two_off == CHECKERS_PER_SIDE {
            Some(self.player_two)
        } else {
            None
        }
    }

    /// The identity that is not `player` among the two players; player one
    /// for anyone but player one.
    pub open spec fn opponent_of(self, player: Identity) -> Identity {
        if player == self.player_one {
            self.player_two
        } else {
            self.player_one
        }
    }
}

/// A legal move keeps the conservation invariant.
pub proof fn lemma_moved_accounted(game: GameView, from: u8, to: u8, player: Identity)
    requires
        game.checkers_accounted(),
        game.allows(from, to, player),
    ensures
        game.moved(from, to, player).checkers_accounted(),
        game.moved(from, to, player).checkers() == game.checkers(),
{
    lemma_move_conserves(game.board, from as int, to as int, game.plays_first(player));
}

impl GameState {
    /// Sets the board to the opening position: player one holds points
    /// 1, 12, 17 and 19 with 2, 5, 3 and 5 checkers, player two holds
    /// points 24, 13, 8 and 6 with as many; everything else is empty.
    pub fn initialize_board(&mut self)
        ensures
            final(self)@ == old(self)@.with_board(standard_board()),
    {
        let mut board: [i8; 28] = [0;28];
        board[0] = 2;
        board[11] = 5;
        board[16] = 3;
        board[18] = 5;
        board[23] = -2;
        board[12] = -5;
        board[7] = -3;
        board[5] = -5;
        assert(board@ =~= standard_board());
        self.board = board;
    }

    /// Decides whether `player` may move a checker from `from` to `to`.
    ///
    /// Both indices must name one of the 24 points, the source must carry a
    /// checker of `player`, and the destination must not hold two or more
    /// checkers of the other side. Dice, direction of travel and the bar
    /// are not consulted.
    pub fn is_valid_move(&self, from: u8, to: u8, player: &Identity) -> (ok: bool)
        ensures
            ok == self@.allows(from, to, *player),
    {
        let from_idx = from as usize;
        let to_idx = to as usize;

        if from_idx >= POINTS || to_idx >= POINTS {
            return false;
        }
        let is_player_one = *player == self.player_one;
        let board_position = self.board[from_idx];

        if is_player_one && board_position <= 0 {
            return false;
        }
        if !is_player_one && board_position >= 0 {
            return false;
        }
        let dest_position = self.board[to_idx];
        if is_player_one && dest_position < -1 {
            return false;
        }
        if !is_player_one && dest_position > 1 {
            return false;
        }
        true
    }

    /// Moves one checker of `player` from `from` to `to`.
    ///
    /// The move must be legal; legality is not tested again here. A single
    /// opposing checker on the destination is sent to its owner's bar.
    pub fn execute_move(&mut self, from: u8, to: u8, player: &Identity)
        requires
            old(self)@.checkers_accounted(),
            old(self)@.allows(from, to, *player),
        ensures
            final(self)@ == old(self)@.moved(from, to, *player),
            final(self)@.checkers_accounted(),
    {
        let from_idx = from as usize;
        let to_idx = to as usize;
        let is_player_one = *player == self.player_one;
        proof {
            let points = POINTS as int;
            lemma_checkers_on_nonnegative(self.board@, points);
            lemma_slot_bounded(self.board@, points, from as int);
            lemma_slot_bounded(self.board@, points, to as int);
            lemma_moved_accounted(self@, from, to, *player);
        }
        if is_player_one {
            self.board[from_idx] = self.board[from_idx] - 1;
            self.board[to_idx] = self.board[to_idx] + 1;
            if self.board[to_idx] == 0 {
                self.board[to_idx] = 1;
                self.board[BAR_TWO] = self.board[BAR_TWO] + 1;
            }
        } else {
            self.board[from_idx] = self.board[from_idx] + 1;
            self.board[to_idx] = self.board[to_idx] - 1;
            if self.board[to_idx] == 0 {
                self.board[to_idx] = -1;
                self.board[BAR_ONE] = self.board[BAR_ONE] + 1;
            }
        }
        assert(self.board@ =~= old(self)@.moved(from, to, *player).board);
    }

    /// Names the winner, if there is one: player one once fifteen of their
    /// checkers are off the board, else player two on the same condition.
    pub fn check_winner(&self) -> (winner: Option<Identity>)
        ensures
            winner == self@.winner_by_count(),
    {
        if self.player_one_off == CHECKERS_PER_SIDE {
            Some(self.player_one)
        } else if self.player_two_off == CHECKERS_PER_SIDE {
            Some(self.player_two)
        } else {
            None
        }
    }

    /// The phase of the turn protocol the game is in.
    pub fn phase(&self) -> (phase: Phase)
        ensures
            phase == self@.phase(),
    {
        match self.winner {
            Some(winner) => Phase::Finished { winner },
            None => if self.dice_rolled {
                Phase::AwaitingMove { player: self.current_turn, die1: self.dice1, die2: self.dice2 }
            } else {
                Phase::AwaitingRoll { player: self.current_turn }
            },
        }
    }

    /// Counts the checkers on the 24 points.
    fn count_points(&self) -> (count: i32)
        ensures
            count == checkers_on(self.board@, POINTS as int),
            0 <= count <= 128 * POINTS,
    {
        let mut count: i32 = 0;
        let mut i: usize = 0;
        while i < POINTS
            invariant
                i <= POINTS,
                count == checkers_on(self.board@, i as int),
                0 <= count <= 128 * i,
            decreases POINTS - i,
        {
            let v = self.board[i] as i32;
            count = count + if v < 0 {
                -v
            } else {
                v
            };
            i += 1;
        }
        count
    }

    /// Counts the checkers of the game: those on the points, on the two
    /// bars, and those borne off.
    pub fn checkers(&self) -> (count: i32)
        ensures
            count == self@.checkers(),
    {
        self.count_points() + self.board[BAR_TWO] as i32 + self.board[BAR_ONE] as i32
            + self.player_one_off as i32 + self.player_two_off as i32
    }

    /// Tests well-formedness: thirty checkers in all, bars not negative,
    /// at most fifteen borne off per side, the turn with one of the two
    /// players, and dice that agree with the roll flag.
    pub fn is_well_formed(&self) -> (ok: bool)
        ensures
            ok == self@.wf(),
    {
        let dice_ok = if self.dice_rolled {
            1 <= self.dice1 && self.dice1 <= 6 && 1 <= self.dice2 && self.dice2 <= 6
        } else {
            self.dice1 == 0 && self.dice2 == 0
        };
        self.board[BAR_TWO] >= 0 && self.board[BAR_ONE] >= 0 && self.checkers()
            == TOTAL_CHECKERS as i32 && self.player_one_off <= CHECKERS_PER_SIDE
            && self.player_two_off <= CHECKERS_PER_SIDE && (self.current_turn == self.player_one
            || self.current_turn == self.player_two) && dice_ok
    }
}

} // verus!
