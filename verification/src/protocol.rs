//! The turn protocol as a pure transition function, and what holds of
//! every run of it.

use vstd::prelude::*;

use crate::board::{lemma_standard_board_full, TOTAL_CHECKERS};
use crate::errors::TablaError;
use crate::escrow::{lemma_split_bounds, platform_fee, pooled_stake, winner_payout};
use crate::identity::Identity;
use crate::state::{lemma_moved_accounted, GameView};

verus! {

/// A request that a player makes of a game.
pub enum Request {
    /// Roll the dice, with the random value that decides them.
    Roll { player: Identity, randomness: Seq<u8> },
    /// Move a checker from `from` to `to` at time `now`.
    Move { player: Identity, from: u8, to: u8, now: i64 },
}

impl GameView {
    /// Why `request` is refused, if it is.
    pub open spec fn refusal(self, request: Request) -> Option<TablaError> {
        match request {
            Request::Roll { player, .. } => self.roll_refusal(player),
            Request::Move { player, from, to, .. } => self.move_refusal(player, from, to),
        }
    }

    /// The game after `request`: rewritten as the request asks where it is
    /// accepted, unchanged where it is refused.
    pub open spec fn respond(self, request: Request) -> GameView {
        if self.refusal(request) is Some {
            self
        } else {
            match request {
                Request::Roll { randomness, .. } => self.after_roll_with(randomness),
                Request::Move { player, from, to, now } => self.after_move(player, from, to, now),
            }
        }
    }

    /// The game after a sequence of requests, taken in order.
    pub open spec fn run(self, requests: Seq<Request>) -> GameView
        decreases requests.len(),
    {
        if requests.len() == 0 {
            self
        } else {
            self.respond(requests.first()).run(requests.drop_first())
        }
    }

    /// Whether `request` is a move that the game accepts.
    pub open spec fn accepts_move(self, request: Request) -> bool {
        request is Move && self.refusal(request) is None
    }
}

/// Whether no request of the sequence, taken in order from `game`, is an
/// accepted move.
pub open spec fn no_move_accepted(game: GameView, requests: Seq<Request>) -> bool
    decreases requests.len(),
{
    requests.len() == 0 || (!game.accepts_move(requests.first()) && no_move_accepted(
        game.respond(requests.first()),
        requests.drop_first(),
    ))
}

/// One request, accepted or refused, keeps a well-formed game well-formed
/// and its thirty checkers accounted for.
pub proof fn lemma_respond_keeps_wf(game: GameView, request: Request)
    requires
        game.wf(),
    ensures
        game.respond(request).wf(),
        game.respond(request).checkers() == TOTAL_CHECKERS,
{
    if game.refusal(request) is None {
        match request {
            Request::Roll { .. } => {},
            Request::Move { player, from, to, .. } => {
                lemma_moved_accounted(game, from, to, player);
            },
        }
    }
}

/// Checker conservation: whatever is asked of a well-formed game, in
/// whatever order, the checkers on the points, on the bars and borne off
/// stay thirty in all, and the game stays well-formed.
pub proof fn lemma_checkers_conserved(game: GameView, requests: Seq<Request>)
    requires
        game.wf(),
    ensures
        game.run(requests).wf(),
        game.run(requests).checkers() == TOTAL_CHECKERS,
    decreases requests.len(),
{
    if requests.len() > 0 {
        lemma_respond_keeps_wf(game, requests.first());
        lemma_checkers_conserved(game.respond(requests.first()), requests.drop_first());
    }
}

/// Checker conservation from the start: every game that was created and
/// then asked anything, in whatever order, is well-formed and holds
/// thirty checkers.
pub proof fn lemma_every_game_conserves(
    player_one: Identity,
    player_two: Identity,
    stake_amount: u64,
    started: i64,
    bump: u8,
    requests: Seq<Request>,
)
    ensures
        GameView::opening(player_one, player_two, stake_amount, started, bump).wf(),
        GameView::opening(player_one, player_two, stake_amount, started, bump).run(requests).wf(),
        GameView::opening(player_one, player_two, stake_amount, started, bump).run(
            requests,
        ).checkers() == TOTAL_CHECKERS,
{
    lemma_standard_board_full();
    lemma_checkers_conserved(
        GameView::opening(player_one, player_two, stake_amount, started, bump),
        requests,
    );
}

/// Turn alternation, one move: an accepted move is made by the player
/// whose turn it is, and unless it ends the game the turn then lies with
/// the other player.
pub proof fn lemma_turn_passes(game: GameView, player: Identity, from: u8, to: u8, now: i64)
    requires
        game.player_one != game.player_two,
        game.move_refusal(player, from, to) is None,
        game.after_move(player, from, to, now).winner is None,
    ensures
        player == game.current_turn,
        game.after_move(player, from, to, now).current_turn == game.opponent_of(player),
        game.after_move(player, from, to, now).current_turn != player,
{
}

/// Requests among which no move is accepted leave the turn where it is,
/// and leave a game without a winner without one.
pub proof fn lemma_turn_waits(game: GameView, requests: Seq<Request>)
    requires
        no_move_accepted(game, requests),
    ensures
        game.run(requests).current_turn == game.current_turn,
        game.run(requests).winner == game.winner,
        game.run(requests).player_one == game.player_one,
        game.run(requests).player_two == game.player_two,
    decreases requests.len(),
{
    if requests.len() > 0 {
        lemma_turn_waits(game.respond(requests.first()), requests.drop_first());
    }
}

/// Turn alternation, two moves: after an accepted move of `first_mover`
/// that does not end the game, and any requests among which no move is
/// accepted, the next accepted move is made by the other player.
pub proof fn lemma_no_two_moves_in_a_row(
    game: GameView,
    first_mover: Identity,
    from: u8,
    to: u8,
    now: i64,
    between: Seq<Request>,
    next_mover: Identity,
    next_from: u8,
    next_to: u8,
)
    requires
        game.player_one != game.player_two,
        game.move_refusal(first_mover, from, to) is None,
        game.after_move(first_mover, from, to, now).winner is None,
        no_move_accepted(game.after_move(first_mover, from, to, now), between),
        game.after_move(first_mover, from, to, now).run(between).move_refusal(
            next_mover,
            next_from,
            next_to,
        ) is None,
    ensures
        next_mover != first_mover,
        next_mover == game.opponent_of(first_mover),
{
    lemma_turn_passes(game, first_mover, from, to, now);
    lemma_turn_waits(game.after_move(first_mover, from, to, now), between);
}

/// Roll gating, at the start: in a game just created any move request of
/// player one, whose turn it is, is refused because the dice were not
/// rolled. Anyone else is refused because it is not their turn.
pub proof fn lemma_new_game_awaits_roll(
    player_one: Identity,
    player_two: Identity,
    stake_amount: u64,
    started: i64,
    bump: u8,
    caller: Identity,
    from: u8,
    to: u8,
)
    ensures
        GameView::opening(player_one, player_two, stake_amount, started, bump).move_refusal(
            caller,
            from,
            to,
        ) == Some(
            if caller == player_one {
                TablaError::DiceNotRolled
            } else {
                TablaError::NotYourTurn
            },
        ),
{
}

/// Roll gating, between moves: after an accepted move that does not end
/// the game, any move request of the player whose turn it now is is
/// refused because the dice were not rolled. Anyone else is refused
/// because it is not their turn.
pub proof fn lemma_move_consumes_roll(
    game: GameView,
    player: Identity,
    from: u8,
    to: u8,
    now: i64,
    caller: Identity,
    next_from: u8,
    next_to: u8,
)
    requires
        game.move_refusal(player, from, to) is None,
        game.after_move(player, from, to, now).winner is None,
    ensures
        !game.after_move(player, from, to, now).dice_rolled,
        game.after_move(player, from, to, now).move_refusal(caller, next_from, next_to) == Some(
            if caller == game.after_move(player, from, to, now).current_turn {
                TablaError::DiceNotRolled
            } else {
                TablaError::NotYourTurn
            },
        ),
{
}

/// Terminal immutability: a game that has a winner refuses every request
/// with `GameEnded`, and no sequence of requests changes anything in it.
pub proof fn lemma_finished_is_final(game: GameView, requests: Seq<Request>)
    requires
        game.winner is Some,
    ensures
        forall|request: Request| #[trigger]
            game.refusal(request) == Some(TablaError::GameEnded),
        game.run(requests) == game,
    decreases requests.len(),
{
    assert forall|request: Request| #[trigger]
        game.refusal(request) == Some(TablaError::GameEnded) by {
        match request {
            Request::Roll { .. } => {},
            Request::Move { .. } => {},
        }
    }
    if requests.len() > 0 {
        assert(game.respond(requests.first()) == game);
        lemma_finished_is_final(game, requests.drop_first());
    }
}

/// Settlement correctness: of the pooled stake of two players who staked
/// `stake` each, the platform's fee is five percent rounded down, and fee
/// and payout together are the pooled stake exactly.
pub proof fn lemma_settlement_exact(stake: nat)
    ensures
        platform_fee(pooled_stake(stake as int)) == (2 * stake * 500) / 10000,
        0 <= platform_fee(pooled_stake(stake as int)) <= pooled_stake(stake as int),
        winner_payout(pooled_stake(stake as int)) + platform_fee(pooled_stake(stake as int)) == 2
            * stake,
        winner_payout(pooled_stake(stake as int)) >= 0,
{
    lemma_split_bounds(pooled_stake(stake as int));
}

} // verus!
