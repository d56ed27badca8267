//! The board model: 28 signed slots, what they mean, and how a single
//! checker move rewrites them.
//!
//! Slots `0..24` are the playable points. A positive value is that many
//! checkers of player one, a negative value that many of player two.
//! Slot 24 counts the checkers of player two that were hit and wait on the
//! bar, slot 25 those of player one; both only ever grow. Slots 26 and 27
//! are reserved: checkers borne off are counted outside the board.

use vstd::prelude::*;

verus! {

/// Number of slots of a board.
pub const BOARD_SLOTS: usize = 28;

/// Number of playable points; they occupy the slots below this index.
pub const POINTS: usize = 24;

/// Slot counting the hit checkers of player two.
pub const BAR_TWO: usize = 24;

/// Slot counting the hit checkers of player one.
pub const BAR_ONE: usize = 25;

/// Checkers each player owns.
pub const CHECKERS_PER_SIDE: u8 = 15;

/// Checkers in play, both sides together.
pub const TOTAL_CHECKERS: u8 = 30;

/// Absolute value.
pub open spec fn magnitude(v: int) -> int {
    if v < 0 {
        -v
    } else {
        v
    }
}

/// Checkers standing on the first `n` slots of `board`, whoever owns them.
pub open spec fn checkers_on(board: Seq<i8>, n: int) -> int
    decreases n,
{
    if n <= 0 {
        0
    } else {
        checkers_on(board, n - 1) + magnitude(board[n - 1] as int)
    }
}

/// Checkers on the 24 points and on the two bars.
pub open spec fn checkers_on_board(board: Seq<i8>) -> int {
    checkers_on(board, POINTS as int) + board[BAR_TWO as int] + board[BAR_ONE as int]
}

/// A board has 28 slots and its two bar counters are not negative.
pub open spec fn board_shape(board: Seq<i8>) -> bool {
    &&& board.len() == BOARD_SLOTS
    &&& board[BAR_TWO as int] >= 0
    &&& board[BAR_ONE as int] >= 0
}

/// The value of slot `i` in the opening position.
pub open spec fn standard_slot(i: int) -> int {
    if i == 0 {
        2
    } else if i == 11 {
        5
    } else if i == 16 {
        3
    } else if i == 18 {
        5
    } else if i == 23 {
        -2
    } else if i == 12 {
        -5
    } else if i == 7 {
        -3
    } else if i == 5 {
        -5
    } else {
        0
    }
}

/// The opening position of backgammon.
pub open spec fn standard_board() -> Seq<i8> {
    Seq::new(BOARD_SLOTS as nat, |i: int| standard_slot(i) as i8)
}

/// Whether a slot holding `v` carries a checker of the given side.
pub open spec fn owned_by(v: i8, first: bool) -> bool {
    if first {
        v > 0
    } else {
        v < 0
    }
}

/// Whether a slot holding `v` is closed to the given side: two or more
/// checkers of the other side stand on it.
pub open spec fn blocked_for(v: i8, first: bool) -> bool {
    if first {
        v < -1
    } else {
        v > 1
    }
}

/// The legality rule for one checker move of the given side: both indices
/// name a point, the source carries a checker of the mover, and the
/// destination is not closed to the mover.
pub open spec fn legal_move(board: Seq<i8>, from: int, to: int, first: bool) -> bool {
    &&& 0 <= from < POINTS
    &&& 0 <= to < POINTS
    &&& owned_by(board[from], first)
    &&& !blocked_for(board[to], first)
}

/// Whether the move lands on a single checker of the other side.
pub open spec fn is_hit(board: Seq<i8>, from: int, to: int, first: bool) -> bool {
    from != to && board[to] == (if first {
        -1int
    } else {
        1int
    })
}

/// The board after the given side moved one checker from `from` to `to`.
///
/// The source loses one checker of the mover and the destination gains one.
/// Where the destination held a single checker of the other side, that
/// checker leaves for its owner's bar and the mover's checker holds the
/// point alone.
pub open spec fn board_after_move(board: Seq<i8>, from: int, to: int, first: bool) -> Seq<i8> {
    let step: int = if first {
        1
    } else {
        -1
    };
    let lifted = board.update(from, (board[from] - step) as i8);
    if is_hit(board, from, to, first) {
        let bar: int = if first {
            BAR_TWO as int
        } else {
            BAR_ONE as int
        };
        lifted.update(to, step as i8).update(bar, (board[bar] + 1) as i8)
    } else {
        lifted.update(to, (lifted[to] + step) as i8)
    }
}

/// No slot among the first `n` holds more checkers than all of them together.
pub proof fn lemma_slot_bounded(board: Seq<i8>, n: int, i: int)
    requires
        0 <= i < n,
    ensures
        magnitude(board[i] as int) <= checkers_on(board, n),
        0 <= checkers_on(board, n),
    decreases n,
{
    lemma_checkers_on_nonnegative(board, n - 1);
    if i < n - 1 {
        lemma_slot_bounded(board, n - 1, i);
    }
}

/// A count of checkers is never negative.
pub proof fn lemma_checkers_on_nonnegative(board: Seq<i8>, n: int)
    ensures
        0 <= checkers_on(board, n),
    decreases n,
{
    if n > 0 {
        lemma_checkers_on_nonnegative(board, n - 1);
    }
}

/// Rewriting slot `i` changes the count over the first `n` slots by the
/// change in that slot's magnitude, and not at all when `i` lies beyond them.
pub proof fn lemma_checkers_on_update(board: Seq<i8>, n: int, i: int, v: i8)
    requires
        0 <= i < board.len(),
        0 <= n <= board.len(),
    ensures
        checkers_on(board.update(i, v), n) == if i < n {
            checkers_on(board, n) - magnitude(board[i] as int) + magnitude(v as int)
        } else {
            checkers_on(board, n)
        },
    decreases n,
{
    if n > 0 {
        lemma_checkers_on_update(board, n - 1, i, v);
    }
}

/// The opening position holds all thirty checkers on its points.
pub proof fn lemma_standard_board_full()
    ensures
        board_shape(standard_board()),
        checkers_on(standard_board(), POINTS as int) == TOTAL_CHECKERS,
        checkers_on_board(standard_board()) == TOTAL_CHECKERS,
{
    let b = standard_board();
    assert(checkers_on(b, 6) == 7) by {
        reveal_with_fuel(checkers_on, 7);
    }
    assert(checkers_on(b, 12) == 15) by {
        reveal_with_fuel(checkers_on, 7);
    }
    assert(checkers_on(b, 18) == 23) by {
        reveal_with_fuel(checkers_on, 7);
    }
    assert(checkers_on(b, 24) == 30) by {
        reveal_with_fuel(checkers_on, 7);
    }
}

/// A legal move on a board whose points and bars hold at most thirty
/// checkers keeps the shape of the board and neither adds nor removes a
/// checker.
pub proof fn lemma_move_conserves(board: Seq<i8>, from: int, to: int, first: bool)
    requires
        board_shape(board),
        checkers_on_board(board) <= TOTAL_CHECKERS,
        legal_move(board, from, to, first),
    ensures
        board_shape(board_after_move(board, from, to, first)),
        checkers_on_board(board_after_move(board, from, to, first)) == checkers_on_board(board),
{
    let step: int = if first {
        1
    } else {
        -1
    };
    let points = POINTS as int;
    lemma_slot_bounded(board, points, from);
    lemma_slot_bounded(board, points, to);
    let lifted = board.update(from, (board[from] - step) as i8);
    lemma_checkers_on_update(board, points, from, (board[from] - step) as i8);
    if is_hit(board, from, to, first) {
        let bar: int = if first {
            BAR_TWO as int
        } else {
            BAR_ONE as int
        };
        let taken = lifted.update(to, step as i8);
        lemma_checkers_on_update(lifted, points, to, step as i8);
        lemma_checkers_on_update(taken, points, bar, (board[bar] + 1) as i8);
    } else {
        lemma_checkers_on_update(lifted, points, to, (lifted[to] + step) as i8);
    }
}

} // verus!
