//! Creating a tournament.

use vstd::prelude::*;

use crate::identity::Identity;
use crate::tournament::Tournament;

verus! {

/// Creates the tournament of `organizer`: nobody registered, nothing
/// collected, neither started nor completed. `now` is recorded as the
/// time of creation.
pub fn handler(organizer: Identity, entry_fee: u64, max_participants: u8, now: i64, bump: u8) -> (tournament:
    Tournament)
    ensures
        tournament.organizer == organizer,
        tournament.entry_fee == entry_fee,
        tournament.max_participants == max_participants,
        tournament.participants@ == Seq::<Identity>::empty(),
        tournament.prize_pool == 0,
        !tournament.started,
        !tournament.completed,
        tournament.created_at == now,
        tournament.bump == bump,
        tournament.wf(),
{
    Tournament {
        organizer,
        entry_fee,
        max_participants,
        participants: Vec::new(),
        prize_pool: 0,
        started: false,
        completed: false,
        created_at: now,
        bump,
    }
}

} // verus!
