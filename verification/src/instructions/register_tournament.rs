//! Registering for a tournament.

use vstd::prelude::*;

use crate::errors::TablaError;
use crate::identity::Identity;
use crate::tournament::Tournament;

verus! {

impl Tournament {
    /// Why a registration of `player` is refused, if it is. The tests are
    /// made in this order: the roster is at capacity, the tournament has
    /// started, the player is on the roster already.
    pub open spec fn registration_refusal(&self, player: Identity) -> Option<TablaError> {
        if self.participants@.len() >= self.max_participants {
            Some(TablaError::TournamentFull)
        } else if self.started {
            Some(TablaError::TournamentStarted)
        } else if self.has_participant(player) {
            Some(TablaError::TournamentStarted)
        } else {
            None
        }
    }
}

/// Puts `player` on the roster and adds the entry fee to the prize pool.
///
/// A refused registration changes nothing. The caller collects the fee.
/// The prize pool must be able to hold one more fee.
pub fn handler(tournament: &mut Tournament, player: &Identity) -> (result: Result<(), TablaError>)
    requires
        old(tournament).registration_refusal(*player) is None ==> old(tournament).prize_pool + old(
            tournament,
        ).entry_fee <= u64::MAX,
    ensures
        match old(tournament).registration_refusal(*player) {
            Some(refusal) => result == Err::<(), TablaError>(refusal) && *final(tournament) == *old(
                tournament,
            ),
            None => {
                &&& result is Ok
                &&& final(tournament).participants@ == old(tournament).participants@.push(*player)
                &&& final(tournament).prize_pool == old(tournament).prize_pool + old(
                    tournament,
                ).entry_fee
                &&& final(tournament).organizer == old(tournament).organizer
                &&& final(tournament).entry_fee == old(tournament).entry_fee
                &&& final(tournament).max_participants == old(tournament).max_participants
                &&& final(tournament).started == old(tournament).started
                &&& final(tournament).completed == old(tournament).completed
                &&& final(tournament).created_at == old(tournament).created_at
                &&& final(tournament).bump == old(tournament).bump
            },
        },
        old(tournament).roster_unique() ==> final(tournament).roster_unique(),
        old(tournament).within_capacity() ==> final(tournament).within_capacity(),
{
    if tournament.is_full() {
        return Err(TablaError::TournamentFull);
    }
    if tournament.started {
        return Err(TablaError::TournamentStarted);
    }
    if tournament.is_registered(player) {
        return Err(TablaError::TournamentStarted);
    }
    if tournament.entry_fee > 0 {
        tournament.prize_pool = tournament.prize_pool + tournament.entry_fee;
    }
    tournament.participants.push(*player);
    Ok(())
}

} // verus!
