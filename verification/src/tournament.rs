//! The tournament record: an organizer, an entry fee and a roster.

use vstd::prelude::*;

use crate::identity::Identity;

verus! {

/// A tournament that players register for.
#[derive(Clone, Debug, PartialEq, Eq)]
pub struct Tournament {
    pub organizer: Identity,
    /// What each participant pays on registration.
    pub entry_fee: u64,
    /// Capacity of the roster.
    pub max_participants: u8,
    /// The roster, in order of registration.
    pub participants: Vec<Identity>,
    /// The entry fees collected.
    pub prize_pool: u64,
    pub started: bool,
    pub completed: bool,
    pub created_at: i64,
    pub bump: u8,
}

impl Tournament {
    /// No identity is on the roster twice.
    pub open spec fn roster_unique(&self) -> bool {
        forall|i: int, j: int|
            0 <= i < j < self.participants@.len() ==> self.participants@[i]
                != self.participants@[j]
    }

    /// The roster holds no more than the capacity allows.
    pub open spec fn within_capacity(&self) -> bool {
        self.participants@.len() <= self.max_participants
    }

    /// Well-formedness of a tournament record.
    pub open spec fn wf(&self) -> bool {
        self.roster_unique() && self.within_capacity()
    }

    /// Whether `player` is on the roster.
    pub open spec fn has_participant(&self, player: Identity) -> bool {
        self.participants@.contains(player)
    }

    /// Whether the tournament can begin: at least two participants, and
    /// not begun yet.
    pub fn can_start(&self) -> (ok: bool)
        ensures
            ok == (self.participants@.len() >= 2 && !self.started),
    {
        self.participants.len() >= 2 && !self.started
    }

    /// Whether the roster is at capacity.
    pub fn is_full(&self) -> (full: bool)
        ensures
            full == (self.participants@.len() >= self.max_participants),
    {
        self.participants.len() >= self.max_participants as usize
    }

    /// Whether `player` is on the roster.
    pub fn is_registered(&self, player: &Identity) -> (found: bool)
        ensures
            found == self.has_participant(*player),
    {
        let mut i: usize = 0;
        while i < self.participants.len()
            invariant
                i <= self.participants@.len(),
                forall|k: int| 0 <= k < i ==> self.participants@[k] != *player,
            decreases self.participants@.len() - i,
        {
            if self.participants[i] == *player {
                return true;
            }
            i += 1;
        }
        false
    }
}

} // verus!
