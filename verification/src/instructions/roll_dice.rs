//! Rolling the dice.
//!
//! The two dice are read off a 32-byte random value. [`roll_with`] takes
//! that value from the caller, who may have it from any source.
//! [`handler`] derives it itself, as the SHA-256 digest of a caller-chosen
//! seed followed by a timestamp: a stand-in that anyone who knows both can
//! predict.

use vstd::prelude::*;

use crate::errors::TablaError;
use crate::identity::Identity;
use crate::state::{GameState, GameView};

verus! {

/// The die that one random byte yields: a value in `1..=6`.
pub open spec fn die_from_byte(byte: u8) -> u8 {
    (byte % 6 + 1) as u8
}

/// The `count` low base-256 digits of `value`, least significant first.
pub open spec fn le_digits(value: int, count: nat) -> Seq<u8>
    decreases count,
{
    if count == 0 {
        Seq::empty()
    } else {
        seq![(value % 256) as u8] + le_digits(value / 256, (count - 1) as nat)
    }
}

/// The little-endian two's-complement encoding of a timestamp.
pub open spec fn timestamp_bytes(unix_timestamp: i64) -> Seq<u8> {
    le_digits(
        if unix_timestamp < 0 {
            unix_timestamp + 0x1_0000_0000_0000_0000
        } else {
            unix_timestamp as int
        },
        8,
    )
}

/// What [`handler`] hashes: the seed followed by the encoded timestamp.
pub open spec fn roll_preimage(seed: Seq<u8>, unix_timestamp: i64) -> Seq<u8> {
    seed + timestamp_bytes(unix_timestamp)
}

/// The SHA-256 digest of `data`, as `solana_program::hash::hash` computes it.
pub uninterp spec fn sha256(data: Seq<u8>) -> Seq<u8>;

/// Calls `solana_program::hash::hash` and unpacks the `Hash` it returns
/// with `Hash::to_bytes`. Trusted: the 32 bytes returned are the SHA-256
/// digest of `data`, a function of `data` alone.
#[verifier::external_body]
fn sha256_digest(data: &[u8]) -> (digest: [u8; 32])
    ensures
        digest@ == sha256(data@),
{
    solana_program::hash::hash(data).to_bytes()
}

impl GameView {
    /// Why a roll request of `player` is refused, if it is. The tests are
    /// made in this order: the game is over, it is not the caller's turn,
    /// a roll is already pending.
    pub open spec fn roll_refusal(self, player: Identity) -> Option<TablaError> {
        if self.winner is Some {
            Some(TablaError::GameEnded)
        } else if self.current_turn != player {
            Some(TablaError::NotYourTurn)
        } else if self.dice_rolled {
            Some(TablaError::DiceAlreadyRolled)
        } else {
            None
        }
    }

    /// The game after an accepted roll that showed `die1` and `die2`.
    pub open spec fn after_roll(self, die1: u8, die2: u8) -> GameView {
        GameView { dice1: die1, dice2: die2, dice_rolled: true, ..self }
    }

    /// The game after an accepted roll decided by `randomness`, whose first
    /// two bytes yield the dice.
    pub open spec fn after_roll_with(self, randomness: Seq<u8>) -> GameView {
        self.after_roll(die_from_byte(randomness[0]), die_from_byte(randomness[1]))
    }
}

/// Reads two dice off a random value: its first byte yields the first die,
/// its second byte the second.
pub fn dice_from_randomness(randomness: &[u8; 32]) -> (dice: (u8, u8))
    ensures
        dice.0 == die_from_byte(randomness[0]),
        dice.1 == die_from_byte(randomness[1]),
        1 <= dice.0 <= 6,
        1 <= dice.1 <= 6,
{
    (randomness[0] % 6 + 1, randomness[1] % 6 + 1)
}

/// Decides whether `player` may roll now.
fn check_roll(game: &GameState, player: &Identity) -> (refusal: Option<TablaError>)
    ensures
        refusal == game@.roll_refusal(*player),
{
    if game.winner.is_some() {
        Some(TablaError::GameEnded)
    } else if game.current_turn != *player {
        Some(TablaError::NotYourTurn)
    } else if game.dice_rolled {
        Some(TablaError::DiceAlreadyRolled)
    } else {
        None
    }
}

/// Rolls the dice for `player` from a random value that the caller supplies.
///
/// A refused request changes nothing. An accepted one records the two dice
/// and returns them.
pub fn roll_with(game: &mut GameState, player: &Identity, randomness: &[u8; 32]) -> (result: Result<
    (u8, u8),
    TablaError,
>)
    ensures
        match old(game)@.roll_refusal(*player) {
            Some(refusal) => result == Err::<(u8, u8), TablaError>(refusal) && *final(game) == *old(
                game,
            ),
            None => result == Ok::<(u8, u8), TablaError>(
                (die_from_byte(randomness[0]), die_from_byte(randomness[1])),
            ) && final(game)@ == old(game)@.after_roll_with(randomness@),
        },
        result matches Ok(dice) ==> 1 <= dice.0 <= 6 && 1 <= dice.1 <= 6,
        old(game)@.checkers_accounted() ==> final(game)@.checkers_accounted(),
        old(game)@.wf() ==> final(game)@.wf(),
{
    match check_roll(game, player) {
        Some(refusal) => Err(refusal),
        None => {
            let dice = dice_from_randomness(randomness);
            game.dice1 = dice.0;
            game.dice2 = dice.1;
            game.dice_rolled = true;
            Ok(dice)
        },
    }
}

/// Encodes a timestamp as eight little-endian bytes.
fn encode_timestamp(unix_timestamp: i64) -> (bytes: Vec<u8>)
    ensures
        bytes@ == timestamp_bytes(unix_timestamp),
{
    let unsigned: u64 = if unix_timestamp < 0 {
        (unix_timestamp as i128 + 0x1_0000_0000_0000_0000) as u64
    } else {
        unix_timestamp as u64
    };
    let mut bytes: Vec<u8> = Vec::new();
    let mut rest: u64 = unsigned;
    let mut written: usize = 0;
    while written < 8
        invariant
            written <= 8,
            bytes@.len() == written,
            bytes@ + le_digits(rest as int, (8 - written) as nat) == le_digits(unsigned as int, 8),
        decreases 8 - written,
    {
        let ghost before = bytes@;
        bytes.push((rest % 256) as u8);
        proof {
            let tail = le_digits((rest / 256) as int, (8 - written - 1) as nat);
            assert(le_digits(rest as int, (8 - written) as nat) == seq![(rest % 256) as u8] + tail);
            assert(bytes@ + tail =~= before + (seq![(rest % 256) as u8] + tail));
        }
        rest = rest / 256;
        written += 1;
    }
    assert(bytes@ + le_digits(rest as int, 0) =~= bytes@);
    bytes
}

/// Derives the random value of a roll from a seed and a timestamp: the
/// SHA-256 digest of the seed followed by the little-endian timestamp.
pub fn derive_randomness(seed: &[u8; 32], unix_timestamp: i64) -> (randomness: [u8; 32])
    ensures
        randomness@ == sha256(roll_preimage(seed@, unix_timestamp)),
{
    let mut combined: Vec<u8> = Vec::new();
    let mut i: usize = 0;
    while i < 32
        invariant
            i <= 32,
            combined@ == seed@.subrange(0, i as int),
        decreases 32 - i,
    {
        combined.push(seed[i]);
        i += 1;
    }
    assert(combined@ =~= seed@);
    let mut stamp = encode_timestamp(unix_timestamp);
    combined.append(&mut stamp);
    sha256_digest(combined.as_slice())
}

/// Rolls the dice for `player`, deriving the random value from `seed` and
/// `unix_timestamp` with [`derive_randomness`].
///
/// A refused request changes nothing. An accepted one records the two dice
/// and returns them.
pub fn handler(game: &mut GameState, player: &Identity, seed: &[u8; 32], unix_timestamp: i64) -> (result:
    Result<(u8, u8), TablaError>)
    ensures
        match old(game)@.roll_refusal(*player) {
            Some(refusal) => result == Err::<(u8, u8), TablaError>(refusal) && *final(game) == *old(
                game,
            ),
            None => {
                let randomness = sha256(roll_preimage(seed@, unix_timestamp));
                &&& result == Ok::<(u8, u8), TablaError>(
                    (die_from_byte(randomness[0]), die_from_byte(randomness[1])),
                )
                &&& final(game)@ == old(game)@.after_roll_with(randomness)
            },
        },
        result matches Ok(dice) ==> 1 <= dice.0 <= 6 && 1 <= dice.1 <= 6,
        old(game)@.checkers_accounted() ==> final(game)@.checkers_accounted(),
        old(game)@.wf() ==> final(game)@.wf(),
{
    match check_roll(game, player) {
        Some(refusal) => Err(refusal),
        None => {
            let randomness = derive_randomness(seed, unix_timestamp);
            roll_with(game, player, &randomness)
        },
    }
}

} // verus!
