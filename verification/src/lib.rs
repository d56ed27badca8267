//! A two-player backgammon engine with staked settlement.
//!
//! The engine keeps the record of a game, decides which rolls and moves it
//! accepts, carries them out, detects the winner, and splits the pooled
//! stake between the winner and the platform. It reads no clock and moves
//! no funds: callers hand in timestamps and random values, and pay out what
//! the settlement returns.
//!
//! * [`board`]: the 28 slots of a board and the effect of one move on them.
//! * [`state`]: the game record with move legality, move execution and win
//!   detection.
//! * [`instructions`]: the operations on the records, one module each.
//! * [`protocol`]: the turn protocol as a transition function, with proofs
//!   of what holds of every run.
//! * [`escrow`]: the pooled stake and its split.
//! * [`tournament`]: the tournament roster.
//! * [`identity`], [`errors`]: account keys and failure kinds.

pub mod board;
pub mod errors;
pub mod escrow;
pub mod identity;
pub mod instructions;
pub mod protocol;
pub mod state;
pub mod tournament;
