//! The operations of the program, one module each. Every `handler` takes
//! plain values and the records it works on; reading the clock, moving
//! funds and loading or storing records is left to the caller.

pub mod claim_winnings;
pub mod create_tournament;
pub mod initialize_game;
pub mod make_move;
pub mod register_tournament;
pub mod roll_dice;
