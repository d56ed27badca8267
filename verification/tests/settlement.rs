use tabla_game::errors::TablaError;
use tabla_game::escrow::{split_pot, Escrow, Settlement};
use tabla_game::identity::Identity;
use tabla_game::instructions::{claim_winnings, initialize_game};
use tabla_game::state::GameState;

fn alice() -> Identity {
    Identity::new([1u8; 32])
}

fn bob() -> Identity {
    Identity::new([2u8; 32])
}

fn won_by_alice(stake: u64) -> GameState {
    let mut game = initialize_game::handler(alice(), bob(), stake, 100, 1);
    game.board = [0i8; 28];
    game.board[20] = -15;
    game.player_one_off = 15;
    game.winner = game.check_winner();
    game.game_ended = Some(200);
    game
}

#[test]
fn win_and_claim() {
    let mut game = initialize_game::handler(alice(), bob(), 1_000_000, 100, 1);
    game.player_one_off = 15;
    assert_eq!(game.check_winner(), Some(alice()));

    let game = won_by_alice(1_000_000);
    let mut escrow = Escrow::for_stake(1_000_000).unwrap();
    assert_eq!(escrow, Escrow { amount: 2_000_000, claimed: false });
    assert_eq!(
        claim_winnings::handler(&game, &mut escrow, &alice()),
        Ok(Settlement { winner_payout: 1_900_000, platform_fee: 100_000 })
    );
    assert_eq!(escrow, Escrow { amount: 0, claimed: true });
}

#[test]
fn split_is_five_percent_rounded_down() {
    assert_eq!(split_pot(2_000_000), Settlement { winner_payout: 1_900_000, platform_fee: 100_000 });
    assert_eq!(split_pot(0), Settlement { winner_payout: 0, platform_fee: 0 });
    assert_eq!(split_pot(19), Settlement { winner_payout: 19, platform_fee: 0 });
    assert_eq!(split_pot(20), Settlement { winner_payout: 19, platform_fee: 1 });
    assert_eq!(split_pot(39), Settlement { winner_payout: 38, platform_fee: 1 });
    assert_eq!(split_pot(40), Settlement { winner_payout: 38, platform_fee: 2 });
    assert_eq!(split_pot(1_999), Settlement { winner_payout: 1_900, platform_fee: 99 });
    assert_eq!(
        split_pot(u64::MAX),
        Settlement {
            winner_payout: 17_524_406_870_024_074_035,
            platform_fee: 922_337_203_685_477_580
        }
    );
}

#[test]
fn split_leaks_nothing() {
    for stake in [0u64, 1, 7, 9, 10, 11, 499, 500, 12_345, 1_000_000, u64::MAX / 2] {
        let pooled = 2 * stake;
        let split = split_pot(pooled);
        assert_eq!(split.platform_fee as u128, pooled as u128 * 500 / 10_000);
        assert_eq!(split.winner_payout + split.platform_fee, pooled);
    }
}

#[test]
fn settle_needs_a_winner_and_the_winner() {
    let open = initialize_game::handler(alice(), bob(), 1_000_000, 100, 1);
    assert_eq!(claim_winnings::settle(&open, 2_000_000, &alice()), Err(TablaError::GameNotEnded));
    let game = won_by_alice(1_000_000);
    assert_eq!(claim_winnings::settle(&game, 2_000_000, &bob()), Err(TablaError::NotWinner));
    assert_eq!(
        claim_winnings::settle(&game, 2_000_000, &alice()),
        Ok(Settlement { winner_payout: 1_900_000, platform_fee: 100_000 })
    );
    // settling computes, it pays nothing: asking again gives the same
    assert_eq!(
        claim_winnings::settle(&game, 2_000_000, &alice()),
        Ok(Settlement { winner_payout: 1_900_000, platform_fee: 100_000 })
    );
}

#[test]
fn claim_before_the_end_is_rejected() {
    let game = initialize_game::handler(alice(), bob(), 500, 100, 1);
    let mut escrow = Escrow::for_stake(500).unwrap();
    assert_eq!(
        claim_winnings::handler(&game, &mut escrow, &alice()),
        Err(TablaError::GameNotEnded)
    );
    assert_eq!(escrow, Escrow { amount: 1_000, claimed: false });
}

#[test]
fn claim_by_the_loser_is_rejected() {
    let game = won_by_alice(500);
    let mut escrow = Escrow::for_stake(500).unwrap();
    assert_eq!(claim_winnings::handler(&game, &mut escrow, &bob()), Err(TablaError::NotWinner));
    assert_eq!(escrow, Escrow { amount: 1_000, claimed: false });
}

#[test]
fn second_claim_is_rejected() {
    let game = won_by_alice(500);
    let mut escrow = Escrow { amount: 5_000, claimed: false };
    assert_eq!(
        claim_winnings::handler(&game, &mut escrow, &alice()),
        Ok(Settlement { winner_payout: 950, platform_fee: 50 })
    );
    assert_eq!(escrow, Escrow { amount: 4_000, claimed: true });
    assert_eq!(
        claim_winnings::handler(&game, &mut escrow, &alice()),
        Err(TablaError::AlreadyClaimed)
    );
    assert_eq!(escrow, Escrow { amount: 4_000, claimed: true });
    // the loser is still told that they did not win
    assert_eq!(claim_winnings::handler(&game, &mut escrow, &bob()), Err(TablaError::NotWinner));
}

#[test]
fn underfunded_escrow_is_rejected() {
    let game = won_by_alice(500);
    let mut escrow = Escrow { amount: 999, claimed: false };
    assert_eq!(
        claim_winnings::handler(&game, &mut escrow, &alice()),
        Err(TablaError::InsufficientFunds)
    );
    assert_eq!(escrow, Escrow { amount: 999, claimed: false });

    // a pooled stake beyond any balance cannot be covered either
    let game = won_by_alice(u64::MAX);
    let mut escrow = Escrow { amount: u64::MAX, claimed: false };
    assert_eq!(
        claim_winnings::handler(&game, &mut escrow, &alice()),
        Err(TablaError::InsufficientFunds)
    );
    assert_eq!(escrow, Escrow { amount: u64::MAX, claimed: false });
}

#[test]
fn zero_stake_settles_to_nothing() {
    let game = won_by_alice(0);
    let mut escrow = Escrow::for_stake(0).unwrap();
    assert_eq!(
        claim_winnings::handler(&game, &mut escrow, &alice()),
        Ok(Settlement { winner_payout: 0, platform_fee: 0 })
    );
    assert_eq!(escrow, Escrow { amount: 0, claimed: true });
}

#[test]
fn escrow_holds_both_stakes() {
    assert_eq!(Escrow::for_stake(1), Some(Escrow { amount: 2, claimed: false }));
    assert_eq!(
        Escrow::for_stake(u64::MAX / 2),
        Some(Escrow { amount: u64::MAX - 1, claimed: false })
    );
    assert_eq!(Escrow::for_stake(u64::MAX / 2 + 1), None);
    assert_eq!(Escrow::for_stake(u64::MAX), None);
}

#[test]
fn debit_never_overdraws() {
    let mut escrow = Escrow { amount: 10, claimed: false };
    assert_eq!(escrow.debit(4), Ok(()));
    assert_eq!(escrow.amount, 6);
    assert_eq!(escrow.debit(7), Err(TablaError::InsufficientFunds));
    assert_eq!(escrow.amount, 6);
    assert_eq!(escrow.debit(6), Ok(()));
    assert_eq!(escrow, Escrow { amount: 0, claimed: false });
    assert_eq!(escrow.debit(0), Ok(()));
    assert_eq!(escrow.debit(1), Err(TablaError::InsufficientFunds));
}
