use squares::address::Address;
use squares::board::{create_board, Board, BoardVisibility, SQUARE_PRICE};
use squares::lifecycle::{
    boost_board, boost_fee, fulfill_vrf_callback, payout_winner, purchase_square, record_score,
    request_randomization, settle_winner, update_fill_rate,
};
use squares::error::SquaresError;
use squares::ranking::BOOST_SCORE_SCALE;
use squares::treasury::{initialize_treasury, Treasury};

fn addr(b: u8) -> Address {
    Address::new([b; 32])
}

const NOW: i64 = 1_700_000_000;

fn new_board() -> Board {
    create_board(42, addr(1), 10_000_000, BoardVisibility::Public, NOW)
}

fn randomized_board() -> Board {
    let mut b = new_board();
    let mut r = [0u8; 32];
    for i in 0..32 {
        r[i] = (200 + i) as u8;
    }
    assert_eq!(fulfill_vrf_callback(&mut b, r, true), Ok(()));
    b
}

fn example_board() -> Board {
    let mut b = new_board();
    b.home_headers = [3, 0, 7, 1, 9, 4, 2, 8, 5, 6];
    b.away_headers = [5, 2, 8, 0, 6, 3, 9, 1, 7, 4];
    b.randomized = true;
    b
}

#[test]
fn create_board_starts_empty() {
    let b = new_board();
    assert_eq!(b.game_id, 42);
    assert!(b.authority == addr(1));
    assert!(!b.randomized && !b.game_started && !b.game_ended && !b.finalized);
    assert!(b.winner.is_none());
    assert_eq!(b.total_pot, 0);
    assert_eq!(b.payout_amount, 0);
    assert!(b.squares.iter().all(|s| s.is_none()));
    assert_eq!(b.home_headers, [10; 10]);
    assert_eq!(b.away_headers, [10; 10]);
    assert_eq!(b.created_at, NOW);
    assert_eq!(b.visibility, BoardVisibility::Public);
    assert_eq!(b.price_per_square, 10_000_000);
    assert_eq!(b.boost_amount, 0);
    assert_eq!(b.boost_expires_at, 0);
    assert_eq!(b.fill_rate, 0);
}

#[test]
fn request_randomization_states() {
    let b = new_board();
    assert_eq!(request_randomization(&b), Ok(()));
    let r = randomized_board();
    assert_eq!(request_randomization(&r), Err(SquaresError::AlreadyRandomized));
    let mut started = new_board();
    started.game_started = true;
    assert_eq!(request_randomization(&started), Err(SquaresError::GameAlreadyStarted));
}

#[test]
fn fulfill_derives_both_headers_once() {
    let b = randomized_board();
    assert!(b.randomized);
    assert_eq!(b.home_headers, [0, 1, 2, 3, 4, 5, 6, 7, 8, 9]);
    assert_eq!(b.away_headers, [6, 7, 8, 9, 0, 1, 2, 3, 4, 5]);
    let mut again = b;
    assert_eq!(
        fulfill_vrf_callback(&mut again, [1u8; 32], true),
        Err(SquaresError::AlreadyRandomized)
    );
    assert_eq!(again.home_headers, b.home_headers);
}

#[test]
fn fulfill_rejects_unverified_randomness() {
    let mut b = new_board();
    assert_eq!(fulfill_vrf_callback(&mut b, [3u8; 32], false), Err(SquaresError::InvalidVrfProof));
    assert!(!b.randomized);
    assert_eq!(b.home_headers, [10; 10]);
}

#[test]
fn purchase_moves_price_and_claims_square() {
    let mut b = randomized_board();
    let mut buyer = 25_000_000u64;
    let mut escrow = 1_000u64;
    assert_eq!(purchase_square(&mut b, 17, addr(7), &mut buyer, &mut escrow), Ok(()));
    assert!(b.squares[17] == Some(addr(7)));
    assert_eq!(b.total_pot, SQUARE_PRICE);
    assert_eq!(buyer, 15_000_000);
    assert_eq!(escrow, 10_001_000);
}

#[test]
fn purchase_owned_square_fails() {
    let mut b = randomized_board();
    let mut buyer = 100_000_000u64;
    let mut escrow = 0u64;
    assert_eq!(purchase_square(&mut b, 5, addr(7), &mut buyer, &mut escrow), Ok(()));
    let before = b;
    assert_eq!(
        purchase_square(&mut b, 5, addr(8), &mut buyer, &mut escrow),
        Err(SquaresError::SquareAlreadyOwned)
    );
    assert!(b.squares[5] == Some(addr(7)));
    assert_eq!(b.total_pot, before.total_pot);
    assert_eq!(buyer, 90_000_000);
    assert_eq!(escrow, 10_000_000);
}

#[test]
fn purchase_errors() {
    let mut buyer = 100_000_000u64;
    let mut escrow = 0u64;
    let mut fresh = new_board();
    assert_eq!(
        purchase_square(&mut fresh, 0, addr(7), &mut buyer, &mut escrow),
        Err(SquaresError::NotRandomized)
    );
    let mut b = randomized_board();
    assert_eq!(
        purchase_square(&mut b, 100, addr(7), &mut buyer, &mut escrow),
        Err(SquaresError::InvalidSquareIndex)
    );
    assert_eq!(purchase_square(&mut b, 99, addr(7), &mut buyer, &mut escrow), Ok(()));
    assert_eq!(record_score(&mut b, 0, 0, 1), Ok(()));
    assert_eq!(
        purchase_square(&mut b, 1, addr(7), &mut buyer, &mut escrow),
        Err(SquaresError::GameAlreadyStarted)
    );
}

#[test]
fn purchase_without_funds_changes_nothing() {
    let mut b = randomized_board();
    let mut buyer = SQUARE_PRICE - 1;
    let mut escrow = 0u64;
    assert_eq!(
        purchase_square(&mut b, 3, addr(7), &mut buyer, &mut escrow),
        Err(SquaresError::InsufficientFunds)
    );
    assert!(b.squares[3].is_none());
    assert_eq!(b.total_pot, 0);
    assert_eq!(buyer, SQUARE_PRICE - 1);
    assert_eq!(escrow, 0);
    let mut rich = SQUARE_PRICE;
    let mut full = u64::MAX;
    assert_eq!(
        purchase_square(&mut b, 3, addr(7), &mut rich, &mut full),
        Err(SquaresError::ArithmeticOverflow)
    );
    assert!(b.squares[3].is_none());
}

#[test]
fn all_hundred_squares_fill_the_pot() {
    let mut b = randomized_board();
    let mut buyer = u64::MAX / 2;
    let mut escrow = 0u64;
    for i in 0..100u8 {
        assert_eq!(purchase_square(&mut b, i, addr(i), &mut buyer, &mut escrow), Ok(()));
    }
    assert_eq!(b.total_pot, 100 * SQUARE_PRICE);
    assert_eq!(escrow, 1_000_000_000);
}

#[test]
fn record_score_lifecycle() {
    let mut fresh = new_board();
    assert_eq!(record_score(&mut fresh, 7, 3, 1), Err(SquaresError::NotRandomized));
    let mut b = randomized_board();
    assert_eq!(record_score(&mut b, 7, 3, 5), Err(SquaresError::InvalidQuarter));
    assert!(!b.game_started);
    assert_eq!(record_score(&mut b, 7, 3, 1), Ok(()));
    assert!(b.game_started && !b.game_ended);
    assert_eq!((b.home_score, b.away_score, b.quarter), (7, 3, 1));
    assert_eq!(record_score(&mut b, 14, 10, 2), Ok(()));
    assert_eq!(record_score(&mut b, 17, 10, 1), Ok(()));
    assert_eq!(b.quarter, 1);
}

#[test]
fn final_quarter_ends_the_game() {
    let mut b = randomized_board();
    assert_eq!(record_score(&mut b, 21, 17, 4), Ok(()));
    assert!(b.game_started);
    assert!(b.game_ended);
    assert_eq!(record_score(&mut b, 28, 17, 4), Err(SquaresError::GameEnded));
    assert_eq!(record_score(&mut b, 28, 17, 2), Err(SquaresError::GameEnded));
    assert_eq!((b.home_score, b.away_score), (21, 17));
}

#[test]
fn settle_worked_example() {
    let mut b = example_board();
    let p = addr(9);
    let mut buyer = 100_000_000u64;
    let mut escrow = 0u64;
    assert_eq!(purchase_square(&mut b, 4, p, &mut buyer, &mut escrow), Ok(()));
    assert_eq!(purchase_square(&mut b, 40, addr(3), &mut buyer, &mut escrow), Ok(()));
    assert_eq!(settle_winner(&mut b), Err(SquaresError::GameNotEnded));
    assert_eq!(record_score(&mut b, 23, 46, 4), Ok(()));
    assert_eq!(settle_winner(&mut b), Ok(()));
    assert!(b.winner == Some(p));
    assert_eq!(b.payout_amount, b.total_pot);
    assert_eq!(b.payout_amount, 2 * SQUARE_PRICE);
}

#[test]
fn settle_twice_fails_already_settled() {
    let mut b = example_board();
    let mut buyer = 100_000_000u64;
    let mut escrow = 0u64;
    assert_eq!(purchase_square(&mut b, 4, addr(9), &mut buyer, &mut escrow), Ok(()));
    assert_eq!(record_score(&mut b, 23, 46, 4), Ok(()));
    assert_eq!(settle_winner(&mut b), Ok(()));
    assert_eq!(settle_winner(&mut b), Err(SquaresError::AlreadySettled));
    assert!(b.winner == Some(addr(9)));
}

#[test]
fn settle_unclaimed_square_is_no_winner() {
    let mut b = example_board();
    assert_eq!(record_score(&mut b, 23, 46, 4), Ok(()));
    assert_eq!(settle_winner(&mut b), Err(SquaresError::NoWinner));
    assert!(b.winner.is_none());
    assert_eq!(b.payout_amount, 0);
}

fn settled_board() -> (Board, u64) {
    let mut b = example_board();
    let mut buyer = 100_000_000u64;
    let mut escrow = 0u64;
    assert_eq!(purchase_square(&mut b, 4, addr(9), &mut buyer, &mut escrow), Ok(()));
    assert_eq!(purchase_square(&mut b, 5, addr(8), &mut buyer, &mut escrow), Ok(()));
    assert_eq!(record_score(&mut b, 23, 46, 4), Ok(()));
    assert_eq!(settle_winner(&mut b), Ok(()));
    (b, escrow)
}

#[test]
fn payout_twice_fails_no_payout() {
    let (mut b, mut escrow) = settled_board();
    let mut winner = 0u64;
    assert_eq!(payout_winner(&mut b, addr(9), &mut escrow, &mut winner), Ok(()));
    assert_eq!(winner, 2 * SQUARE_PRICE);
    assert_eq!(escrow, 0);
    assert_eq!(b.payout_amount, 0);
    assert_eq!(b.total_pot, 2 * SQUARE_PRICE);
    assert_eq!(payout_winner(&mut b, addr(9), &mut escrow, &mut winner), Err(SquaresError::NoPayout));
    assert_eq!(b.payout_amount, 0);
    assert_eq!(b.total_pot, 2 * SQUARE_PRICE);
    assert_eq!(winner, 2 * SQUARE_PRICE);
}

#[test]
fn payout_errors() {
    let mut unsettled = example_board();
    let mut escrow = 0u64;
    let mut other = 0u64;
    assert_eq!(
        payout_winner(&mut unsettled, addr(9), &mut escrow, &mut other),
        Err(SquaresError::NoWinner)
    );
    let (mut b, mut escrow) = settled_board();
    assert_eq!(
        payout_winner(&mut b, addr(8), &mut escrow, &mut other),
        Err(SquaresError::InvalidWinner)
    );
    assert_eq!(b.payout_amount, 2 * SQUARE_PRICE);
    let mut short = 5u64;
    assert_eq!(
        payout_winner(&mut b, addr(9), &mut short, &mut other),
        Err(SquaresError::InsufficientFunds)
    );
    assert_eq!(b.payout_amount, 2 * SQUARE_PRICE);
    assert_eq!(short, 5);
}

#[test]
fn update_fill_rate_checks_authority_and_range() {
    let mut b = new_board();
    assert_eq!(update_fill_rate(&mut b, addr(2), 50), Err(SquaresError::Unauthorized));
    assert_eq!(update_fill_rate(&mut b, addr(1), 101), Err(SquaresError::InvalidScore));
    assert_eq!(b.fill_rate, 0);
    assert_eq!(update_fill_rate(&mut b, addr(1), 100), Ok(()));
    assert_eq!(b.fill_rate, 100);
}

fn treasury() -> Treasury {
    initialize_treasury(addr(50))
}

#[test]
fn initialize_treasury_starts_empty() {
    let t = treasury();
    assert!(t.authority == addr(50));
    assert_eq!(t.total_collected, 0);
}

#[test]
fn boost_fee_table() {
    assert_eq!(boost_fee(1), Some(50_000_000));
    assert_eq!(boost_fee(3), Some(120_000_000));
    assert_eq!(boost_fee(7), Some(250_000_000));
    assert_eq!(boost_fee(2), None);
    assert_eq!(boost_fee(0), None);
}

#[test]
fn boost_charges_the_fee_table() {
    for (days, fee) in [(1u8, 50_000_000u64), (3, 120_000_000), (7, 250_000_000)] {
        let mut b = new_board();
        let mut t = treasury();
        let mut payer = 1_000_000_000u64;
        let mut vault = 0u64;
        assert_eq!(boost_board(&mut b, &mut t, addr(1), days, NOW, &mut payer, &mut vault), Ok(()));
        assert_eq!(payer, 1_000_000_000 - fee);
        assert_eq!(vault, fee);
        assert_eq!(b.boost_amount, fee);
        assert_eq!(b.boost_expires_at, NOW + days as i64 * 86_400);
        assert_eq!(t.total_collected, fee);
    }
}

#[test]
fn boost_other_duration_changes_nothing() {
    for days in [0u8, 2, 4, 5, 6, 8, 255] {
        let mut b = new_board();
        let mut t = treasury();
        let mut payer = 1_000_000_000u64;
        let mut vault = 0u64;
        assert_eq!(
            boost_board(&mut b, &mut t, addr(1), days, NOW, &mut payer, &mut vault),
            Err(SquaresError::InvalidBoostDuration)
        );
        assert_eq!(b.boost_amount, 0);
        assert_eq!(b.boost_expires_at, 0);
        assert_eq!(t.total_collected, 0);
        assert_eq!(payer, 1_000_000_000);
        assert_eq!(vault, 0);
    }
}

#[test]
fn boost_errors() {
    let mut b = new_board();
    let mut t = treasury();
    let mut payer = 1_000_000_000u64;
    let mut vault = 0u64;
    assert_eq!(
        boost_board(&mut b, &mut t, addr(2), 1, NOW, &mut payer, &mut vault),
        Err(SquaresError::Unauthorized)
    );
    let mut poor = 49_999_999u64;
    assert_eq!(
        boost_board(&mut b, &mut t, addr(1), 1, NOW, &mut poor, &mut vault),
        Err(SquaresError::InsufficientFunds)
    );
    assert_eq!(
        boost_board(&mut b, &mut t, addr(1), 1, i64::MAX - 10, &mut payer, &mut vault),
        Err(SquaresError::ArithmeticOverflow)
    );
    assert_eq!(b.boost_amount, 0);
    assert_eq!(t.total_collected, 0);
}

#[test]
fn boosts_accumulate() {
    let mut b = new_board();
    let mut t = treasury();
    let mut payer = 1_000_000_000u64;
    let mut vault = 0u64;
    assert_eq!(boost_board(&mut b, &mut t, addr(1), 7, NOW, &mut payer, &mut vault), Ok(()));
    assert_eq!(boost_board(&mut b, &mut t, addr(1), 1, NOW + 10, &mut payer, &mut vault), Ok(()));
    assert_eq!(b.boost_amount, 300_000_000);
    assert_eq!(b.boost_expires_at, NOW + 10 + 86_400);
    assert_eq!(t.total_collected, 300_000_000);
}

#[test]
fn is_boosted_needs_time_and_amount() {
    let mut b = new_board();
    assert!(!b.is_boosted(NOW));
    b.boost_expires_at = NOW + 5;
    assert!(!b.is_boosted(NOW));
    b.boost_amount = 1;
    assert!(b.is_boosted(NOW));
    assert!(!b.is_boosted(NOW + 5));
}

#[test]
fn boost_score_is_zero_without_boost() {
    let mut b = new_board();
    b.fill_rate = 80;
    assert_eq!(b.calculate_boost_score(NOW), 0);
    b.boost_expires_at = NOW;
    b.boost_amount = 250_000_000;
    assert_eq!(b.calculate_boost_score(NOW), 0);
    b.boost_expires_at = NOW + 100;
    b.boost_amount = 0;
    assert_eq!(b.calculate_boost_score(NOW), 0);
}

#[test]
fn boost_score_full_weights_make_one() {
    let mut b = new_board();
    b.fill_rate = 100;
    b.boost_amount = 500_000_000;
    b.boost_expires_at = NOW + 30 * 86_400;
    assert_eq!(b.calculate_boost_score(NOW), BOOST_SCORE_SCALE);
}

#[test]
fn boost_score_exact_mix() {
    let mut b = new_board();
    b.fill_rate = 50;
    b.boost_amount = 50_000_000;
    b.boost_expires_at = NOW + 86_400;
    let score = b.calculate_boost_score(NOW);
    // 0.5 * 0.2 + 0.3 * 0.5 + 0.2 * (1 / 7)
    let expected = 0.5 * 0.2 + 0.3 * 0.5 + 0.2 * (1.0 / 7.0);
    let got = score as f64 / BOOST_SCORE_SCALE as f64;
    assert!((got - expected).abs() < 1e-12);
    assert_eq!(score, 302_400_000 * 50_000_000 + 453_600_000_000_000 * 50 + 50_000_000_000 * 86_400);
    assert!(score > 0 && score <= BOOST_SCORE_SCALE);
}

#[test]
fn error_messages() {
    assert_eq!(SquaresError::SquareAlreadyOwned.message(), "Square is already owned");
    assert_eq!(SquaresError::InvalidBoostDuration.message(), "Invalid boost duration");
}
