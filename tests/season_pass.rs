use squares::address::Address;
use squares::season_pass::{
    assign_game_square, calculate_hit_points, calculate_pass_price, init_wallet_pass_count,
    initialize_conference, mint_season_pass, record_scoring_event, PlayoffRound,
    SeasonPassError, SeasonType,
};

fn addr(b: u8) -> Address {
    Address::new([b; 32])
}

#[test]
fn conference_curves() {
    let half = initialize_conference(3, SeasonType::Half, 1_000_000, 2, 1, 9, addr(1));
    assert_eq!(half.scale_curve_bps, [0, 1000, 2000, 3000, 4000]);
    assert_eq!(half.capacity, 100);
    assert_eq!(half.filled, 0);
    assert!(half.mint_live);
    let full = initialize_conference(4, SeasonType::Full, 1_000_000, 2, 1, 18, addr(1));
    assert_eq!(full.scale_curve_bps, [0, 0, 0, 0, 0]);
}

#[test]
fn pass_price_follows_curve() {
    let curve = [0u16, 1000, 2000, 3000, 4000];
    assert_eq!(calculate_pass_price(1_000_000, 0, &curve), Some(1_000_000));
    assert_eq!(calculate_pass_price(1_000_000, 1, &curve), Some(1_100_000));
    assert_eq!(calculate_pass_price(1_000_000, 4, &curve), Some(1_400_000));
    assert_eq!(calculate_pass_price(1_000_000, 5, &curve), Some(1_000_000));
    assert_eq!(calculate_pass_price(999, 1, &curve), Some(1098));
    assert_eq!(calculate_pass_price(u64::MAX, 1, &curve), None);
}

#[test]
fn mint_pass_charges_and_counts() {
    let mut c = initialize_conference(3, SeasonType::Half, 1_000_000, 2, 1, 9, addr(1));
    let mut w = init_wallet_pass_count(3, addr(5));
    let mut payer = 10_000_000u64;
    let mut vault = 0u64;
    let p = mint_season_pass(&mut c, &mut w, addr(5), addr(6), &mut payer, &mut vault).unwrap();
    assert_eq!(p.pass_number, 1);
    assert!(p.owner == addr(5));
    assert!(p.is_active);
    assert_eq!(payer, 9_000_000);
    let second = mint_season_pass(&mut c, &mut w, addr(5), addr(7), &mut payer, &mut vault).unwrap();
    assert_eq!(second.pass_number, 2);
    assert_eq!(payer, 7_900_000);
    assert_eq!(vault, 2_100_000);
    assert_eq!(c.filled, 2);
    assert_eq!(
        mint_season_pass(&mut c, &mut w, addr(5), addr(8), &mut payer, &mut vault).err(),
        Some(SeasonPassError::WalletCapExceeded)
    );
    c.mint_live = false;
    let mut w2 = init_wallet_pass_count(3, addr(9));
    assert_eq!(
        mint_season_pass(&mut c, &mut w2, addr(9), addr(8), &mut payer, &mut vault).err(),
        Some(SeasonPassError::MintingClosed)
    );
}

#[test]
fn mint_pass_full_and_poor() {
    let mut c = initialize_conference(3, SeasonType::Full, 1_000_000, 2, 1, 9, addr(1));
    let mut w = init_wallet_pass_count(3, addr(5));
    let mut poor = 10u64;
    let mut vault = 0u64;
    assert_eq!(
        mint_season_pass(&mut c, &mut w, addr(5), addr(6), &mut poor, &mut vault).err(),
        Some(SeasonPassError::InsufficientFunds)
    );
    assert_eq!(w.pass_count, 0);
    assert_eq!(c.filled, 0);
    c.filled = 100;
    let mut payer = 10_000_000u64;
    assert_eq!(
        mint_season_pass(&mut c, &mut w, addr(5), addr(6), &mut payer, &mut vault).err(),
        Some(SeasonPassError::ConferenceFull)
    );
}

#[test]
fn hit_points_patterns() {
    // square 37: row 3, column 7
    assert_eq!(calculate_hit_points(3, 7, 37, false, None), 10);
    assert_eq!(calculate_hit_points(7, 3, 37, false, None), 7);
    assert_eq!(calculate_hit_points(8, 2, 37, false, None), 5);
    assert_eq!(calculate_hit_points(2, 8, 37, false, None), 3);
    assert_eq!(calculate_hit_points(1, 1, 37, false, None), 0);
}

#[test]
fn hit_points_playoff_multipliers() {
    assert_eq!(calculate_hit_points(3, 7, 37, true, Some(PlayoffRound::WildCard)), 15);
    assert_eq!(calculate_hit_points(3, 7, 37, true, Some(PlayoffRound::Divisional)), 20);
    assert_eq!(calculate_hit_points(3, 7, 37, true, Some(PlayoffRound::Conference)), 25);
    assert_eq!(calculate_hit_points(3, 7, 37, true, Some(PlayoffRound::SuperBowl)), 30);
    assert_eq!(calculate_hit_points(7, 3, 37, true, Some(PlayoffRound::WildCard)), 10);
    assert_eq!(calculate_hit_points(3, 7, 37, true, None), 10);
    assert_eq!(calculate_hit_points(1, 1, 37, true, Some(PlayoffRound::SuperBowl)), 0);
}

#[test]
fn assign_and_score_once() {
    let mut c = initialize_conference(3, SeasonType::Full, 1_000, 2, 1, 9, addr(1));
    let mut w = init_wallet_pass_count(3, addr(5));
    let mut payer = 10_000u64;
    let mut vault = 0u64;
    let mut p = mint_season_pass(&mut c, &mut w, addr(5), addr(6), &mut payer, &mut vault).unwrap();
    assert_eq!(assign_game_square(&p, 1, 100).err(), Some(SeasonPassError::InvalidSquareIndex));
    let mut a = assign_game_square(&p, 1, 37).unwrap();
    assert_eq!(a.square_index, 37);
    assert!(a.pass_mint == addr(6));
    assert!(!a.is_scored);
    assert_eq!(record_scoring_event(&mut a, &mut p, 13, 27, true, Some(PlayoffRound::SuperBowl)), Ok(()));
    assert_eq!(a.points_earned, 30);
    assert!(a.is_scored);
    assert_eq!(p.total_points, 30);
    assert_eq!(p.games_played, 1);
    assert_eq!(
        record_scoring_event(&mut a, &mut p, 13, 27, false, None),
        Err(SeasonPassError::AlreadyScored)
    );
    assert_eq!(p.total_points, 30);
    p.is_active = false;
    assert_eq!(assign_game_square(&p, 2, 1).err(), Some(SeasonPassError::PassNotActive));
}
