//! Season passes: conferences that sell a limited number of passes with a
//! per-wallet price curve, squares assigned to passes game by game, and points
//! for scores that hit a pass's square.

use vstd::prelude::*;
use crate::address::Address;
use crate::error::SquaresError;
use crate::funds::{transfer_error, transfer_lamports};

verus! {

/// How many passes a conference sells.
pub const CONFERENCE_CAPACITY: u16 = 100;

/// The denominator of the price curve's basis points.
pub const BPS_DENOMINATOR: u64 = 10_000;

/// A full season or a half season.
#[derive(Clone, Copy, Debug, PartialEq, Eq, Structural)]
pub enum SeasonType {
    Full,
    Half,
}

/// The playoff round of a game.
#[derive(Clone, Copy, Debug, PartialEq, Eq, Structural)]
pub enum PlayoffRound {
    WildCard,
    Divisional,
    Conference,
    SuperBowl,
}

/// A conference that sells season passes.
#[derive(Clone, Copy, Debug)]
pub struct Conference {
    pub id: u8,
    pub season_type: SeasonType,
    pub base_price_lamports: u64,
    pub capacity: u16,
    pub filled: u16,
    pub mint_live: bool,
    pub max_per_wallet: u8,
    /// Price surcharge, in basis points, for a wallet's first to fifth pass.
    pub scale_curve_bps: [u16; 5],
    pub season_start_week: u8,
    pub season_end_week: u8,
    pub authority: Address,
}

/// One season pass held by a wallet.
#[derive(Clone, Copy, Debug)]
pub struct SeasonPass {
    pub conference_id: u8,
    pub owner: Address,
    pub mint_address: Address,
    pub total_points: u64,
    pub games_played: u16,
    pub pass_number: u8,
    pub is_active: bool,
}

/// How many passes of a conference a wallet holds.
#[derive(Clone, Copy, Debug)]
pub struct WalletPassCount {
    pub conference_id: u8,
    pub wallet: Address,
    pub pass_count: u8,
}

/// The square that a pass plays in one game, and what it earned.
#[derive(Clone, Copy, Debug)]
pub struct GameAssignment {
    pub game_id: u64,
    pub pass_mint: Address,
    pub square_index: u8,
    pub is_scored: bool,
    pub points_earned: u64,
}

/// Why a season pass operation was refused. A refused operation changes nothing.
#[derive(Clone, Copy, Debug, PartialEq, Eq, Structural)]
pub enum SeasonPassError {
    MintingClosed,
    ConferenceFull,
    WalletCapExceeded,
    PassNotActive,
    InvalidSquareIndex,
    AlreadyScored,
    /// The paying balance holds less than the price.
    InsufficientFunds,
    /// A price, balance or counter would pass its largest value.
    ArithmeticOverflow,
}

impl SeasonPassError {
    /// The message shown for the error.
    pub fn message(&self) -> (r: &'static str) {
        match self {
            SeasonPassError::MintingClosed => "Minting is currently closed for this conference",
            SeasonPassError::ConferenceFull => "Conference is at full capacity",
            SeasonPassError::WalletCapExceeded =>
                "Wallet has reached the maximum number of passes for this conference",
            SeasonPassError::PassNotActive => "Season pass is not active",
            SeasonPassError::InvalidSquareIndex => "Invalid square index",
            SeasonPassError::AlreadyScored => "Scoring event already recorded for this game",
            SeasonPassError::InsufficientFunds => "Insufficient funds",
            SeasonPassError::ArithmeticOverflow => "Arithmetic overflow",
        }
    }
}

/// The price curve of a season type: half seasons add 0%, 10%, ... 40% for a
/// wallet's first to fifth pass; full seasons add nothing.
pub open spec fn scale_curve_of(season_type: SeasonType) -> Seq<u16> {
    if season_type == SeasonType::Half {
        seq![0u16, 1000, 2000, 3000, 4000]
    } else {
        seq![0u16, 0, 0, 0, 0]
    }
}

/// Opens a conference with a capacity of 100 passes, minting live and nothing sold.
pub fn initialize_conference(
    conference_id: u8,
    season_type: SeasonType,
    base_price_lamports: u64,
    max_per_wallet: u8,
    season_start_week: u8,
    season_end_week: u8,
    authority: Address,
) -> (c: Conference)
    ensures
        c.id == conference_id,
        c.season_type == season_type,
        c.base_price_lamports == base_price_lamports,
        c.capacity == CONFERENCE_CAPACITY,
        c.filled == 0,
        c.mint_live,
        c.max_per_wallet == max_per_wallet,
        c.scale_curve_bps@ == scale_curve_of(season_type),
        c.season_start_week == season_start_week,
        c.season_end_week == season_end_week,
        c.authority == authority,
{
    let scale_curve_bps: [u16; 5] = if season_type == SeasonType::Half {
        [0, 1000, 2000, 3000, 4000]
    } else {
        [0, 0, 0, 0, 0]
    };
    assert(scale_curve_bps@ =~= scale_curve_of(season_type));
    Conference {
        id: conference_id,
        season_type,
        base_price_lamports,
        capacity: CONFERENCE_CAPACITY,
        filled: 0,
        mint_live: true,
        max_per_wallet,
        scale_curve_bps,
        season_start_week,
        season_end_week,
        authority,
    }
}

/// The price of a wallet's next pass when it holds `count`: the base price
/// plus the curve's surcharge for that pass, rounded down; from the sixth pass
/// on, the base price.
pub open spec fn pass_price_of(base_price: u64, count: u8, curve: Seq<u16>) -> int {
    if count >= 5 {
        base_price as int
    } else {
        base_price * (BPS_DENOMINATOR + curve[count as int]) / BPS_DENOMINATOR as int
    }
}

/// The price of a wallet's next pass, or `None` where it does not fit in a `u64`.
pub fn calculate_pass_price(base_price: u64, current_pass_count: u8, scale_curve_bps: &[u16; 5]) -> (r:
    Option<u64>)
    ensures
        match r {
            Some(p) => p as int == pass_price_of(base_price, current_pass_count, scale_curve_bps@),
            None => pass_price_of(base_price, current_pass_count, scale_curve_bps@) > u64::MAX,
        },
{
    if current_pass_count >= 5 {
        return Some(base_price);
    }
    let multiplier_bps = scale_curve_bps[current_pass_count as usize];
    let factor: u128 = BPS_DENOMINATOR as u128 + multiplier_bps as u128;
    assert(base_price as u128 * factor <= 18_446_744_073_709_551_615u128 * 75_535u128)
        by (nonlinear_arith)
        requires
            factor <= 75_535,
    ;
    let price: u128 = base_price as u128 * factor / BPS_DENOMINATOR as u128;
    if price > u64::MAX as u128 {
        None
    } else {
        Some(price as u64)
    }
}

/// Why a pass cannot be minted, if it cannot (before any funds are looked at).
pub open spec fn mint_error(c: Conference, w: WalletPassCount) -> Option<SeasonPassError> {
    if !c.mint_live {
        Some(SeasonPassError::MintingClosed)
    } else if c.filled >= c.capacity {
        Some(SeasonPassError::ConferenceFull)
    } else if w.pass_count >= c.max_per_wallet {
        Some(SeasonPassError::WalletCapExceeded)
    } else if pass_price_of(c.base_price_lamports, w.pass_count, c.scale_curve_bps@) > u64::MAX {
        Some(SeasonPassError::ArithmeticOverflow)
    } else {
        None
    }
}

/// The season pass error for a failed transfer.
pub open spec fn transfer_failure(e: SquaresError) -> SeasonPassError {
    if e == SquaresError::InsufficientFunds {
        SeasonPassError::InsufficientFunds
    } else {
        SeasonPassError::ArithmeticOverflow
    }
}

/// A wallet's count of passes of a conference, before its first pass.
pub fn init_wallet_pass_count(conference_id: u8, wallet: Address) -> (w: WalletPassCount)
    ensures
        w.conference_id == conference_id,
        w.wallet == wallet,
        w.pass_count == 0,
{
    WalletPassCount { conference_id, wallet, pass_count: 0 }
}

/// Sells the next pass of `conference` to `payer`: the price moves from the
/// payer's balance to the conference's, the conference and the wallet count
/// one more pass, and the new pass is returned, numbered by the wallet's new
/// count. All of it happens, or none.
pub fn mint_season_pass(
    conference: &mut Conference,
    wallet_pass_count: &mut WalletPassCount,
    payer: Address,
    mint_address: Address,
    payer_lamports: &mut u64,
    conference_lamports: &mut u64,
) -> (r: Result<SeasonPass, SeasonPassError>)
    ensures
        ({
            let price = pass_price_of(
                old(conference).base_price_lamports,
                old(wallet_pass_count).pass_count,
                old(conference).scale_curve_bps@,
            );
            let unchanged = *final(conference) == *old(conference) && *final(wallet_pass_count)
                == *old(wallet_pass_count) && *final(payer_lamports) == *old(payer_lamports)
                && *final(conference_lamports) == *old(conference_lamports);
            match mint_error(*old(conference), *old(wallet_pass_count)) {
                Some(e) => r == Err::<SeasonPass, SeasonPassError>(e) && unchanged,
                None => match transfer_error(*old(payer_lamports), *old(conference_lamports), price as u64) {
                    Some(e) => r == Err::<SeasonPass, SeasonPassError>(transfer_failure(e)) && unchanged,
                    None => {
                        &&& *final(payer_lamports) == *old(payer_lamports) - price
                        &&& *final(conference_lamports) == *old(conference_lamports) + price
                        &&& *final(conference) == (Conference {
                            filled: (old(conference).filled + 1) as u16,
                            ..*old(conference)
                        })
                        &&& *final(wallet_pass_count) == (WalletPassCount {
                            pass_count: (old(wallet_pass_count).pass_count + 1) as u8,
                            ..*old(wallet_pass_count)
                        })
                        &&& r == Ok::<SeasonPass, SeasonPassError>(
                            SeasonPass {
                                conference_id: old(conference).id,
                                owner: payer,
                                mint_address,
                                total_points: 0,
                                games_played: 0,
                                pass_number: final(wallet_pass_count).pass_count,
                                is_active: true,
                            },
                        )
                    },
                },
            }
        }),
{
    if !conference.mint_live {
        return Err(SeasonPassError::MintingClosed);
    }
    if conference.filled >= conference.capacity {
        return Err(SeasonPassError::ConferenceFull);
    }
    if wallet_pass_count.pass_count >= conference.max_per_wallet {
        return Err(SeasonPassError::WalletCapExceeded);
    }
    let price = match calculate_pass_price(
        conference.base_price_lamports,
        wallet_pass_count.pass_count,
        &conference.scale_curve_bps,
    ) {
        Some(p) => p,
        None => return Err(SeasonPassError::ArithmeticOverflow),
    };
    match transfer_lamports(payer_lamports, conference_lamports, price) {
        Ok(()) => {},
        Err(e) => {
            if e == SquaresError::InsufficientFunds {
                return Err(SeasonPassError::InsufficientFunds);
            }
            return Err(SeasonPassError::ArithmeticOverflow);
        },
    }
    conference.filled = conference.filled + 1;
    wallet_pass_count.pass_count = wallet_pass_count.pass_count + 1;
    Ok(
        SeasonPass {
            conference_id: conference.id,
            owner: payer,
            mint_address,
            total_points: 0,
            games_played: 0,
            pass_number: wallet_pass_count.pass_count,
            is_active: true,
        },
    )
}

/// Why a square cannot be assigned to a pass, if it cannot.
pub open spec fn assign_error(p: SeasonPass, square_index: u8) -> Option<SeasonPassError> {
    if !p.is_active {
        Some(SeasonPassError::PassNotActive)
    } else if square_index >= 100 {
        Some(SeasonPassError::InvalidSquareIndex)
    } else {
        None
    }
}

/// Assigns square `square_index` of game `game_id` to an active pass.
pub fn assign_game_square(season_pass: &SeasonPass, game_id: u64, square_index: u8) -> (r: Result<
    GameAssignment,
    SeasonPassError,
>)
    ensures
        r == match assign_error(*season_pass, square_index) {
            Some(e) => Err(e),
            None => Ok::<GameAssignment, SeasonPassError>(
                GameAssignment {
                    game_id,
                    pass_mint: season_pass.mint_address,
                    square_index,
                    is_scored: false,
                    points_earned: 0,
                },
            ),
        },
{
    if !season_pass.is_active {
        return Err(SeasonPassError::PassNotActive);
    }
    if square_index >= 100 {
        return Err(SeasonPassError::InvalidSquareIndex);
    }
    Ok(
        GameAssignment {
            game_id,
            pass_mint: season_pass.mint_address,
            square_index,
            is_scored: false,
            points_earned: 0,
        },
    )
}

/// Points for the last digits of a score against a square, before any playoff
/// multiplier: 10 for a forward hit (home digit on the row, away digit on the
/// column), 7 for a backward hit, 5 and 3 for the same hits with both digits
/// shifted by five, else 0.
pub open spec fn base_hit_points(home_digit: int, away_digit: int, square_index: u8) -> u64 {
    let home_pos = square_index as int / 10;
    let away_pos = square_index as int % 10;
    if home_digit == home_pos && away_digit == away_pos {
        10
    } else if home_digit == away_pos && away_digit == home_pos {
        7
    } else if (home_digit + 5) % 10 == home_pos && (away_digit + 5) % 10 == away_pos {
        5
    } else if (home_digit + 5) % 10 == away_pos && (away_digit + 5) % 10 == home_pos {
        3
    } else {
        0
    }
}

/// The playoff multiplier, in percent.
pub open spec fn playoff_multiplier(round: Option<PlayoffRound>) -> u64 {
    match round {
        Some(PlayoffRound::WildCard) => 150,
        Some(PlayoffRound::Divisional) => 200,
        Some(PlayoffRound::Conference) => 250,
        Some(PlayoffRound::SuperBowl) => 300,
        None => 100,
    }
}

/// The points a hit earns: the base points, scaled by the round's multiplier
/// (rounded down) in a playoff game.
pub open spec fn hit_points_of(
    home_digit: int,
    away_digit: int,
    square_index: u8,
    is_playoff: bool,
    round: Option<PlayoffRound>,
) -> u64 {
    let base = base_hit_points(home_digit, away_digit, square_index);
    if is_playoff && base > 0 {
        (base * playoff_multiplier(round) / 100) as u64
    } else {
        base
    }
}

/// The points that the digits `home_digit` and `away_digit` earn on square
/// `square_index`.
pub fn calculate_hit_points(
    home_digit: u8,
    away_digit: u8,
    square_index: u8,
    is_playoff: bool,
    playoff_round: Option<PlayoffRound>,
) -> (r: u64)
    ensures
        r == hit_points_of(home_digit as int, away_digit as int, square_index, is_playoff, playoff_round),
        r <= 30,
{
    let home_pos = (square_index / 10) as u16;
    let away_pos = (square_index % 10) as u16;
    let home = home_digit as u16;
    let away = away_digit as u16;
    let mut base_points: u64 = 0;
    if home == home_pos && away == away_pos {
        base_points = 10;
    } else if home == away_pos && away == home_pos {
        base_points = 7;
    } else if (home + 5) % 10 == home_pos && (away + 5) % 10 == away_pos {
        base_points = 5;
    } else if (home + 5) % 10 == away_pos && (away + 5) % 10 == home_pos {
        base_points = 3;
    }
    if is_playoff && base_points > 0 {
        let multiplier: u64 = match playoff_round {
            Some(PlayoffRound::WildCard) => 150,
            Some(PlayoffRound::Divisional) => 200,
            Some(PlayoffRound::Conference) => 250,
            Some(PlayoffRound::SuperBowl) => 300,
            None => 100,
        };
        base_points = base_points * multiplier / 100;
    }
    base_points
}

/// Why a scoring event cannot be recorded, if it cannot.
pub open spec fn scoring_error(a: GameAssignment, p: SeasonPass, points: u64) -> Option<SeasonPassError> {
    if a.is_scored {
        Some(SeasonPassError::AlreadyScored)
    } else if p.total_points + points > u64::MAX || p.games_played + 1 > u16::MAX {
        Some(SeasonPassError::ArithmeticOverflow)
    } else {
        None
    }
}

/// Scores a game once for a pass: the points that the final digits earn on the
/// assigned square are recorded on the assignment and added to the pass, which
/// counts one more game played.
pub fn record_scoring_event(
    game_assignment: &mut GameAssignment,
    season_pass: &mut SeasonPass,
    home_score: u8,
    away_score: u8,
    is_playoff: bool,
    playoff_round: Option<PlayoffRound>,
) -> (r: Result<(), SeasonPassError>)
    ensures
        ({
            let points = hit_points_of(
                (home_score % 10) as int,
                (away_score % 10) as int,
                old(game_assignment).square_index,
                is_playoff,
                playoff_round,
            );
            match scoring_error(*old(game_assignment), *old(season_pass), points) {
                Some(e) => r == Err::<(), SeasonPassError>(e) && *final(game_assignment) == *old(
                    game_assignment,
                ) && *final(season_pass) == *old(season_pass),
                None => {
                    &&& r is Ok
                    &&& *final(game_assignment) == (GameAssignment {
                        is_scored: true,
                        points_earned: points,
                        ..*old(game_assignment)
                    })
                    &&& *final(season_pass) == (SeasonPass {
                        total_points: (old(season_pass).total_points + points) as u64,
                        games_played: (old(season_pass).games_played + 1) as u16,
                        ..*old(season_pass)
                    })
                },
            }
        }),
{
    if game_assignment.is_scored {
        return Err(SeasonPassError::AlreadyScored);
    }
    let points = calculate_hit_points(
        home_score % 10,
        away_score % 10,
        game_assignment.square_index,
        is_playoff,
        playoff_round,
    );
    if season_pass.total_points > u64::MAX - points || season_pass.games_played == u16::MAX {
        return Err(SeasonPassError::ArithmeticOverflow);
    }
    game_assignment.is_scored = true;
    game_assignment.points_earned = points;
    season_pass.total_points = season_pass.total_points + points;
    season_pass.games_played = season_pass.games_played + 1;
    Ok(())
}

} // verus!
