//! The operations of a board's lifecycle: randomization, sales, scores,
//! settlement, payout, fill rate and boosts. Each one either applies in full or
//! returns an error and changes nothing.

use vstd::prelude::*;
use crate::address::{Address, lemma_same_bytes_same_address};
use crate::board::{
    claimed_squares_kept, lemma_count_owned_bound, lemma_count_owned_claim, Board,
    FINAL_QUARTER, SECONDS_PER_DAY, SQUARE_PRICE,
};
use crate::error::SquaresError;
use crate::funds::{transfer_error, transfer_lamports};
use crate::headers::{derive_headers, derived_from};
use crate::settlement::{find_winner_square, lemma_permutations_resolve, winning_square};
use crate::treasury::Treasury;

verus! {

/// Why randomization cannot be requested, if it cannot.
pub open spec fn request_error(b: Board) -> Option<SquaresError> {
    if b.randomized {
        Some(SquaresError::AlreadyRandomized)
    } else if b.game_started {
        Some(SquaresError::GameAlreadyStarted)
    } else {
        None
    }
}

/// Checks that randomness may be requested for the board: not yet
/// randomized and not started. Writes nothing.
pub fn request_randomization(board: &Board) -> (r: Result<(), SquaresError>)
    ensures
        r == match request_error(*board) {
            Some(e) => Err(e),
            None => Ok::<(), SquaresError>(()),
        },
{
    if board.randomized {
        return Err(SquaresError::AlreadyRandomized);
    }
    if board.game_started {
        return Err(SquaresError::GameAlreadyStarted);
    }
    Ok(())
}

/// Why randomness cannot be taken, if it cannot.
pub open spec fn fulfill_error(b: Board, proof_verified: bool) -> Option<SquaresError> {
    if b.randomized {
        Some(SquaresError::AlreadyRandomized)
    } else if !proof_verified {
        Some(SquaresError::InvalidVrfProof)
    } else {
        None
    }
}

/// Takes 32 bytes of randomness whose proof the verifier has judged
/// (`proof_verified`): the home header is derived from the first 16 bytes, the
/// away header from the last 16, and the board is randomized.
pub fn fulfill_vrf_callback(board: &mut Board, randomness: [u8; 32], proof_verified: bool) -> (r:
    Result<(), SquaresError>)
    requires
        old(board).wf(),
    ensures
        final(board).wf(),
        match fulfill_error(*old(board), proof_verified) {
            Some(e) => r == Err::<(), SquaresError>(e) && *final(board) == *old(board),
            None => {
                &&& r is Ok
                &&& derived_from(randomness@.subrange(0, 16), final(board).home_headers@)
                &&& derived_from(randomness@.subrange(16, 32), final(board).away_headers@)
                &&& *final(board) == (Board {
                    randomized: true,
                    home_headers: final(board).home_headers,
                    away_headers: final(board).away_headers,
                    ..*old(board)
                })
            },
        },
{
    if board.randomized {
        return Err(SquaresError::AlreadyRandomized);
    }
    if !proof_verified {
        return Err(SquaresError::InvalidVrfProof);
    }
    let mut home_half = [0u8; 16];
    let mut away_half = [0u8; 16];
    let mut i: usize = 0;
    while i < 16
        invariant
            0 <= i <= 16,
            forall|j: int| 0 <= j < i ==> home_half@[j] == randomness@[j],
            forall|j: int| 0 <= j < i ==> away_half@[j] == randomness@[j + 16],
        decreases 16 - i,
    {
        home_half[i] = randomness[i];
        away_half[i] = randomness[i + 16];
        i += 1;
    }
    assert(home_half@ =~= randomness@.subrange(0, 16));
    assert(away_half@ =~= randomness@.subrange(16, 32));
    board.home_headers = derive_headers(&home_half);
    board.away_headers = derive_headers(&away_half);
    board.randomized = true;
    Ok(())
}

/// Why a square cannot be bought, if it cannot (before any funds are looked at).
pub open spec fn purchase_error(b: Board, square_index: u8) -> Option<SquaresError> {
    if !b.randomized {
        Some(SquaresError::NotRandomized)
    } else if b.game_started {
        Some(SquaresError::GameAlreadyStarted)
    } else if square_index >= 100 {
        Some(SquaresError::InvalidSquareIndex)
    } else if b.squares@[square_index as int] is Some {
        Some(SquaresError::SquareAlreadyOwned)
    } else {
        None
    }
}

/// Sells square `square_index` to `buyer`: the price moves from the buyer's
/// balance to the board's, the square records its owner and the pot grows by
/// the price, all together or not at all.
pub fn purchase_square(
    board: &mut Board,
    square_index: u8,
    buyer: Address,
    buyer_lamports: &mut u64,
    board_lamports: &mut u64,
) -> (r: Result<(), SquaresError>)
    requires
        old(board).wf(),
    ensures
        final(board).wf(),
        claimed_squares_kept(old(board).squares@, final(board).squares@),
        match purchase_error(*old(board), square_index) {
            Some(e) => r == Err::<(), SquaresError>(e) && *final(board) == *old(board)
                && *final(buyer_lamports) == *old(buyer_lamports) && *final(board_lamports)
                == *old(board_lamports),
            None => match transfer_error(*old(buyer_lamports), *old(board_lamports), SQUARE_PRICE) {
                Some(e) => r == Err::<(), SquaresError>(e) && *final(board) == *old(board)
                    && *final(buyer_lamports) == *old(buyer_lamports) && *final(board_lamports)
                    == *old(board_lamports),
                None => {
                    &&& r is Ok
                    &&& *final(buyer_lamports) == *old(buyer_lamports) - SQUARE_PRICE
                    &&& *final(board_lamports) == *old(board_lamports) + SQUARE_PRICE
                    &&& final(board).squares@ == old(board).squares@.update(
                        square_index as int,
                        Some(buyer),
                    )
                    &&& *final(board) == (Board {
                        squares: final(board).squares,
                        total_pot: (old(board).total_pot + SQUARE_PRICE) as u64,
                        ..*old(board)
                    })
                },
            },
        },
{
    if !board.randomized {
        return Err(SquaresError::NotRandomized);
    }
    if board.game_started {
        return Err(SquaresError::GameAlreadyStarted);
    }
    if square_index >= 100 {
        return Err(SquaresError::InvalidSquareIndex);
    }
    let idx = square_index as usize;
    if board.squares[idx].is_some() {
        return Err(SquaresError::SquareAlreadyOwned);
    }
    let ghost before = board.squares@;
    proof {
        lemma_count_owned_claim(before, idx as int, buyer);
        lemma_count_owned_bound(before.update(idx as int, Some(buyer)));
    }
    transfer_lamports(buyer_lamports, board_lamports, SQUARE_PRICE)?;
    board.squares[idx] = Some(buyer);
    board.total_pot = board.total_pot + SQUARE_PRICE;
    Ok(())
}

/// Why a score cannot be recorded, if it cannot.
pub open spec fn record_error(b: Board, quarter: u8) -> Option<SquaresError> {
    if !b.randomized {
        Some(SquaresError::NotRandomized)
    } else if b.game_ended {
        Some(SquaresError::GameEnded)
    } else if quarter > FINAL_QUARTER {
        Some(SquaresError::InvalidQuarter)
    } else {
        None
    }
}

/// Records the latest score. The first score starts the game (no more sales);
/// a score of the final quarter ends it.
pub fn record_score(board: &mut Board, home_score: u8, away_score: u8, quarter: u8) -> (r: Result<
    (),
    SquaresError,
>)
    requires
        old(board).wf(),
    ensures
        final(board).wf(),
        match record_error(*old(board), quarter) {
            Some(e) => r == Err::<(), SquaresError>(e) && *final(board) == *old(board),
            None => r is Ok && *final(board) == (Board {
                home_score,
                away_score,
                quarter,
                game_started: true,
                game_ended: quarter == FINAL_QUARTER,
                ..*old(board)
            }),
        },
{
    if !board.randomized {
        return Err(SquaresError::NotRandomized);
    }
    if board.game_ended {
        return Err(SquaresError::GameEnded);
    }
    if quarter > FINAL_QUARTER {
        return Err(SquaresError::InvalidQuarter);
    }
    board.home_score = home_score;
    board.away_score = away_score;
    board.quarter = quarter;
    if !board.game_started {
        board.game_started = true;
    }
    if quarter == FINAL_QUARTER {
        board.game_ended = true;
    }
    Ok(())
}

/// The square that wins with the board's current score: the last digits of
/// the two scores looked up in the headers.
pub open spec fn final_square(b: Board) -> int {
    winning_square(b.home_headers@, b.away_headers@, b.home_score % 10, b.away_score % 10)
}

/// Why the winner cannot be settled, if it cannot.
pub open spec fn settle_error(b: Board) -> Option<SquaresError> {
    if !b.game_ended {
        Some(SquaresError::GameNotEnded)
    } else if b.winner is Some {
        Some(SquaresError::AlreadySettled)
    } else if b.squares@[final_square(b)] is None {
        Some(SquaresError::NoWinner)
    } else {
        None
    }
}

/// Settles an ended game: the owner of the winning square becomes the winner
/// and the whole pot becomes the payout.
pub fn settle_winner(board: &mut Board) -> (r: Result<(), SquaresError>)
    requires
        old(board).wf(),
    ensures
        final(board).wf(),
        match settle_error(*old(board)) {
            Some(e) => r == Err::<(), SquaresError>(e) && *final(board) == *old(board),
            None => {
                &&& r is Ok
                &&& 0 <= final_square(*old(board)) < 100
                &&& *final(board) == (Board {
                    winner: old(board).squares@[final_square(*old(board))],
                    payout_amount: old(board).total_pot,
                    ..*old(board)
                })
            },
        },
{
    if !board.game_ended {
        return Err(SquaresError::GameNotEnded);
    }
    if board.winner.is_some() {
        return Err(SquaresError::AlreadySettled);
    }
    let home_digit = board.home_score % 10;
    let away_digit = board.away_score % 10;
    proof {
        lemma_permutations_resolve(
            board.home_headers@,
            board.away_headers@,
            home_digit,
            away_digit,
        );
    }
    let winner_square = match find_winner_square(
        &board.home_headers,
        &board.away_headers,
        home_digit,
        away_digit,
    ) {
        Ok(i) => i,
        Err(e) => return Err(e),
    };
    let winner_address = board.squares[winner_square as usize];
    if winner_address.is_none() {
        return Err(SquaresError::NoWinner);
    }
    board.winner = winner_address;
    board.payout_amount = board.total_pot;
    Ok(())
}

/// Why the payout cannot be made to `claimant`, if it cannot (before any funds
/// are looked at).
pub open spec fn payout_error(b: Board, claimant: Address) -> Option<SquaresError> {
    if b.winner is None {
        Some(SquaresError::NoWinner)
    } else if b.payout_amount == 0 {
        Some(SquaresError::NoPayout)
    } else if b.winner != Some(claimant) {
        Some(SquaresError::InvalidWinner)
    } else {
        None
    }
}

/// Pays the settled winner: the payout moves from the board's balance to the
/// claimant's and the payout drops to zero, together or not at all.
pub fn payout_winner(
    board: &mut Board,
    claimant: Address,
    board_lamports: &mut u64,
    claimant_lamports: &mut u64,
) -> (r: Result<(), SquaresError>)
    requires
        old(board).wf(),
    ensures
        final(board).wf(),
        match payout_error(*old(board), claimant) {
            Some(e) => r == Err::<(), SquaresError>(e) && *final(board) == *old(board)
                && *final(board_lamports) == *old(board_lamports) && *final(claimant_lamports)
                == *old(claimant_lamports),
            None => match transfer_error(
                *old(board_lamports),
                *old(claimant_lamports),
                old(board).payout_amount,
            ) {
                Some(e) => r == Err::<(), SquaresError>(e) && *final(board) == *old(board)
                    && *final(board_lamports) == *old(board_lamports) && *final(claimant_lamports)
                    == *old(claimant_lamports),
                None => {
                    &&& r is Ok
                    &&& *final(board_lamports) == *old(board_lamports) - old(board).payout_amount
                    &&& *final(claimant_lamports) == *old(claimant_lamports)
                        + old(board).payout_amount
                    &&& *final(board) == (Board { payout_amount: 0, ..*old(board) })
                },
            },
        },
{
    let winner = match board.winner {
        Some(w) => w,
        None => return Err(SquaresError::NoWinner),
    };
    if board.payout_amount == 0 {
        return Err(SquaresError::NoPayout);
    }
    if !winner.same_as(&claimant) {
        return Err(SquaresError::InvalidWinner);
    }
    proof {
        lemma_same_bytes_same_address(winner, claimant);
    }
    transfer_lamports(board_lamports, claimant_lamports, board.payout_amount)?;
    board.payout_amount = 0;
    Ok(())
}

/// Why the fill rate cannot be set, if it cannot.
pub open spec fn fill_rate_error(b: Board, caller: Address, fill_rate: u8) -> Option<SquaresError> {
    if b.authority != caller {
        Some(SquaresError::Unauthorized)
    } else if fill_rate > 100 {
        Some(SquaresError::InvalidScore)
    } else {
        None
    }
}

/// The board's authority sets the cached fill rate, a percentage.
pub fn update_fill_rate(board: &mut Board, caller: Address, fill_rate: u8) -> (r: Result<
    (),
    SquaresError,
>)
    requires
        old(board).wf(),
    ensures
        final(board).wf(),
        match fill_rate_error(*old(board), caller, fill_rate) {
            Some(e) => r == Err::<(), SquaresError>(e) && *final(board) == *old(board),
            None => r is Ok && *final(board) == (Board { fill_rate, ..*old(board) }),
        },
{
    if !board.authority.same_as(&caller) {
        return Err(SquaresError::Unauthorized);
    }
    proof {
        lemma_same_bytes_same_address(board.authority, caller);
    }
    if fill_rate > 100 {
        return Err(SquaresError::InvalidScore);
    }
    board.fill_rate = fill_rate;
    Ok(())
}

/// The fee for a boost of `days` days, where such a boost is offered.
pub open spec fn boost_fee_of(days: u8) -> Option<u64> {
    if days == 1 {
        Some(50_000_000)
    } else if days == 3 {
        Some(120_000_000)
    } else if days == 7 {
        Some(250_000_000)
    } else {
        None
    }
}

/// The fee for a boost of `duration_days` days: one, three or seven days are offered.
pub fn boost_fee(duration_days: u8) -> (r: Option<u64>)
    ensures
        r == boost_fee_of(duration_days),
{
    match duration_days {
        1 => Some(50_000_000),
        3 => Some(120_000_000),
        7 => Some(250_000_000),
        _ => None,
    }
}

/// When a boost of `days` days bought at `now` ends.
pub open spec fn boost_expiry(now: i64, days: u8) -> int {
    now + days * SECONDS_PER_DAY
}

/// Why a boost cannot be bought, if it cannot (before any funds are looked at).
pub open spec fn boost_error(b: Board, t: Treasury, caller: Address, days: u8, now: i64) -> Option<
    SquaresError,
> {
    if b.authority != caller {
        Some(SquaresError::Unauthorized)
    } else if boost_fee_of(days) is None {
        Some(SquaresError::InvalidBoostDuration)
    } else if boost_expiry(now, days) > i64::MAX || b.boost_amount + boost_fee_of(days)->0
        > u64::MAX || t.total_collected + boost_fee_of(days)->0 > u64::MAX {
        Some(SquaresError::ArithmeticOverflow)
    } else {
        None
    }
}

/// The board's authority buys a boost of `duration_days` days at time `now`:
/// the fee moves from the authority's balance to the treasury's, the board's
/// boost total and the treasury's collected total grow by it, and the boost
/// runs until `now` plus the duration. All of it happens, or none.
pub fn boost_board(
    board: &mut Board,
    treasury: &mut Treasury,
    caller: Address,
    duration_days: u8,
    now: i64,
    caller_lamports: &mut u64,
    treasury_lamports: &mut u64,
) -> (r: Result<(), SquaresError>)
    requires
        old(board).wf(),
    ensures
        final(board).wf(),
        match boost_error(*old(board), *old(treasury), caller, duration_days, now) {
            Some(e) => {
                &&& r == Err::<(), SquaresError>(e)
                &&& *final(board) == *old(board)
                &&& *final(treasury) == *old(treasury)
                &&& *final(caller_lamports) == *old(caller_lamports)
                &&& *final(treasury_lamports) == *old(treasury_lamports)
            },
            None => match transfer_error(
                *old(caller_lamports),
                *old(treasury_lamports),
                boost_fee_of(duration_days)->0,
            ) {
                Some(e) => {
                    &&& r == Err::<(), SquaresError>(e)
                    &&& *final(board) == *old(board)
                    &&& *final(treasury) == *old(treasury)
                    &&& *final(caller_lamports) == *old(caller_lamports)
                    &&& *final(treasury_lamports) == *old(treasury_lamports)
                },
                None => {
                    &&& r is Ok
                    &&& *final(caller_lamports) == *old(caller_lamports) - boost_fee_of(
                        duration_days,
                    )->0
                    &&& *final(treasury_lamports) == *old(treasury_lamports) + boost_fee_of(
                        duration_days,
                    )->0
                    &&& *final(board) == (Board {
                        boost_amount: (old(board).boost_amount + boost_fee_of(duration_days)->0) as u64,
                        boost_expires_at: boost_expiry(now, duration_days) as i64,
                        ..*old(board)
                    })
                    &&& *final(treasury) == (Treasury {
                        total_collected: (old(treasury).total_collected + boost_fee_of(
                            duration_days,
                        )->0) as u64,
                        ..*old(treasury)
                    })
                },
            },
        },
{
    if !board.authority.same_as(&caller) {
        return Err(SquaresError::Unauthorized);
    }
    proof {
        lemma_same_bytes_same_address(board.authority, caller);
    }
    let fee = match boost_fee(duration_days) {
        Some(f) => f,
        None => return Err(SquaresError::InvalidBoostDuration),
    };
    let duration_seconds: i64 = duration_days as i64 * SECONDS_PER_DAY;
    if now > i64::MAX - duration_seconds {
        return Err(SquaresError::ArithmeticOverflow);
    }
    if board.boost_amount > u64::MAX - fee {
        return Err(SquaresError::ArithmeticOverflow);
    }
    if treasury.total_collected > u64::MAX - fee {
        return Err(SquaresError::ArithmeticOverflow);
    }
    transfer_lamports(caller_lamports, treasury_lamports, fee)?;
    board.boost_amount = board.boost_amount + fee;
    board.boost_expires_at = now + duration_seconds;
    treasury.total_collected = treasury.total_collected + fee;
    Ok(())
}

/// A square that has an owner cannot be bought again: while sales are open the
/// attempt fails with `SquareAlreadyOwned`.
pub proof fn law_owned_square_cannot_be_bought(b: Board, square_index: u8)
    requires
        b.wf(),
        b.randomized,
        !b.game_started,
        square_index < 100,
        b.squares@[square_index as int] is Some,
    ensures
        purchase_error(b, square_index) == Some(SquaresError::SquareAlreadyOwned),
{
}

/// A sale keeps every earlier owner, and the square sold is then owned for
/// good: buying it again fails with `SquareAlreadyOwned`.
pub proof fn law_sale_is_final(b: Board, after: Board, square_index: u8, buyer: Address)
    requires
        b.wf(),
        purchase_error(b, square_index) is None,
        after.squares@ == b.squares@.update(square_index as int, Some(buyer)),
        after == (Board {
            squares: after.squares,
            total_pot: (b.total_pot + SQUARE_PRICE) as u64,
            ..b
        }),
    ensures
        claimed_squares_kept(b.squares@, after.squares@),
        after.squares@[square_index as int] == Some(buyer),
        purchase_error(after, square_index) == Some(SquaresError::SquareAlreadyOwned),
{
}

/// Owners kept from one state to a second and from the second to a third are
/// kept from the first to the third.
pub proof fn law_claims_persist(
    s1: Seq<Option<Address>>,
    s2: Seq<Option<Address>>,
    s3: Seq<Option<Address>>,
)
    requires
        claimed_squares_kept(s1, s2),
        claimed_squares_kept(s2, s3),
    ensures
        claimed_squares_kept(s1, s3),
{
}

/// After a payout, a second payout fails with `NoPayout`; the payout stays zero
/// and the pot keeps its total.
pub proof fn law_payout_once(b: Board, paid: Board, claimant: Address, other: Address)
    requires
        b.wf(),
        payout_error(b, claimant) is None,
        paid == (Board { payout_amount: 0, ..b }),
    ensures
        payout_error(paid, other) == Some(SquaresError::NoPayout),
        paid.payout_amount == 0,
        paid.total_pot == b.total_pot,
{
}

/// After a settlement, a second one fails with `AlreadySettled` and the winner
/// is the owner of the winning square.
pub proof fn law_settle_once(b: Board, settled: Board)
    requires
        b.wf(),
        settle_error(b) is None,
        settled == (Board {
            winner: b.squares@[final_square(b)],
            payout_amount: b.total_pot,
            ..b
        }),
    ensures
        settle_error(settled) == Some(SquaresError::AlreadySettled),
        settled.winner is Some,
        settled.winner == b.squares@[final_square(b)],
{
}

/// A score of the final quarter ends the game, and every later score is
/// refused with `GameEnded`.
pub proof fn law_final_quarter_ends_game(b: Board, after: Board, home_score: u8, away_score: u8)
    requires
        b.wf(),
        record_error(b, FINAL_QUARTER) is None,
        after == (Board {
            home_score,
            away_score,
            quarter: FINAL_QUARTER,
            game_started: true,
            game_ended: true,
            ..b
        }),
    ensures
        after.game_ended,
        forall|q: u8| record_error(after, q) == Some(SquaresError::GameEnded),
{
}

} // verus!
