//! The errors that the board's operations return.

use vstd::prelude::*;

verus! {

/// Why an operation on a board or on the treasury was refused. A refused
/// operation changes nothing.
#[derive(Clone, Copy, Debug, PartialEq, Eq, Structural)]
pub enum SquaresError {
    AlreadyRandomized,
    GameAlreadyStarted,
    GameNotEnded,
    GameEnded,
    NotRandomized,
    InvalidVrfProof,
    InvalidSquareIndex,
    SquareAlreadyOwned,
    InvalidQuarter,
    NoWinner,
    AlreadySettled,
    NoPayout,
    InvalidWinner,
    InvalidScore,
    InvalidBoostDuration,
    /// The caller is not the board's authority.
    Unauthorized,
    /// The paying balance holds less than the amount.
    InsufficientFunds,
    /// A balance or a counter would pass its largest value.
    ArithmeticOverflow,
    /// A board for the game already exists.
    BoardExists,
}

impl SquaresError {
    /// The message shown for the error.
    pub fn message(&self) -> (r: &'static str) {
        match self {
            SquaresError::AlreadyRandomized => "Board has already been randomized",
            SquaresError::GameAlreadyStarted => "Game has already started",
            SquaresError::GameNotEnded => "Game has not ended yet",
            SquaresError::GameEnded => "Game has already ended",
            SquaresError::NotRandomized => "Board has not been randomized",
            SquaresError::InvalidVrfProof => "Invalid VRF proof",
            SquaresError::InvalidSquareIndex => "Invalid square index",
            SquaresError::SquareAlreadyOwned => "Square is already owned",
            SquaresError::InvalidQuarter => "Invalid quarter",
            SquaresError::NoWinner => "No winner found",
            SquaresError::AlreadySettled => "Already settled",
            SquaresError::NoPayout => "No payout available",
            SquaresError::InvalidWinner => "Invalid winner",
            SquaresError::InvalidScore => "Invalid score",
            SquaresError::InvalidBoostDuration => "Invalid boost duration",
            SquaresError::Unauthorized => "Caller is not the board authority",
            SquaresError::InsufficientFunds => "Insufficient funds",
            SquaresError::ArithmeticOverflow => "Arithmetic overflow",
            SquaresError::BoardExists => "A board for this game already exists",
        }
    }
}

} // verus!
