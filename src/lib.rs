//! A verified "squares" board: one hundred cells sold to players, digit headers
//! drawn from verified randomness, live scores, settlement and payout, plus the
//! paid discovery boost and its ranking score, and the season passes that share
//! the board's scoring conventions.

pub mod address;
pub mod error;
pub mod funds;
pub mod headers;
pub mod settlement;
pub mod board;
pub mod lifecycle;
pub mod registry;
pub mod treasury;
pub mod ranking;
pub mod season_pass;
