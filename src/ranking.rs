//! The discovery score of a boosted board, as an exact fraction.
//!
//! The score is `0.5 * boost + 0.3 * fill + 0.2 * urgency`, where `boost` is the
//! amount paid relative to a seven-day boost (at most 1), `fill` the fill rate
//! as a fraction and `urgency` the time left relative to seven days (at most 1).
//! It is returned as a count of `1 / BOOST_SCORE_SCALE` units, so it lies in
//! `0 ..= BOOST_SCORE_SCALE`.

use vstd::prelude::*;
use crate::board::Board;

verus! {

/// The boost amount that counts as a full boost: the fee of seven days.
pub const BOOST_BASELINE: u64 = 250_000_000;

/// The time left that counts as full urgency: seven days, in seconds.
pub const BOOST_HORIZON: u64 = 604_800;

/// Units of score per unit of boost amount paid: `500 * BOOST_HORIZON`.
pub const BOOST_WEIGHT: u64 = 302_400_000;

/// Units of score per percent of fill rate: `3 * BOOST_BASELINE * BOOST_HORIZON`.
pub const FILL_WEIGHT: u64 = 453_600_000_000_000;

/// Units of score per second left: `200 * BOOST_BASELINE`.
pub const URGENCY_WEIGHT: u64 = 50_000_000_000;

/// The score's denominator: `1000 * BOOST_BASELINE * BOOST_HORIZON`.
pub const BOOST_SCORE_SCALE: u64 = 151_200_000_000_000_000;

pub open spec fn min_int(a: int, b: int) -> int {
    if a <= b {
        a
    } else {
        b
    }
}

/// The score of `b` at `now`, in units of `1 / BOOST_SCORE_SCALE`: zero without
/// a running boost, else the weighted sum of the capped boost amount, the fill
/// rate and the capped time left.
pub open spec fn boost_score_units(b: Board, now: i64) -> int {
    if !b.spec_is_boosted(now) {
        0
    } else {
        BOOST_WEIGHT * min_int(b.boost_amount as int, BOOST_BASELINE as int) + FILL_WEIGHT
            * b.fill_rate + URGENCY_WEIGHT * min_int(b.boost_expires_at - now, BOOST_HORIZON as int)
    }
}

impl Board {
    /// The discovery score at `current_timestamp`, in units of
    /// `1 / BOOST_SCORE_SCALE`: zero unless a boost is running, and never more
    /// than one whole.
    pub fn calculate_boost_score(&self, current_timestamp: i64) -> (r: u64)
        requires
            self.wf(),
        ensures
            r == boost_score_units(*self, current_timestamp),
            r <= BOOST_SCORE_SCALE,
            r == 0 <==> !self.spec_is_boosted(current_timestamp),
    {
        if !self.is_boosted(current_timestamp) {
            return 0;
        }
        let boost: u64 = if self.boost_amount < BOOST_BASELINE {
            self.boost_amount
        } else {
            BOOST_BASELINE
        };
        let remaining: i128 = self.boost_expires_at as i128 - current_timestamp as i128;
        let urgency: u64 = if remaining < BOOST_HORIZON as i128 {
            remaining as u64
        } else {
            BOOST_HORIZON
        };
        assert(BOOST_WEIGHT * boost <= 75_600_000_000_000_000) by (nonlinear_arith)
            requires
                boost <= BOOST_BASELINE,
        ;
        assert(FILL_WEIGHT * (self.fill_rate as u64) <= 45_360_000_000_000_000) by (nonlinear_arith)
            requires
                self.fill_rate <= 100,
        ;
        assert(URGENCY_WEIGHT * urgency <= 30_240_000_000_000_000) by (nonlinear_arith)
            requires
                urgency <= BOOST_HORIZON,
        ;
        BOOST_WEIGHT * boost + FILL_WEIGHT * (self.fill_rate as u64) + URGENCY_WEIGHT * urgency
    }
}

} // verus!
