//! One board's state: its squares and pot, headers, score, settlement and
//! boost, with the invariant that the lifecycle keeps.

use vstd::prelude::*;
use crate::address::Address;
use crate::headers::is_digit_permutation;

verus! {

/// The number of squares on a board.
pub const SQUARE_COUNT: usize = 100;

/// What one square costs, in native currency units.
pub const SQUARE_PRICE: u64 = 10_000_000;

/// The value of a header slot before randomization.
pub const HEADER_UNSET: u8 = 10;

/// The quarter whose score ends the game.
pub const FINAL_QUARTER: u8 = 4;

/// Seconds in a day.
pub const SECONDS_PER_DAY: i64 = 86_400;

/// Who can find and join a board.
#[derive(Clone, Copy, Debug, PartialEq, Eq, Structural)]
pub enum BoardVisibility {
    /// Anyone can find and join.
    Public,
    /// Reached through a direct link only.
    InviteOnly,
    /// Restricted to VIP holders.
    VipOnly,
}

/// The state of one game's board.
#[derive(Clone, Copy, Debug)]
pub struct Board {
    pub game_id: u64,
    pub authority: Address,
    pub finalized: bool,
    pub randomized: bool,
    pub game_started: bool,
    pub game_ended: bool,
    pub winner: Option<Address>,
    pub payout_amount: u64,
    pub total_pot: u64,
    pub home_score: u8,
    pub away_score: u8,
    pub quarter: u8,
    pub squares: [Option<Address>; 100],
    pub home_headers: [u8; 10],
    pub away_headers: [u8; 10],
    /// Everything ever paid for boosts.
    pub boost_amount: u64,
    /// When the latest boost ends, in Unix seconds.
    pub boost_expires_at: i64,
    pub created_at: i64,
    pub visibility: BoardVisibility,
    pub price_per_square: u64,
    /// Cached share of squares sold, in percent.
    pub fill_rate: u8,
    /// Discovery tags.
    pub tags: [u8; 32],
}

/// The number of claimed squares.
pub open spec fn count_owned(s: Seq<Option<Address>>) -> nat
    decreases s.len(),
{
    if s.len() == 0 {
        0
    } else {
        count_owned(s.drop_last()) + if s.last() is Some {
            1nat
        } else {
            0nat
        }
    }
}

pub(crate) proof fn lemma_count_owned_bound(s: Seq<Option<Address>>)
    ensures
        count_owned(s) <= s.len(),
    decreases s.len(),
{
    if s.len() > 0 {
        lemma_count_owned_bound(s.drop_last());
    }
}

pub(crate) proof fn lemma_count_owned_claim(s: Seq<Option<Address>>, i: int, a: Address)
    requires
        0 <= i < s.len(),
        s[i] is None,
    ensures
        count_owned(s.update(i, Some(a))) == count_owned(s) + 1,
    decreases s.len(),
{
    let t = s.update(i, Some(a));
    if i == s.len() - 1 {
        assert(t.drop_last() =~= s.drop_last());
    } else {
        assert(t.drop_last() =~= s.drop_last().update(i, Some(a)));
        lemma_count_owned_claim(s.drop_last(), i, a);
    }
}

/// All ten slots hold the unset marker.
pub open spec fn headers_unset(h: Seq<u8>) -> bool {
    &&& h.len() == 10
    &&& forall|i: int| 0 <= i < 10 ==> h[i] == HEADER_UNSET
}

/// Every square claimed in `before` keeps its owner in `after`.
pub open spec fn claimed_squares_kept(before: Seq<Option<Address>>, after: Seq<Option<Address>>) -> bool {
    &&& before.len() == after.len()
    &&& forall|i: int| 0 <= i < before.len() && before[i] is Some ==> after[i] == before[i]
}

impl Board {
    /// The board's invariant.
    pub open spec fn wf(&self) -> bool {
        &&& self.quarter <= FINAL_QUARTER
        &&& self.fill_rate <= 100
        &&& !self.randomized ==> headers_unset(self.home_headers@) && headers_unset(
            self.away_headers@,
        )
        &&& self.randomized ==> is_digit_permutation(self.home_headers@) && is_digit_permutation(
            self.away_headers@,
        )
        &&& self.total_pot == SQUARE_PRICE * count_owned(self.squares@)
        &&& self.payout_amount <= self.total_pot
        &&& self.winner is None ==> self.payout_amount == 0
        &&& self.winner is Some ==> self.game_ended
        &&& self.game_ended ==> self.game_started
        &&& self.game_started ==> self.randomized
    }

    /// Whether a boost is running at `now`.
    pub open spec fn spec_is_boosted(&self, now: i64) -> bool {
        self.boost_expires_at > now && self.boost_amount > 0
    }

    /// Whether a boost is running at `now`: it has not expired and something was paid.
    pub fn is_boosted(&self, current_timestamp: i64) -> (r: bool)
        ensures
            r == self.spec_is_boosted(current_timestamp),
    {
        self.boost_expires_at > current_timestamp && self.boost_amount > 0
    }
}

/// `b` is a board just opened: no square sold, headers unset, pot empty, no
/// boost, created at `now`.
pub open spec fn is_fresh_board(
    b: Board,
    game_id: u64,
    authority: Address,
    price_per_square: u64,
    visibility: BoardVisibility,
    now: i64,
) -> bool {
    &&& b.wf()
    &&& b.game_id == game_id
    &&& b.authority == authority
    &&& b.price_per_square == price_per_square
    &&& b.visibility == visibility
    &&& b.created_at == now
    &&& !b.finalized && !b.randomized && !b.game_started && !b.game_ended
    &&& b.winner is None
    &&& b.payout_amount == 0 && b.total_pot == 0
    &&& b.home_score == 0 && b.away_score == 0 && b.quarter == 0
    &&& forall|i: int| 0 <= i < 100 ==> b.squares@[i] is None
    &&& headers_unset(b.home_headers@) && headers_unset(b.away_headers@)
    &&& b.boost_amount == 0 && b.boost_expires_at == 0
    &&& b.fill_rate == 0
    &&& forall|i: int| 0 <= i < 32 ==> b.tags@[i] == 0
}

/// Opens a board: no square sold, headers unset, pot empty, no boost.
pub fn create_board(
    game_id: u64,
    authority: Address,
    price_per_square: u64,
    visibility: BoardVisibility,
    now: i64,
) -> (b: Board)
    ensures
        is_fresh_board(b, game_id, authority, price_per_square, visibility, now),
{
    let b = Board {
        game_id,
        authority,
        finalized: false,
        randomized: false,
        game_started: false,
        game_ended: false,
        winner: None,
        payout_amount: 0,
        total_pot: 0,
        home_score: 0,
        away_score: 0,
        quarter: 0,
        squares: [None; 100],
        home_headers: [HEADER_UNSET; 10],
        away_headers: [HEADER_UNSET; 10],
        boost_amount: 0,
        boost_expires_at: 0,
        created_at: now,
        visibility,
        price_per_square,
        fill_rate: 0,
        tags: [0u8; 32],
    };
    proof {
        lemma_count_none(b.squares@);
    }
    b
}

proof fn lemma_count_none(s: Seq<Option<Address>>)
    requires
        forall|i: int| 0 <= i < s.len() ==> s[i] is None,
    ensures
        count_owned(s) == 0,
    decreases s.len(),
{
    if s.len() > 0 {
        lemma_count_none(s.drop_last());
    }
}

/// Whether a header is a permutation of the digits 0 to 9.
pub fn is_permutation_header(h: &[u8; 10]) -> (r: bool)
    ensures
        r == is_digit_permutation(h@),
{
    let mut seen = [false; 10];
    let mut i: usize = 0;
    while i < 10
        invariant
            0 <= i <= 10,
            forall|j: int| 0 <= j < i ==> h@[j] < 10,
            forall|a: int, b: int| 0 <= a < b < i ==> h@[a] != h@[b],
            forall|d: int| 0 <= d < 10 ==> (seen@[d] <==> exists|j: int| 0 <= j < i && h@[j] == d),
        decreases 10 - i,
    {
        let d = h[i];
        if d >= 10 {
            return false;
        }
        if seen[d as usize] {
            let ghost j = choose|j: int| 0 <= j < i && h@[j] == d;
            assert(h@[j] == h@[i as int]);
            return false;
        }
        seen[d as usize] = true;
        i += 1;
        assert forall|e: int| 0 <= e < 10 implies (seen@[e] <==> exists|j: int| 0 <= j < i && h@[j] == e) by {
            if e == d as int {
                assert(h@[i - 1] == e);
            }
        }
    }
    true
}

/// Whether a header holds the unset marker in every slot.
pub fn is_unset_header(h: &[u8; 10]) -> (r: bool)
    ensures
        r == headers_unset(h@),
{
    let mut i: usize = 0;
    while i < 10
        invariant
            0 <= i <= 10,
            forall|j: int| 0 <= j < i ==> h@[j] == HEADER_UNSET,
        decreases 10 - i,
    {
        if h[i] != HEADER_UNSET {
            return false;
        }
        i += 1;
    }
    true
}

/// The number of claimed squares.
pub fn owned_count(squares: &[Option<Address>; 100]) -> (r: u64)
    ensures
        r == count_owned(squares@),
        r <= 100,
{
    let mut count: u64 = 0;
    let mut i: usize = 0;
    while i < SQUARE_COUNT
        invariant
            0 <= i <= 100,
            count == count_owned(squares@.subrange(0, i as int)),
            count <= i,
        decreases 100 - i,
    {
        assert(squares@.subrange(0, i as int + 1).drop_last() =~= squares@.subrange(0, i as int));
        if squares[i].is_some() {
            count = count + 1;
        }
        i += 1;
    }
    assert(squares@.subrange(0, 100) =~= squares@);
    count
}

impl Board {
    /// Whether the board meets its invariant; a board read back from storage
    /// is checked with this before the operations take it.
    pub fn check_wf(&self) -> (r: bool)
        ensures
            r == self.wf(),
    {
        if self.quarter > FINAL_QUARTER || self.fill_rate > 100 {
            return false;
        }
        if self.randomized {
            if !is_permutation_header(&self.home_headers) || !is_permutation_header(&self.away_headers) {
                return false;
            }
        } else {
            if !is_unset_header(&self.home_headers) || !is_unset_header(&self.away_headers) {
                return false;
            }
        }
        let count = owned_count(&self.squares);
        if self.total_pot != SQUARE_PRICE * count {
            return false;
        }
        if self.payout_amount > self.total_pot {
            return false;
        }
        if self.winner.is_none() && self.payout_amount != 0 {
            return false;
        }
        if self.winner.is_some() && !self.game_ended {
            return false;
        }
        if self.game_ended && !self.game_started {
            return false;
        }
        if self.game_started && !self.randomized {
            return false;
        }
        true
    }
}

} // verus!
