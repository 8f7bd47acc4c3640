//! Resolving the winning square from the final score's last digits.

use vstd::prelude::*;
use crate::error::SquaresError;
use crate::headers::{is_digit_permutation, lemma_permutation_covers_digits};

verus! {

/// `p` is the first slot of `s` that holds `d`.
pub open spec fn is_first_position(s: Seq<u8>, d: u8, p: int) -> bool {
    &&& 0 <= p < s.len()
    &&& s[p] == d
    &&& forall|q: int| 0 <= q < p ==> s[q] != d
}

/// The first slot of `s` that holds `d` (meaningful where `s` holds `d`).
pub open spec fn position_of(s: Seq<u8>, d: u8) -> int {
    choose|p: int| is_first_position(s, d, p)
}

/// The square at the row of `home_digit` and the column of `away_digit`.
pub open spec fn winning_square(home: Seq<u8>, away: Seq<u8>, home_digit: u8, away_digit: u8) -> int {
    position_of(home, home_digit) * 10 + position_of(away, away_digit)
}

proof fn lemma_first_position_is_position_of(s: Seq<u8>, d: u8, p: int)
    requires
        is_first_position(s, d, p),
    ensures
        position_of(s, d) == p,
{
    let q = position_of(s, d);
    assert(is_first_position(s, d, q));
    if q < p {
        assert(s[q] != d);
    } else if p < q {
        assert(s[p] != d);
    }
}

/// The slot of a header that holds `digit`, if one does.
pub fn header_position(headers: &[u8; 10], digit: u8) -> (r: Option<usize>)
    ensures
        match r {
            Some(p) => is_first_position(headers@, digit, p as int) && position_of(headers@, digit)
                == p,
            None => !headers@.contains(digit),
        },
{
    let mut i: usize = 0;
    while i < 10
        invariant
            0 <= i <= 10,
            forall|q: int| 0 <= q < i ==> headers@[q] != digit,
        decreases 10 - i,
    {
        if headers[i] == digit {
            proof {
                lemma_first_position_is_position_of(headers@, digit, i as int);
            }
            return Some(i);
        }
        i += 1;
    }
    None
}

/// Finds the winning square: the row is the slot of `home_digit` in the home
/// header, the column the slot of `away_digit` in the away header. Fails with
/// `InvalidScore` where a header lacks its digit.
pub fn find_winner_square(
    home_headers: &[u8; 10],
    away_headers: &[u8; 10],
    home_digit: u8,
    away_digit: u8,
) -> (r: Result<u8, SquaresError>)
    ensures
        r is Ok <==> (home_headers@.contains(home_digit) && away_headers@.contains(away_digit)),
        r matches Ok(i) ==> i as int == winning_square(
            home_headers@,
            away_headers@,
            home_digit,
            away_digit,
        ) && i < 100,
        r matches Err(e) ==> e == SquaresError::InvalidScore,
{
    let home_index = match header_position(home_headers, home_digit) {
        Some(p) => p,
        None => return Err(SquaresError::InvalidScore),
    };
    let away_index = match header_position(away_headers, away_digit) {
        Some(p) => p,
        None => {
            assert(home_headers@.contains(home_digit));
            return Err(SquaresError::InvalidScore);
        },
    };
    assert(home_headers@.contains(home_digit));
    assert(away_headers@.contains(away_digit));
    Ok((home_index * 10 + away_index) as u8)
}

/// With both headers full permutations, every pair of digits resolves to a
/// square below 100.
pub proof fn lemma_permutations_resolve(home: Seq<u8>, away: Seq<u8>, home_digit: u8, away_digit: u8)
    requires
        is_digit_permutation(home),
        is_digit_permutation(away),
        home_digit < 10,
        away_digit < 10,
    ensures
        home.contains(home_digit),
        away.contains(away_digit),
        0 <= winning_square(home, away, home_digit, away_digit) < 100,
{
    lemma_permutation_covers_digits(home, home_digit);
    lemma_permutation_covers_digits(away, away_digit);
    let p = choose|p: int| 0 <= p < home.len() && home[p] == home_digit;
    let q = choose|q: int| 0 <= q < away.len() && away[q] == away_digit;
    lemma_least_position(home, home_digit, p);
    lemma_least_position(away, away_digit, q);
}

proof fn lemma_least_position(s: Seq<u8>, d: u8, p: int)
    requires
        0 <= p < s.len(),
        s[p] == d,
    ensures
        0 <= position_of(s, d) <= p,
        is_first_position(s, d, position_of(s, d)),
    decreases p,
{
    if exists|q: int| 0 <= q < p && s[q] == d {
        let q = choose|q: int| 0 <= q < p && s[q] == d;
        lemma_least_position(s, d, q);
    } else {
        lemma_first_position_is_position_of(s, d, p);
    }
}

} // verus!
