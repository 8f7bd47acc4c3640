use squares::headers::derive_headers;
use squares::settlement::{find_winner_square, header_position};
use squares::error::SquaresError;

fn is_permutation(h: &[u8; 10]) -> bool {
    let mut seen = [false; 10];
    for &d in h.iter() {
        if d >= 10 || seen[d as usize] {
            return false;
        }
        seen[d as usize] = true;
    }
    true
}

#[test]
fn derive_headers_probes_past_taken_digits() {
    let r = [255u8, 7, 7, 42, 99, 0, 13, 13, 13, 250, 1, 2, 3, 4, 5, 6];
    assert_eq!(derive_headers(&r), [5, 7, 8, 2, 9, 0, 3, 4, 6, 1]);
}

#[test]
fn derive_headers_all_zero_bytes_count_up() {
    assert_eq!(derive_headers(&[0u8; 16]), [0, 1, 2, 3, 4, 5, 6, 7, 8, 9]);
}

#[test]
fn derive_headers_equal_digits_wrap_after_nine() {
    assert_eq!(derive_headers(&[15u8; 16]), [5, 6, 7, 8, 9, 0, 1, 2, 3, 4]);
}

#[test]
fn derive_headers_short_input_is_taken_cyclically() {
    assert_eq!(derive_headers(&[9u8]), [9, 0, 1, 2, 3, 4, 5, 6, 7, 8]);
    assert_eq!(derive_headers(&[4u8, 4]), [4, 5, 6, 7, 8, 9, 0, 1, 2, 3]);
}

#[test]
fn derive_headers_is_always_a_permutation() {
    let mut seed: u32 = 12345;
    for _ in 0..500 {
        let mut r = [0u8; 16];
        for b in r.iter_mut() {
            seed = seed.wrapping_mul(1103515245).wrapping_add(12345);
            *b = (seed >> 16) as u8;
        }
        let h = derive_headers(&r);
        assert!(is_permutation(&h));
        assert_eq!(derive_headers(&r), h);
    }
}

#[test]
fn winner_square_of_the_worked_example() {
    let home = [3u8, 0, 7, 1, 9, 4, 2, 8, 5, 6];
    let away = [5u8, 2, 8, 0, 6, 3, 9, 1, 7, 4];
    assert_eq!(find_winner_square(&home, &away, 23 % 10, 46 % 10), Ok(4));
    assert_eq!(find_winner_square(&home, &away, 6, 3), Ok(95));
}

#[test]
fn winner_square_missing_digit_is_invalid_score() {
    let unset = [10u8; 10];
    let home = [3u8, 0, 7, 1, 9, 4, 2, 8, 5, 6];
    assert_eq!(find_winner_square(&unset, &home, 3, 3), Err(SquaresError::InvalidScore));
    assert_eq!(find_winner_square(&home, &unset, 3, 3), Err(SquaresError::InvalidScore));
}

#[test]
fn header_position_finds_first_slot() {
    let h = [3u8, 0, 7, 7, 9, 4, 2, 8, 5, 6];
    assert_eq!(header_position(&h, 7), Some(2));
    assert_eq!(header_position(&h, 1), None);
}
