//! Derivation of a row or column header: a permutation of the digits 0 to 9
//! drawn from randomness bytes by linear probing.

use vstd::prelude::*;

verus! {

/// The number of header slots on each axis.
pub const HEADER_LEN: usize = 10;

/// Each slot holds a distinct digit below ten.
pub open spec fn is_digit_permutation(h: Seq<u8>) -> bool {
    &&& h.len() == 10
    &&& forall|i: int| 0 <= i < 10 ==> h[i] < 10
    &&& forall|i: int, j: int| 0 <= i < j < 10 ==> h[i] != h[j]
}

/// The digit that slot `i` first tries: its byte of the randomness, modulo ten.
pub open spec fn probe_start(r: Seq<u8>, i: int) -> int {
    (r[i % (r.len() as int)] as int) % 10
}

/// The digit that slot `i` tries after `k` steps of probing.
pub open spec fn probe_digit(r: Seq<u8>, i: int, k: int) -> int {
    (probe_start(r, i) + k) % 10
}

/// Slot `i` holds the first digit, probing upward from `probe_start` and
/// wrapping after 9, that no earlier slot holds.
pub open spec fn slot_follows_probe(r: Seq<u8>, h: Seq<u8>, i: int) -> bool {
    exists|k: int|
        #![trigger probe_digit(r, i, k)]
        0 <= k < 10 && h[i] as int == probe_digit(r, i, k) && forall|m: int|
            0 <= m < k ==> h.subrange(0, i).contains(#[trigger] probe_digit(r, i, m) as u8)
}

/// `h` is the header that linear probing derives from the bytes `r`.
pub open spec fn derived_from(r: Seq<u8>, h: Seq<u8>) -> bool {
    &&& is_digit_permutation(h)
    &&& forall|i: int| 0 <= i < 10 ==> slot_follows_probe(r, h, i)
}

proof fn lemma_digits_as_ints_no_dup(s: Seq<u8>)
    requires
        forall|i: int, j: int| 0 <= i < j < s.len() ==> s[i] != s[j],
    ensures
        s.map_values(|x: u8| x as int).no_duplicates(),
        s.map_values(|x: u8| x as int).to_set().len() == s.len(),
{
    let t = s.map_values(|x: u8| x as int);
    assert forall|i: int, j: int| 0 <= i < t.len() && 0 <= j < t.len() && i != j implies t[i]
        != t[j] by {
        if i < j {
            assert(s[i] != s[j]);
        } else {
            assert(s[j] != s[i]);
        }
    }
    t.unique_seq_to_set();
}

/// Fewer than ten digits leave some digit below ten unused.
proof fn lemma_free_digit_exists(s: Seq<u8>) -> (d: u8)
    requires
        s.len() < 10,
    ensures
        d < 10,
        !s.contains(d),
{
    let t = s.map_values(|x: u8| x as int);
    t.lemma_cardinality_of_set();
    vstd::set_lib::lemma_int_range(0, 10);
    if forall|d: int| 0 <= d < 10 ==> t.to_set().contains(d) {
        assert(vstd::set_lib::set_int_range(0, 10).subset_of(t.to_set()));
        vstd::set_lib::lemma_len_subset(vstd::set_lib::set_int_range(0, 10), t.to_set());
        assert(false);
    }
    let e: int = choose|e: int| 0 <= e < 10 && !t.to_set().contains(e);
    let d = e as u8;
    if s.contains(d) {
        let j = choose|j: int| 0 <= j < s.len() && s[j] == d;
        assert(t[j] == e);
        assert(t.to_set().contains(e));
    }
    d
}

/// Ten distinct digits below ten take every digit below ten.
pub proof fn lemma_permutation_covers_digits(h: Seq<u8>, d: u8)
    requires
        is_digit_permutation(h),
        d < 10,
    ensures
        h.contains(d),
{
    if !h.contains(d) {
        let t = h.map_values(|x: u8| x as int);
        lemma_digits_as_ints_no_dup(h);
        let others = vstd::set_lib::set_int_range(0, 10).remove(d as int);
        vstd::set_lib::lemma_int_range(0, 10);
        assert forall|e: int| t.to_set().contains(e) implies others.contains(e) by {
            let j = choose|j: int| 0 <= j < t.len() && t[j] == e;
            assert(h[j] < 10);
            assert(h[j] != d);
        }
        vstd::set_lib::lemma_len_subset(t.to_set(), others);
        assert(false);
    }
}

proof fn lemma_probe_step(a: int)
    requires
        0 <= a,
    ensures
        ((a % 10) + 1) % 10 == (a + 1) % 10,
{
}

proof fn lemma_probe_reaches(start: int, free: int)
    requires
        0 <= start < 10,
        0 <= free < 10,
    ensures
        (start + (free - start + 10) % 10) % 10 == free,
{
}

/// Every header that linear probing derives from sixteen bytes holds each digit
/// 0 to 9 exactly once.
pub proof fn law_derived_header_is_permutation(r: Seq<u8>, h: Seq<u8>)
    requires
        r.len() == 16,
        derived_from(r, h),
    ensures
        is_digit_permutation(h),
        forall|d: u8| d < 10 ==> h.contains(d),
{
    assert forall|d: u8| d < 10 implies h.contains(d) by {
        lemma_permutation_covers_digits(h, d);
    }
}

proof fn lemma_prefix_agrees(r: Seq<u8>, h1: Seq<u8>, h2: Seq<u8>, n: int)
    requires
        r.len() > 0,
        0 <= n <= 10,
        derived_from(r, h1),
        derived_from(r, h2),
    ensures
        h1.subrange(0, n) == h2.subrange(0, n),
    decreases n,
{
    if n > 0 {
        let i = n - 1;
        lemma_prefix_agrees(r, h1, h2, i);
        assert(slot_follows_probe(r, h1, i));
        assert(slot_follows_probe(r, h2, i));
        let k1 = choose|k: int|
            #![trigger probe_digit(r, i, k)]
            0 <= k < 10 && h1[i] as int == probe_digit(r, i, k) && forall|m: int|
                0 <= m < k ==> h1.subrange(0, i).contains(#[trigger] probe_digit(r, i, m) as u8);
        let k2 = choose|k: int|
            #![trigger probe_digit(r, i, k)]
            0 <= k < 10 && h2[i] as int == probe_digit(r, i, k) && forall|m: int|
                0 <= m < k ==> h2.subrange(0, i).contains(#[trigger] probe_digit(r, i, m) as u8);
        if k1 < k2 {
            assert(h2.subrange(0, i).contains(probe_digit(r, i, k1) as u8));
            let j = choose|j: int| 0 <= j < i && #[trigger] h1.subrange(0, i)[j] == h1[i];
            assert(h1[j] == h1[i]);
        } else if k2 < k1 {
            assert(h1.subrange(0, i).contains(probe_digit(r, i, k2) as u8));
            let j = choose|j: int| 0 <= j < i && #[trigger] h2.subrange(0, i)[j] == h2[i];
            assert(h2[j] == h2[i]);
        }
        assert forall|j: int| 0 <= j < n implies h1[j] == h2[j] by {
            if j < i {
                assert(h1.subrange(0, i)[j] == h2.subrange(0, i)[j]);
            }
        }
        assert(h1.subrange(0, n) =~= h2.subrange(0, n));
    }
}

/// Linear probing leaves no choice: two headers derived from the same bytes
/// are the same header.
pub proof fn law_derivation_is_deterministic(r: Seq<u8>, h1: Seq<u8>, h2: Seq<u8>)
    requires
        r.len() > 0,
        derived_from(r, h1),
        derived_from(r, h2),
    ensures
        h1 == h2,
{
    lemma_prefix_agrees(r, h1, h2, 10);
    assert(h1 =~= h1.subrange(0, 10));
    assert(h2 =~= h2.subrange(0, 10));
}

/// Derives a header from randomness bytes. Slot `i` starts at byte `i` (taken
/// cyclically) modulo ten and probes upward, wrapping after 9, past the digits
/// that earlier slots hold.
pub fn derive_headers(randomness: &[u8]) -> (headers: [u8; 10])
    requires
        randomness@.len() > 0,
    ensures
        derived_from(randomness@, headers@),
{
    let mut headers = [0u8; 10];
    let mut used = [false; 10];
    let mut i: usize = 0;
    while i < HEADER_LEN
        invariant
            0 <= i <= 10,
            randomness@.len() > 0,
            forall|j: int| 0 <= j < i ==> headers@[j] < 10,
            forall|a: int, b: int| 0 <= a < b < i ==> headers@[a] != headers@[b],
            forall|d: int|
                0 <= d < 10 ==> (used@[d] <==> headers@.subrange(0, i as int).contains(d as u8)),
            forall|j: int| 0 <= j < i ==> slot_follows_probe(randomness@, headers@, j),
        decreases 10 - i,
    {
        let start: usize = (randomness[i % randomness.len()] as usize) % 10;
        let mut value: usize = start;
        let ghost taken = headers@.subrange(0, i as int);
        let ghost free = lemma_free_digit_exists(taken);
        let ghost mut k: int = 0;
        let ghost reach: int = (free as int - start as int + 10) % 10;
        proof {
            lemma_probe_reaches(start as int, free as int);
        }
        assert(!used@[free as int]);
        while used[value]
            invariant
                i < 10,
                value < 10,
                0 <= k <= reach < 10,
                free < 10,
                !used@[free as int],
                probe_digit(randomness@, i as int, reach) == free as int,
                taken == headers@.subrange(0, i as int),
                forall|d: int| 0 <= d < 10 ==> (used@[d] <==> taken.contains(d as u8)),
                start as int == probe_start(randomness@, i as int),
                value as int == probe_digit(randomness@, i as int, k),
                forall|m: int| 0 <= m < k ==> taken.contains(#[trigger] probe_digit(randomness@, i as int, m) as u8),
            decreases reach - k,
        {
            proof {
                lemma_probe_step(start as int + k);
            }
            value = (value + 1) % 10;
            proof {
                k = k + 1;
            }
        }
        let ghost before = headers@;
        assert forall|a: int| 0 <= a < i implies before[a] != value as u8 by {
            assert(taken[a] == before[a]);
            assert(taken.contains(taken[a]));
        }
        headers[i] = value as u8;
        used[value] = true;
        assert(headers@.subrange(0, i as int) =~= taken);
        assert(headers@.subrange(0, i as int + 1) =~= taken.push(value as u8));
        assert forall|d: int| 0 <= d < 10 implies (used@[d] <==> headers@.subrange(
            0,
            i as int + 1,
        ).contains(d as u8)) by {
            if d != value as int {
                assert(taken.push(value as u8).contains(d as u8) ==> taken.contains(d as u8)) by {
                    if taken.push(value as u8).contains(d as u8) {
                        let pushed = taken.push(value as u8);
                        let j = choose|j: int| 0 <= j < pushed.len() && #[trigger] pushed[j] == d as u8;
                        assert(j < taken.len());
                        assert(taken[j] == d as u8);
                    }
                }
            } else {
                assert(taken.push(value as u8)[i as int] == value as u8);
            }
        }
        assert(slot_follows_probe(randomness@, headers@, i as int)) by {
            assert(probe_digit(randomness@, i as int, k) == value as int);
        }
        assert forall|j: int| 0 <= j < i implies slot_follows_probe(randomness@, headers@, j) by {
            assert(headers@.subrange(0, j) =~= before.subrange(0, j));
            assert(slot_follows_probe(randomness@, before, j));
        }
        i += 1;
    }
    headers
}

} // verus!
