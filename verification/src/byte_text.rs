//! Texts as UTF-8 bytes: searching for a text inside another by byte
//! offset (as `str::find` does) and cutting a text at byte offsets.
use vstd::prelude::*;
use vstd::string::StringSliceAdditionalSpecFns;
use vstd::utf8::{decode_utf8, encode_utf8, is_char_boundary, valid_utf8};

verus! {

/// The UTF-8 encoding of a text.
pub open spec fn bytes_of(s: Seq<char>) -> Seq<u8> {
    encode_utf8(s)
}

/// `n` occurs in `h` at byte offset `p`.
pub open spec fn occurs_at_byte(h: Seq<u8>, n: Seq<u8>, p: int) -> bool {
    0 <= p && p + n.len() <= h.len() && h.subrange(p, p + n.len()) == n
}

/// The first byte offset at or after `from` where `n` occurs in `h`.
pub open spec fn first_occurrence(h: Seq<u8>, n: Seq<u8>, from: int) -> Option<int>
    decreases h.len() + 1 - from,
{
    if from < 0 || from + n.len() > h.len() {
        None
    } else if occurs_at_byte(h, n, from) {
        Some(from)
    } else {
        first_occurrence(h, n, from + 1)
    }
}

/// The offsets where `n` occurs in `h` from `from` on, each search resuming
/// after the previous occurrence (occurrences do not overlap); an empty `n`
/// is found once.
pub open spec fn occurrences_from(h: Seq<u8>, n: Seq<u8>, from: int) -> Seq<int>
    decreases h.len() + 1 - from,
{
    match first_occurrence(h, n, from) {
        Some(p) => if n.len() > 0 && p >= from && p + n.len() <= h.len() {
            seq![p] + occurrences_from(h, n, p + n.len())
        } else {
            seq![p]
        },
        None => Seq::empty(),
    }
}

/// The offsets where `n` occurs in `h` from `from` on, each search resuming
/// one byte after the previous occurrence (occurrences may overlap).
pub open spec fn candidates_from(h: Seq<u8>, n: Seq<u8>, from: int) -> Seq<int>
    decreases h.len() + 1 - from,
{
    match first_occurrence(h, n, from) {
        Some(p) => if p >= from && p + n.len() <= h.len() {
            seq![p] + candidates_from(h, n, p + 1)
        } else {
            seq![p]
        },
        None => Seq::empty(),
    }
}

proof fn lemma_first_occurrence_bounds(h: Seq<u8>, n: Seq<u8>, from: int)
    ensures
        first_occurrence(h, n, from) matches Some(p) ==> from <= p && occurs_at_byte(h, n, p),
    decreases h.len() + 1 - from,
{
    if !(from < 0 || from + n.len() > h.len()) && !occurs_at_byte(h, n, from) {
        lemma_first_occurrence_bounds(h, n, from + 1);
    }
}

/// Every offset found is an occurrence.
pub proof fn lemma_occurrences_occur(h: Seq<u8>, n: Seq<u8>, from: int)
    ensures
        forall|i: int| 0 <= i < occurrences_from(h, n, from).len() ==> occurs_at_byte(h, n, #[trigger] occurrences_from(h, n, from)[i]),
    decreases h.len() + 1 - from,
{
    lemma_first_occurrence_bounds(h, n, from);
    match first_occurrence(h, n, from) {
        Some(p) => {
            if n.len() > 0 && p >= from && p + n.len() <= h.len() {
                lemma_occurrences_occur(h, n, p + n.len());
                let rest = occurrences_from(h, n, p + n.len());
                assert forall|i: int| 0 <= i < occurrences_from(h, n, from).len() implies occurs_at_byte(h, n, #[trigger] occurrences_from(h, n, from)[i]) by {
                    if i > 0 {
                        assert(occurrences_from(h, n, from)[i] == rest[i - 1]);
                    }
                }
            }
        },
        None => {},
    }
}

/// Every offset found is an occurrence.
pub proof fn lemma_candidates_occur(h: Seq<u8>, n: Seq<u8>, from: int)
    ensures
        forall|i: int| 0 <= i < candidates_from(h, n, from).len() ==> occurs_at_byte(h, n, #[trigger] candidates_from(h, n, from)[i]),
    decreases h.len() + 1 - from,
{
    lemma_first_occurrence_bounds(h, n, from);
    match first_occurrence(h, n, from) {
        Some(p) => {
            if p >= from && p + n.len() <= h.len() {
                lemma_candidates_occur(h, n, p + 1);
                let rest = candidates_from(h, n, p + 1);
                assert forall|i: int| 0 <= i < candidates_from(h, n, from).len() implies occurs_at_byte(h, n, #[trigger] candidates_from(h, n, from)[i]) by {
                    if i > 0 {
                        assert(candidates_from(h, n, from)[i] == rest[i - 1]);
                    }
                }
            }
        },
        None => {},
    }
}

/// Whether `n` occurs in `h` at offset `p`.
fn bytes_match_at(h: &[u8], n: &[u8], p: usize) -> (r: bool)
    requires
        p + n@.len() <= h@.len(),
    ensures
        r == occurs_at_byte(h@, n@, p as int),
{
    let hl = h.len();
    let mut j: usize = 0;
    while j < n.len()
        invariant
            hl == h@.len(),
            j <= n@.len(),
            p + n@.len() <= h@.len(),
            forall|k: int| 0 <= k < j ==> h@[p + k] == n@[k],
        decreases n@.len() - j,
    {
        if h[p + j] != n[j] {
            proof {
                assert(h@.subrange(p as int, p + n@.len())[j as int] != n@[j as int]);
            }
            return false;
        }
        j = j + 1;
    }
    proof {
        assert(h@.subrange(p as int, p + n@.len()) =~= n@);
    }
    true
}

/// The first offset at or after `from` where `n` occurs in `h`.
pub fn find_bytes_from(h: &[u8], n: &[u8], from: usize) -> (r: Option<usize>)
    ensures
        match r {
            Some(p) => first_occurrence(h@, n@, from as int) == Some(p as int),
            None => first_occurrence(h@, n@, from as int) is None,
        },
{
    if n.len() > h.len() {
        return None;
    }
    let last = h.len() - n.len();
    if from > last {
        return None;
    }
    let mut p = from;
    loop
        invariant
            last == h@.len() - n@.len(),
            from <= p <= last,
            first_occurrence(h@, n@, from as int) == first_occurrence(h@, n@, p as int),
        decreases last - p,
    {
        if bytes_match_at(h, n, p) {
            return Some(p);
        }
        if p == last {
            return None;
        }
        p = p + 1;
    }
}

/// The non-overlapping occurrences of a non-empty `n` in `h`.
pub fn occurrence_offsets(h: &[u8], n: &[u8]) -> (r: Vec<usize>)
    requires
        n@.len() > 0,
    ensures
        r@.map_values(|p: usize| p as int) == occurrences_from(h@, n@, 0),
{
    let hl = h.len();
    let mut r: Vec<usize> = Vec::new();
    let mut from: usize = 0;
    loop
        invariant
            hl == h@.len(),
            n@.len() > 0,
            from <= h@.len(),
            r@.map_values(|p: usize| p as int) + occurrences_from(h@, n@, from as int) == occurrences_from(h@, n@, 0),
        decreases h@.len() - from,
    {
        proof {
            lemma_first_occurrence_bounds(h@, n@, from as int);
        }
        match find_bytes_from(h, n, from) {
            Some(p) => {
                let ghost r0 = r@;
                r.push(p);
                proof {
                    assert(r@.map_values(|q: usize| q as int) =~= r0.map_values(|q: usize| q as int).push(p as int));
                    assert(occurrences_from(h@, n@, from as int) == seq![p as int] + occurrences_from(
                        h@,
                        n@,
                        p + n@.len(),
                    ));
                    assert(r@.map_values(|q: usize| q as int) + occurrences_from(h@, n@, p + n@.len()) =~= r0.map_values(
                        |q: usize| q as int,
                    ) + occurrences_from(h@, n@, from as int));
                }
                from = p + n.len();
            },
            None => {
                proof {
                    assert(r@.map_values(|q: usize| q as int) + occurrences_from(h@, n@, from as int) =~= r@.map_values(
                        |q: usize| q as int,
                    ));
                }
                return r;
            },
        }
    }
}

/// The possibly overlapping occurrences of `n` in `h`.
pub fn candidate_offsets(h: &[u8], n: &[u8]) -> (r: Vec<usize>)
    requires
        n@.len() > 0,
    ensures
        r@.map_values(|p: usize| p as int) == candidates_from(h@, n@, 0),
{
    let hl = h.len();
    let mut r: Vec<usize> = Vec::new();
    let mut from: usize = 0;
    loop
        invariant
            hl == h@.len(),
            n@.len() > 0,
            from <= h@.len(),
            r@.map_values(|p: usize| p as int) + candidates_from(h@, n@, from as int) == candidates_from(h@, n@, 0),
        decreases h@.len() - from,
    {
        proof {
            lemma_first_occurrence_bounds(h@, n@, from as int);
        }
        match find_bytes_from(h, n, from) {
            Some(p) => {
                let ghost r0 = r@;
                r.push(p);
                proof {
                    assert(r@.map_values(|q: usize| q as int) =~= r0.map_values(|q: usize| q as int).push(p as int));
                    assert(candidates_from(h@, n@, from as int) == seq![p as int] + candidates_from(h@, n@, p + 1));
                    assert(r@.map_values(|q: usize| q as int) + candidates_from(h@, n@, p + 1) =~= r0.map_values(
                        |q: usize| q as int,
                    ) + candidates_from(h@, n@, from as int));
                }
                from = p + 1;
            },
            None => {
                proof {
                    assert(r@.map_values(|q: usize| q as int) + candidates_from(h@, n@, from as int) =~= r@.map_values(
                        |q: usize| q as int,
                    ));
                }
                return r;
            },
        }
    }
}

/// A char boundary of a text stays one in the part after another boundary.
proof fn lemma_boundary_in_suffix(b: Seq<u8>, a: int, i: int)
    requires
        valid_utf8(b),
        0 <= a <= i <= b.len(),
        is_char_boundary(b, a),
        is_char_boundary(b, i),
    ensures
        valid_utf8(b.subrange(a, b.len() as int)),
        is_char_boundary(b.subrange(a, b.len() as int), i - a),
{
    let r = b.subrange(a, b.len() as int);
    vstd::utf8::valid_utf8_split(b, a);
    if i == b.len() {
        vstd::utf8::is_char_boundary_start_end_of_seq(r);
        assert(r.len() == i - a);
    } else {
        vstd::utf8::is_char_boundary_iff_not_is_continuation_byte(b, i);
        vstd::utf8::is_char_boundary_iff_not_is_continuation_byte(r, i - a);
        assert(r[i - a] == b[i]);
    }
}

/// The part of `s` between two char boundaries, by byte offset.
pub fn byte_slice(s: &str, a: usize, b: usize) -> (r: String)
    requires
        a <= b <= bytes_of(s@).len(),
        is_char_boundary(bytes_of(s@), a as int),
        is_char_boundary(bytes_of(s@), b as int),
    ensures
        r@ == decode_utf8(bytes_of(s@).subrange(a as int, b as int)),
{
    let ghost sb = bytes_of(s@);
    proof {
        vstd::utf8::encode_utf8_valid_utf8(s@);
        lemma_boundary_in_suffix(sb, a as int, b as int);
    }
    let (_, rest) = s.split_at(a);
    let (mid, _) = rest.split_at(b - a);
    proof {
        assert(mid.spec_bytes() =~= sb.subrange(a as int, b as int));
        vstd::utf8::encode_utf8_decode_utf8(mid@);
    }
    mid.to_string()
}

} // verus!
