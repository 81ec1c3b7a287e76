//! The pattern matcher: comparing the leading nibbles of a 32-byte digest
//! against a validated hexadecimal pattern, and the normalization that turns
//! raw caller input into such a pattern.

use vstd::prelude::*;

use crate::hex::{hex_lookup, is_hex_digit, spec_hex_value};

verus! {

/// Nibble `i` of a digest: the high half of byte `i / 2` for even `i`, the
/// low half for odd `i`.
pub open spec fn digest_nibble(d: Seq<u8>, i: int) -> u8 {
    if i % 2 == 0 {
        (d[i / 2] / 16) as u8
    } else {
        (d[i / 2] % 16) as u8
    }
}

/// A digest matches a pattern when each of the pattern's nibbles equals the
/// digest nibble in the same position; positions beyond the pattern are
/// unconstrained.
pub open spec fn pattern_matches(d: Seq<u8>, p: Seq<u8>) -> bool {
    forall|i: int| 0 <= i < p.len() ==> #[trigger] digest_nibble(d, i) == spec_hex_value(p[i])
}

/// A pattern fit for searching: at most eight nibbles, each one a valid
/// hexadecimal digit.
pub open spec fn valid_pattern(p: Seq<u8>) -> bool {
    &&& p.len() <= 8
    &&& forall|i: int| 0 <= i < p.len() ==> is_hex_digit(#[trigger] p[i])
}

/// Length-bounded comparison of the digest's leading nibbles against the
/// pattern. A pattern longer than eight nibbles would reach past the four
/// leading digest bytes and is a caller contract violation, ruled out before
/// the search starts.
pub fn compare_hash(hash: [u8; 32], pattern: &[u8]) -> (r: bool)
    requires
        pattern@.len() <= 8,
    ensures
        r == pattern_matches(hash@, pattern@),
{
    let n = pattern.len();
    let mut i: usize = 0;
    while i < n
        invariant
            n == pattern@.len() <= 8,
            0 <= i <= n,
            forall|j: int| 0 <= j < i ==> #[trigger] digest_nibble(hash@, j) == spec_hex_value(pattern@[j]),
        decreases n - i,
    {
        let c = pattern[i];
        let hv = hex_lookup(c);
        let byte = hash[i / 2];
        let nib = if i % 2 == 0 {
            byte >> 4
        } else {
            byte & 0x0F
        };
        proof {
            assert(byte >> 4u8 == byte / 16) by (bit_vector);
            assert(byte & 0x0Fu8 == byte % 16) by (bit_vector);
        }
        if nib != hv {
            proof {
                assert(digest_nibble(hash@, i as int) != spec_hex_value(pattern@[i as int]));
            }
            return false;
        }
        i = i + 1;
    }
    true
}

/// Empty pattern universality: every digest matches the empty pattern.
pub proof fn lemma_empty_pattern_matches(d: Seq<u8>)
    ensures
        pattern_matches(d, Seq::<u8>::empty()),
{
}

/// Matcher sensitivity: if a digest matches a pattern, then any digest whose
/// nibble differs in some position the pattern constrains does not match.
pub proof fn lemma_matcher_sensitivity(d1: Seq<u8>, d2: Seq<u8>, p: Seq<u8>, i: int)
    requires
        pattern_matches(d1, p),
        0 <= i < p.len(),
        digest_nibble(d2, i) != digest_nibble(d1, i),
    ensures
        !pattern_matches(d2, p),
{
    assert(digest_nibble(d1, i) == spec_hex_value(p[i]));
}

/// The one fault pattern normalization can report: a byte that is no
/// hexadecimal digit survived into the normalized pattern.
#[derive(Clone, Copy, Debug, PartialEq, Eq, Structural)]
pub enum PatternError {
    InvalidCharacter,
}

/// A pattern as the search takes it, together with whether normalization had
/// to drop trailing input to reach the eight-nibble cap.
pub struct NormalizedPattern {
    pub nibbles: Vec<u8>,
    pub truncated: bool,
}

/// An upper-case ASCII letter folded to lower case; every other byte kept.
pub open spec fn to_lower_byte(c: u8) -> u8 {
    if 65 <= c && c <= 90 {
        (c + 32) as u8
    } else {
        c
    }
}

/// The byte-wise ASCII lower-casing of a sequence.
pub open spec fn spec_lower(s: Seq<u8>) -> Seq<u8> {
    Seq::new(s.len(), |i: int| to_lower_byte(s[i]))
}

/// The sequence with a leading `"0x"` removed, if it has one.
pub open spec fn strip_hex_prefix(s: Seq<u8>) -> Seq<u8> {
    if s.len() >= 2 && s[0] == 48 && s[1] == 120 {
        s.skip(2)
    } else {
        s
    }
}

/// What raw pattern input normalizes to: lower-cased, the optional `"0x"`
/// prefix removed, and cut to the first eight bytes.
pub open spec fn spec_normalized(s: Seq<u8>) -> Seq<u8> {
    let t = strip_hex_prefix(spec_lower(s));
    if t.len() <= 8 {
        t
    } else {
        t.take(8)
    }
}

/// Normalizes raw pattern input: folds it to lower case, strips an optional
/// `"0x"` prefix, silently truncates anything past eight characters (the
/// caller may warn), and rejects the result exactly when a byte of it is no
/// hexadecimal digit.
pub fn normalize_pattern(input: &[u8]) -> (r: Result<NormalizedPattern, PatternError>)
    ensures
        match r {
            Ok(np) => {
                &&& np.nibbles@ == spec_normalized(input@)
                &&& valid_pattern(np.nibbles@)
                &&& np.truncated == (strip_hex_prefix(spec_lower(input@)).len() > 8)
            },
            Err(e) => {
                &&& e == PatternError::InvalidCharacter
                &&& exists|i: int|
                    0 <= i < spec_normalized(input@).len() && !is_hex_digit(
                        #[trigger] spec_normalized(input@)[i],
                    )
            },
        },
{
    let n = input.len();
    let mut lowered: Vec<u8> = Vec::new();
    let mut i: usize = 0;
    while i < n
        invariant
            n == input@.len(),
            0 <= i <= n,
            lowered@.len() == i,
            forall|j: int| 0 <= j < i ==> lowered@[j] == to_lower_byte(#[trigger] input@[j]),
        decreases n - i,
    {
        let c = input[i];
        if 65 <= c && c <= 90 {
            lowered.push(c + 32);
        } else {
            lowered.push(c);
        }
        i = i + 1;
    }
    proof {
        assert(lowered@ =~= spec_lower(input@));
    }
    let start: usize = if lowered.len() >= 2 && lowered[0] == 48 && lowered[1] == 120 {
        2
    } else {
        0
    };
    proof {
        if start == 0 {
            assert(strip_hex_prefix(lowered@) =~= lowered@.skip(0));
        }
    }
    let total = lowered.len();
    let avail = total - start;
    let keep = if avail > 8 {
        8
    } else {
        avail
    };
    let truncated = avail > 8;
    let mut nibbles: Vec<u8> = Vec::new();
    let mut k: usize = 0;
    while k < keep
        invariant
            keep <= avail,
            total == lowered@.len(),
            start + avail == total,
            0 <= k <= keep,
            nibbles@.len() == k,
            forall|j: int| 0 <= j < k ==> nibbles@[j] == lowered@[start + j],
        decreases keep - k,
    {
        nibbles.push(lowered[start + k]);
        k = k + 1;
    }
    proof {
        assert(nibbles@ =~= spec_normalized(input@));
    }
    let mut v: usize = 0;
    while v < keep
        invariant
            keep == nibbles@.len() <= 8,
            0 <= v <= keep,
            nibbles@ == spec_normalized(input@),
            forall|j: int| 0 <= j < v ==> is_hex_digit(#[trigger] nibbles@[j]),
        decreases keep - v,
    {
        if hex_lookup(nibbles[v]) == 0xFF {
            proof {
                assert(!is_hex_digit(spec_normalized(input@)[v as int]));
            }
            return Err(PatternError::InvalidCharacter);
        }
        v = v + 1;
    }
    Ok(NormalizedPattern { nibbles, truncated })
}

} // verus!
