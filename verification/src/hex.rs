//! The hexadecimal nibble table: a total map from an ASCII byte to the 4-bit
//! value it stands for, or to the sentinel `0xFF` for every other byte.

use vstd::prelude::*;

verus! {

/// The value a hexadecimal digit stands for: `'0'..'9'` name 0 to 9,
/// `'a'..'f'` and `'A'..'F'` name 10 to 15, and every other byte maps to the
/// invalid sentinel `0xFF`.
pub open spec fn spec_hex_value(c: u8) -> u8 {
    if 48 <= c && c <= 57 {
        (c - 48) as u8
    } else if 97 <= c && c <= 102 {
        (c - 97 + 10) as u8
    } else if 65 <= c && c <= 70 {
        (c - 65 + 10) as u8
    } else {
        0xFF
    }
}

/// A byte is a hexadecimal digit exactly when the nibble table maps it to a
/// value other than the sentinel.
pub open spec fn is_hex_digit(c: u8) -> bool {
    spec_hex_value(c) != 0xFF
}

/// Total lookup: the nibble value of `c`, or `0xFF` when `c` is no
/// hexadecimal digit.
pub fn hex_lookup(c: u8) -> (r: u8)
    ensures
        r == spec_hex_value(c),
{
    if 48 <= c && c <= 57 {
        c - 48
    } else if 97 <= c && c <= 102 {
        c - 97 + 10
    } else if 65 <= c && c <= 70 {
        c - 65 + 10
    } else {
        0xFF
    }
}

/// The nibble value of a byte already known to be a hexadecimal digit.
pub fn hex_to_val(c: u8) -> (r: u8)
    requires
        is_hex_digit(c),
    ensures
        r == spec_hex_value(c),
        r <= 15,
{
    hex_lookup(c)
}

/// True exactly when the high nibble of `byte` is the digit `pattern_hi` and
/// its low nibble is the digit `pattern_lo`.
pub fn nibble_matches(byte: u8, pattern_hi: u8, pattern_lo: u8) -> (r: bool)
    requires
        is_hex_digit(pattern_hi),
        is_hex_digit(pattern_lo),
    ensures
        r == (byte / 16 == spec_hex_value(pattern_hi) && byte % 16 == spec_hex_value(pattern_lo)),
{
    proof {
        assert(byte >> 4u8 == byte / 16) by (bit_vector);
        assert(byte & 0x0Fu8 == byte % 16) by (bit_vector);
    }
    (byte >> 4) == hex_to_val(pattern_hi) && (byte & 0x0F) == hex_to_val(pattern_lo)
}

} // verus!
