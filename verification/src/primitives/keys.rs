//! Integer keys for 64-bit floating-point values.
//!
//! The windowed extrema of this library compare `i64` keys. A caller whose values
//! are IEEE 754 doubles gets keys from their bit patterns: the encoding orders
//! values of the same sign by magnitude, so reading a non-negative pattern as it
//! stands and reversing the negative ones gives keys that order the values as the
//! values themselves are ordered. Negative zero gets the key just below zero's, and
//! the NaN patterns lie beyond the two infinities.

use vstd::prelude::*;

verus! {

/// The bit pattern with only the sign bit set.
pub const SIGN_BIT: u64 = 0x8000_0000_0000_0000;

/// The key of a bit pattern: the pattern itself when the sign bit is clear; when it
/// is set, `-1` for the smallest magnitude and downwards from there.
pub open spec fn float_key(bits: u64) -> int {
    if bits < SIGN_BIT {
        bits as int
    } else {
        SIGN_BIT - 1 - bits
    }
}

/// Among patterns of one sign, a greater magnitude means a greater key for the
/// non-negative ones and a smaller key for the negative ones; and every negative
/// pattern's key is below every non-negative pattern's.
pub proof fn lemma_float_key_orders_sign_and_magnitude(a: u64, b: u64)
    ensures
        a < SIGN_BIT && b < SIGN_BIT ==> (float_key(a) < float_key(b) <==> a < b),
        a >= SIGN_BIT && b >= SIGN_BIT ==> (float_key(a) < float_key(b) <==> a > b),
        a >= SIGN_BIT && b < SIGN_BIT ==> float_key(a) < float_key(b),
        float_key(a) == float_key(b) ==> a == b,
        i64::MIN <= float_key(a) <= i64::MAX,
{
}

/// The key of a double's bit pattern.
pub fn key_of_bits(bits: u64) -> (key: i64)
    ensures
        key == float_key(bits),
{
    if bits < SIGN_BIT {
        bits as i64
    } else {
        let below: u64 = bits - SIGN_BIT;
        -1 - (below as i64)
    }
}

/// The bit pattern of a key: the inverse of [`key_of_bits`].
pub fn bits_of_key(key: i64) -> (bits: u64)
    ensures
        float_key(bits) == key,
{
    if key >= 0 {
        key as u64
    } else {
        let below: i64 = -1 - key;
        SIGN_BIT + (below as u64)
    }
}

} // verus!
