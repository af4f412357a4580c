//! Order keys for real parameters.
//!
//! An IEEE-754 double is stored as a sign bit and a 63-bit magnitude, and,
//! NaNs aside, two doubles compare as the signed magnitudes of their bit
//! patterns do. `order_key` turns such a bit pattern into a `u64` whose
//! plain unsigned order follows that signed magnitude, so that comparisons
//! of parameters can be made, and proved, on integers.
use vstd::prelude::*;

verus! {

pub const SIGN_BIT: u64 = 0x8000_0000_0000_0000;

pub const MAGNITUDE: u64 = 0x7fff_ffff_ffff_ffff;

/// The value that a bit pattern encodes in sign-and-magnitude form.
pub open spec fn signed_magnitude(bits: u64) -> int {
    if bits & SIGN_BIT != 0 {
        -((bits & MAGNITUDE) as int)
    } else {
        (bits & MAGNITUDE) as int
    }
}

/// The key of a bit pattern: negative values count down from the middle of
/// the `u64` range, non-negative ones count up from it.
pub open spec fn key_of(bits: u64) -> int {
    if bits & SIGN_BIT != 0 {
        MAGNITUDE as int - (bits & MAGNITUDE) as int
    } else {
        SIGN_BIT as int + (bits & MAGNITUDE) as int
    }
}

/// Maps the bit pattern of a parameter to its order key.
pub fn order_key(bits: u64) -> (k: u64)
    ensures
        k as int == key_of(bits),
{
    proof {
        assert((bits & MAGNITUDE) <= MAGNITUDE) by (bit_vector);
    }
    if bits & SIGN_BIT != 0 {
        proof {
            assert(!bits == (MAGNITUDE - (bits & MAGNITUDE)) as u64) by (bit_vector)
                requires
                    bits & 0x8000_0000_0000_0000u64 != 0,
            ;
        }
        !bits
    } else {
        proof {
            assert(bits | SIGN_BIT == (SIGN_BIT + (bits & MAGNITUDE)) as u64) by (bit_vector)
                requires
                    bits & 0x8000_0000_0000_0000u64 == 0,
            ;
        }
        bits | SIGN_BIT
    }
}

/// Keys follow signed magnitudes: a smaller value gets a smaller key, a
/// smaller key never stands for a larger value, and distinct bit patterns
/// get distinct keys (so that the two zeros are told apart, negative first).
pub proof fn order_key_monotone(a: u64, b: u64)
    ensures
        signed_magnitude(a) < signed_magnitude(b) ==> key_of(a) < key_of(b),
        key_of(a) < key_of(b) ==> signed_magnitude(a) <= signed_magnitude(b),
        key_of(a) == key_of(b) <==> a == b,
{
    assert((a & MAGNITUDE) <= MAGNITUDE) by (bit_vector);
    assert((b & MAGNITUDE) <= MAGNITUDE) by (bit_vector);
    assert(((a & SIGN_BIT) != 0) == ((b & SIGN_BIT) != 0) && (a & MAGNITUDE) == (b & MAGNITUDE)
        ==> a == b) by (bit_vector);
}

/// The magnitude of a bit pattern: the absolute value of what it encodes.
pub open spec fn magnitude(bits: u64) -> int {
    (bits & MAGNITUDE) as int
}

/// Whether a vector, given by the bit patterns of its components, lies
/// within `epsilon` of zero on every axis: each component is smaller than
/// `epsilon` in absolute value, whatever its sign. Magnitudes are compared
/// on purpose, not signed values: a signed test would count a vector such as
/// (-1, -1, -1) as near zero.
pub fn near_zero(x: u64, y: u64, z: u64, epsilon: u64) -> (r: bool)
    ensures
        r == (magnitude(x) < magnitude(epsilon) && magnitude(y) < magnitude(epsilon) && magnitude(
            z,
        ) < magnitude(epsilon)),
{
    let e = epsilon & MAGNITUDE;
    (x & MAGNITUDE) < e && (y & MAGNITUDE) < e && (z & MAGNITUDE) < e
}

} // verus!
