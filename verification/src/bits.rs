//! IEEE-754 single-precision values, handled as their raw bit patterns.
//!
//! The numerical kernels of the underlying engine work on 32-bit floats.
//! This layer never computes with those values; it only stores them, checks
//! them for well-formedness (finiteness, sign, order) and hands them on.
//! Representing each value by its bit pattern keeps the checks exact and
//! lets the callers state precisely which values are accepted.

use vstd::prelude::*;

verus! {

/// Bit pattern of the value one.
pub const F32_ONE_BITS: u32 = 0x3F80_0000;

/// Bit pattern of the value one tenth.
pub const F32_TENTH_BITS: u32 = 0x3DCC_CCCD;

/// Bit pattern of the value zero.
pub const F32_ZERO_BITS: u32 = 0;

/// A bit pattern encodes a finite value exactly when its exponent field is
/// not all ones (all ones encodes an infinity or a NaN).
pub open spec fn is_finite_bits(b: u32) -> bool {
    (b >> 23) & 0xFF != 0xFF
}

/// A bit pattern encodes a non-negative value exactly when its sign bit is
/// clear.
pub open spec fn is_non_negative_bits(b: u32) -> bool {
    b >> 31 == 0
}

/// Key under which the unsigned order of keys agrees with the numeric order
/// of the encoded values, for all non-NaN patterns; the two zeroes are kept
/// apart, with the negative one ordered first.
pub open spec fn order_key(b: u32) -> u32 {
    if b >> 31 == 1 {
        !b
    } else {
        b | 0x8000_0000
    }
}

/// The encoded value of `a` is at most the encoded value of `b`, in the
/// bit-level total order.
pub open spec fn le_bits(a: u32, b: u32) -> bool {
    order_key(a) <= order_key(b)
}

/// Decides whether a bit pattern encodes a finite value.
pub fn finite_bits(b: u32) -> (r: bool)
    ensures
        r == is_finite_bits(b),
{
    (b >> 23) & 0xFF != 0xFF
}

/// Decides whether a bit pattern encodes a non-negative value.
pub fn non_negative_bits(b: u32) -> (r: bool)
    ensures
        r == is_non_negative_bits(b),
{
    b >> 31 == 0
}

/// Compares two bit patterns in the bit-level total order.
pub fn bits_le(a: u32, b: u32) -> (r: bool)
    ensures
        r == le_bits(a, b),
{
    let ka: u32 = if a >> 31 == 1 {
        !a
    } else {
        a | 0x8000_0000
    };
    let kb: u32 = if b >> 31 == 1 {
        !b
    } else {
        b | 0x8000_0000
    };
    ka <= kb
}

} // verus!
