//! Initialization policies for trainable parameters.

use vstd::prelude::*;

use crate::bits::{bits_le, finite_bits, is_finite_bits, is_non_negative_bits, le_bits,
    non_negative_bits};

verus! {

/// An initialization policy for a trainable parameter.
///
/// A policy is a pure value; it selects which initializer the engine builds
/// transiently while the parameter is allocated. Every float-valued knob is
/// carried as its raw bit pattern (see [`crate::bits`]).
#[derive(Clone, Copy, Debug, PartialEq, Eq, Structural)]
pub enum ParamInit {
    /// Fill with one constant value.
    Const(u32),
    /// Glorot (Xavier) initialization from a uniform distribution; the
    /// flag marks a lookup table, the second value is the gain.
    Glorot(bool, u32),
    /// Initialize as the identity matrix; only meaningful for a square
    /// two-axis shape.
    Identity,
    /// Samples from a normal distribution with the given mean and
    /// variance; the variance must be non-negative.
    Normal(u32, u32),
    /// A random orthogonal matrix with the given gain.
    Saxe(u32),
    /// Samples from a uniform distribution over the given closed interval;
    /// the lower bound must not exceed the upper one.
    Uniform(u32, u32),
}

/// An initialization policy is accepted for a given per-parameter shape
/// exactly when all its float-valued knobs are finite, a variance is
/// non-negative, a uniform interval is ordered, and the identity policy is
/// asked for a square two-axis shape.
pub open spec fn param_init_ok(init: ParamInit, dims: Seq<u32>) -> bool {
    match init {
        ParamInit::Const(c) => is_finite_bits(c),
        ParamInit::Glorot(_, gain) => is_finite_bits(gain),
        ParamInit::Identity => dims.len() == 2 && dims[0] == dims[1],
        ParamInit::Normal(mean, variance) => is_finite_bits(mean) && is_finite_bits(variance)
            && is_non_negative_bits(variance),
        ParamInit::Saxe(gain) => is_finite_bits(gain),
        ParamInit::Uniform(lo, hi) => is_finite_bits(lo) && is_finite_bits(hi) && le_bits(lo, hi),
    }
}

/// Decides whether an initialization policy is accepted for a shape.
pub fn check_param_init(init: &ParamInit, dims: &[u32]) -> (r: bool)
    ensures
        r == param_init_ok(*init, dims@),
{
    match init {
        ParamInit::Const(c) => finite_bits(*c),
        ParamInit::Glorot(_, gain) => finite_bits(*gain),
        ParamInit::Identity => dims.len() == 2 && dims[0] == dims[1],
        ParamInit::Normal(mean, variance) => finite_bits(*mean) && finite_bits(*variance)
            && non_negative_bits(*variance),
        ParamInit::Saxe(gain) => finite_bits(*gain),
        ParamInit::Uniform(lo, hi) => finite_bits(*lo) && finite_bits(*hi) && bits_le(*lo, *hi),
    }
}

} // verus!
