//! Single-precision values and the arithmetic that is asked of an evaluator.
//!
//! Every measurement, statistic and tensor cell in this crate is an IEEE 754
//! binary32 value held by its bit pattern in a `u32`. The crate moves these
//! patterns around and decides which arithmetic is applied to which of them,
//! but it never rounds anything itself: each step of arithmetic is described
//! by an [`Operation`] and handed to an evaluator that the caller supplies.

use vstd::prelude::*;

verus! {

/// One step of single-precision arithmetic, named by its operands.
///
/// An evaluator maps an operation to the bit pattern of its result. To
/// reproduce the values that the forecasting model was trained on, it works
/// in binary32 throughout and rounds after every elementary step, in the
/// order given with each operation. The integer operands of the
/// trigonometric steps are converted to binary32 before use; the other
/// operands are bit patterns already.
#[derive(Clone, Copy, Debug, PartialEq, Eq)]
pub enum Operation {
    /// `sin(2π · numerator / period)`: the product first, then the quotient,
    /// then the sine.
    Sine { numerator: u32, period: u32 },
    /// `cos(2π · numerator / period)`: the product first, then the quotient,
    /// then the cosine.
    Cosine { numerator: u32, period: u32 },
    /// The z-score `(value − mean) / std`.
    Standardize { value: u32, mean: u32, std: u32 },
    /// The inverse of the z-score, `value · std + mean`: the product first,
    /// then the sum.
    Restore { value: u32, mean: u32, std: u32 },
}

/// The evaluator may be called on every operation.
pub open spec fn total<E: Fn(Operation) -> u32>(eval: &E) -> bool {
    forall|op: Operation| eval.requires((op,))
}

/// `bits` is a result that the evaluator may give for `op`.
pub open spec fn yields<E: Fn(Operation) -> u32>(eval: &E, op: Operation, bits: u32) -> bool {
    eval.ensures((op,), bits)
}

/// The evaluator gives one result for each operation.
pub open spec fn deterministic<E: Fn(Operation) -> u32>(eval: &E) -> bool {
    forall|op: Operation, first: u32, second: u32|
        #![trigger yields(eval, op, first), yields(eval, op, second)]
        yields(eval, op, first) && yields(eval, op, second) ==> first == second
}

/// Mask that clears the sign bit of a binary32 pattern.
pub const MAGNITUDE_MASK: u32 = 0x7fff_ffff;

/// The pattern denotes positive or negative zero.
pub open spec fn is_zero_pattern(bits: u32) -> bool {
    bits & MAGNITUDE_MASK == 0
}

/// Tells whether a bit pattern denotes zero, of either sign.
pub fn is_zero(bits: u32) -> (zero: bool)
    ensures
        zero == is_zero_pattern(bits),
        zero == (bits == 0 || bits == 0x8000_0000),
{
    assert((bits & 0x7fff_ffff == 0) == (bits == 0 || bits == 0x8000_0000)) by (bit_vector);
    bits & MAGNITUDE_MASK == 0
}

/// The bit pattern of the number one.
pub const ONE: u32 = 0x3f80_0000;

/// The pattern denotes a number between minus one and one, both included.
///
/// The patterns of the non-negative binary32 numbers are ordered as the
/// numbers are, with the infinities and the NaNs above all of them: a
/// pattern denotes such a number exactly if, with its sign bit cleared, it
/// does not exceed the pattern of one.
pub open spec fn in_unit_interval(bits: u32) -> bool {
    bits & MAGNITUDE_MASK <= ONE
}

/// Tells whether a bit pattern denotes a number between minus one and one.
/// No NaN and no infinity does.
pub fn is_in_unit_interval(bits: u32) -> (inside: bool)
    ensures
        inside == in_unit_interval(bits),
{
    bits & MAGNITUDE_MASK <= ONE
}

} // verus!
