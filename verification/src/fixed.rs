//! Fixed-point arithmetic helpers.
//!
//! All fractional multipliers in the damage pipeline are represented as
//! integers scaled by `FP_SCALE` (six decimal digits), so that every replica
//! computes bit-identical results with no floating-point rounding.

use vstd::prelude::*;

verus! {

/// Scale of the fixed-point representation: one unit is 1/1_000_000.
pub const FP_SCALE: u128 = 1_000_000;

/// Upper bound of the combo stack.
pub const MAX_COMBO_STACK: u8 = 5;

/// Multiplies two fixed-point values, rescaling the product.
pub fn mul_fp(a: u128, b: u128) -> (r: u128)
    requires
        a * b <= u128::MAX,
    ensures
        r == a * b / (FP_SCALE as int),
{
    (a * b) / FP_SCALE
}

/// Truncates a fixed-point value to its integer part.
pub fn fp_to_u64(value: u128) -> (r: u64)
    ensures
        r == (value / (FP_SCALE as u128)) as u64,
{
    #[verifier::truncate]
    let r = (value / FP_SCALE) as u64;
    r
}

} // verus!
