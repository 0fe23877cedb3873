//! Primitive IEEE-754 binary64 operations over raw bit patterns.
//!
//! Throughout this crate a `u64` stands for the 64-bit pattern of an
//! IEEE-754 double. Verus cannot reason about floating-point values, but
//! IEEE-754 arithmetic in a fixed rounding mode is a pure function of the
//! operand bit patterns: the same bits give the same result everywhere. So
//! each primitive operation is given a name by an uninterpreted spec
//! function of the operand bits, and an executable wrapper, trusted and not
//! verified, computes that named result by calling `rustc_apfloat`'s
//! software implementation of binary64 arithmetic (the one the Rust
//! compiler itself uses to evaluate `f64` operations at compile time,
//! rounding to nearest, ties to even). None of these operations panics.

use vstd::prelude::*;

use rustc_apfloat::Float;
use rustc_apfloat::ieee::Double;

verus! {

/// Bit pattern of the IEEE-754 binary64 sum of the doubles with bit
/// patterns `a` and `b`.
pub uninterp spec fn fadd_bits(a: u64, b: u64) -> u64;

/// Bit pattern of the IEEE-754 binary64 difference `a - b`.
pub uninterp spec fn fsub_bits(a: u64, b: u64) -> u64;

/// Bit pattern of the IEEE-754 binary64 product of `a` and `b`.
pub uninterp spec fn fmul_bits(a: u64, b: u64) -> u64;

/// Bit pattern of the IEEE-754 binary64 quotient `a / b`.
pub uninterp spec fn fdiv_bits(a: u64, b: u64) -> u64;

/// Bit pattern of the double nearest to the nonnegative integer `i`
/// (ties to even).
pub uninterp spec fn fp_of_int(i: int) -> u64;

/// IEEE-754 equality of the doubles with bit patterns `a` and `b`
/// (`false` whenever either operand is a NaN; `-0.0` equals `+0.0`).
pub uninterp spec fn fp_eq(a: u64, b: u64) -> bool;

/// Relies on `rustc_apfloat`'s `Add` for `ieee::Double`: IEEE-754 binary64
/// addition, rounded to nearest, ties to even. In particular the sum of
/// two positive zeros is the positive zero (`fp_of_int(0)` is the bit
/// pattern of `+0.0`).
#[verifier::external_body]
pub(crate) fn fadd(a: u64, b: u64) -> (r: u64)
    ensures
        r == fadd_bits(a, b),
        a == fp_of_int(0) && b == fp_of_int(0) ==> r == fp_of_int(0),
{
    (Double::from_bits(a as u128) + Double::from_bits(b as u128)).value.to_bits() as u64
}

/// Relies on `rustc_apfloat`'s `Sub` for `ieee::Double`: IEEE-754 binary64
/// subtraction, rounded to nearest, ties to even. In particular an exact
/// zero difference of equal operands is the positive zero when rounding
/// to nearest.
#[verifier::external_body]
pub(crate) fn fsub(a: u64, b: u64) -> (r: u64)
    ensures
        r == fsub_bits(a, b),
        a == fp_of_int(0) && b == fp_of_int(0) ==> r == fp_of_int(0),
{
    (Double::from_bits(a as u128) - Double::from_bits(b as u128)).value.to_bits() as u64
}

/// Relies on `rustc_apfloat`'s `Mul` for `ieee::Double`: IEEE-754 binary64
/// multiplication, rounded to nearest, ties to even. In particular the
/// product of two positive zeros is the positive zero.
#[verifier::external_body]
pub(crate) fn fmul(a: u64, b: u64) -> (r: u64)
    ensures
        r == fmul_bits(a, b),
        a == fp_of_int(0) && b == fp_of_int(0) ==> r == fp_of_int(0),
{
    (Double::from_bits(a as u128) * Double::from_bits(b as u128)).value.to_bits() as u64
}

/// Relies on `rustc_apfloat`'s `Div` for `ieee::Double`: IEEE-754 binary64
/// division, rounded to nearest, ties to even (`0/0` yields a NaN, never a
/// panic). In particular the positive zero divided by one is the positive
/// zero (`fp_of_int(1)` is the bit pattern of `1.0`).
#[verifier::external_body]
pub(crate) fn fdiv(a: u64, b: u64) -> (r: u64)
    ensures
        r == fdiv_bits(a, b),
        a == fp_of_int(0) && b == fp_of_int(1) ==> r == fp_of_int(0),
{
    (Double::from_bits(a as u128) / Double::from_bits(b as u128)).value.to_bits() as u64
}

/// Relies on `rustc_apfloat`'s `Float::from_u128` for `ieee::Double`:
/// conversion of a nonnegative integer to the nearest double, ties to even.
#[verifier::external_body]
pub(crate) fn fp_from_usize(i: usize) -> (r: u64)
    ensures
        r == fp_of_int(i as int),
{
    Double::from_u128(i as u128).value.to_bits() as u64
}

/// Relies on `rustc_apfloat`'s `PartialEq` for `ieee::Double`: IEEE-754
/// equality (any NaN operand compares unequal; zeros of either sign are
/// equal).
/// In particular the positive zero equals itself.
#[verifier::external_body]
pub(crate) fn feq(a: u64, b: u64) -> (r: bool)
    ensures
        r == fp_eq(a, b),
        a == fp_of_int(0) && b == fp_of_int(0) ==> r,
{
    Double::from_bits(a as u128) == Double::from_bits(b as u128)
}

} // verus!
