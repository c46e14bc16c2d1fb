//! IEEE 754 single-precision arithmetic on raw bit patterns.
//!
//! A single-precision value is carried as its 32 raw bits in a `u32`. Each
//! arithmetic operation is an uninterpreted spec function applied by the
//! contract of a trusted executable wrapper; the wrapper defers to
//! `rustc_apfloat`, a software implementation of IEEE 754 whose results are
//! a function of the argument bits alone, identical on every machine.

use vstd::prelude::*;
use rustc_apfloat::Float;
use rustc_apfloat::ieee::Single;

verus! {

/// Bit pattern of the single-precision value one.
pub const ONE_BITS: u32 = 0x3F80_0000;

/// Bit pattern of the single-precision value two.
pub const TWO_BITS: u32 = 0x4000_0000;

/// Bit pattern of the single-precision value zero (positive zero).
pub const ZERO_BITS: u32 = 0x0000_0000;

/// Bit pattern of π rounded to single precision.
pub const PI_BITS: u32 = 0x4049_0FDB;

/// Bit pattern of the single-precision value twelve.
pub const TWELVE_BITS: u32 = 0x4140_0000;

/// The sum of the two single-precision values carried by `a` and `b`,
/// as a bit pattern.
pub uninterp spec fn add_bits(a: u32, b: u32) -> u32;

/// The difference of the two single-precision values carried by `a` and `b`,
/// as a bit pattern.
pub uninterp spec fn sub_bits(a: u32, b: u32) -> u32;

/// The product of the two single-precision values carried by `a` and `b`,
/// as a bit pattern.
pub uninterp spec fn mul_bits(a: u32, b: u32) -> u32;

/// The quotient of the two single-precision values carried by `a` and `b`,
/// as a bit pattern.
pub uninterp spec fn div_bits(a: u32, b: u32) -> u32;

/// Whether the single-precision value carried by `a` compares strictly below
/// the one carried by `b` in the IEEE 754 order (false whenever either
/// argument is a NaN).
pub uninterp spec fn lt_bits(a: u32, b: u32) -> bool;

/// The signed integer `x` converted to the nearest single-precision value,
/// as a bit pattern.
pub uninterp spec fn from_i32_bits(x: i32) -> u32;

/// Relies on `rustc_apfloat::ieee::Single`'s `Add` (round to nearest, ties to
/// even): IEEE 754 single-precision addition on raw bit patterns.
#[verifier::external_body]
pub(crate) fn fadd(a: u32, b: u32) -> (r: u32)
    ensures
        r == add_bits(a, b),
{
    let x = Single::from_bits(a as u128);
    let y = Single::from_bits(b as u128);
    (x + y).value.to_bits() as u32
}

/// Relies on `rustc_apfloat::ieee::Single`'s `Sub` (round to nearest, ties to
/// even): IEEE 754 single-precision subtraction on raw bit patterns.
#[verifier::external_body]
pub(crate) fn fsub(a: u32, b: u32) -> (r: u32)
    ensures
        r == sub_bits(a, b),
{
    let x = Single::from_bits(a as u128);
    let y = Single::from_bits(b as u128);
    (x - y).value.to_bits() as u32
}

/// Relies on `rustc_apfloat::ieee::Single`'s `Mul` (round to nearest, ties to
/// even): IEEE 754 single-precision multiplication on raw bit patterns.
#[verifier::external_body]
pub(crate) fn fmul(a: u32, b: u32) -> (r: u32)
    ensures
        r == mul_bits(a, b),
{
    let x = Single::from_bits(a as u128);
    let y = Single::from_bits(b as u128);
    (x * y).value.to_bits() as u32
}

/// Relies on `rustc_apfloat::ieee::Single`'s `Div` (round to nearest, ties to
/// even): IEEE 754 single-precision division on raw bit patterns.
#[verifier::external_body]
pub(crate) fn fdiv(a: u32, b: u32) -> (r: u32)
    ensures
        r == div_bits(a, b),
{
    let x = Single::from_bits(a as u128);
    let y = Single::from_bits(b as u128);
    (x / y).value.to_bits() as u32
}

/// Relies on `rustc_apfloat::ieee::Single`'s `PartialOrd`: the IEEE 754
/// single-precision strict-less-than comparison on raw bit patterns, which
/// is false whenever either argument is a NaN.
#[verifier::external_body]
pub(crate) fn flt(a: u32, b: u32) -> (r: bool)
    ensures
        r == lt_bits(a, b),
{
    Single::from_bits(a as u128) < Single::from_bits(b as u128)
}

/// Relies on `rustc_apfloat::ieee::Single::from_i128` (round to nearest, ties
/// to even): a signed integer converted to a single-precision bit pattern.
#[verifier::external_body]
pub(crate) fn f_from_i32(x: i32) -> (r: u32)
    ensures
        r == from_i32_bits(x),
{
    Single::from_i128(x as i128).value.to_bits() as u32
}

} // verus!
