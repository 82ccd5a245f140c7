//! The numeric kernel: correctly rounded IEEE-754 routines of `rustc_apfloat`,
//! each seen through its bit patterns, its rounding mode and the status flags
//! it reports.
//!
//! Where IEEE-754 leaves a choice to the implementation, the results are this
//! kernel's: a NaN result keeps the payload of the first NaN operand with its
//! quiet bit set, and a NaN converted to an integer gives zero (with the
//! invalid flag). Other IEEE-754 implementations may choose another payload
//! or integer there; every result outside those choices is fixed by the standard.

use rustc_apfloat::ieee::{Double, Half, Quad, Single};
use rustc_apfloat::{Float, FloatConvert};
use vstd::prelude::*;

use crate::flags::{DIVIDE_BY_ZERO, INVALID};
use crate::float64::{
    finite_bits, infinite_bits, nan_bits, nan_status, order_of, quiet_nan_bits, sign_of,
    zero_bits, EXP_MASK, NEG_ZERO,
};
use crate::rounding::RoundingMode;

verus! {

#[verifier::external_type_specification]
#[verifier::external_body]
pub struct ExRound(rustc_apfloat::Round);

/// Rounded sum and status of `Double::add_r` on bit patterns `a`, `b` under mode code `mode`.
pub uninterp spec fn f64_add_out(a: u64, b: u64, mode: u8) -> (u64, u8);

/// Rounded difference and status of `Double::sub_r`.
pub uninterp spec fn f64_sub_out(a: u64, b: u64, mode: u8) -> (u64, u8);

/// Rounded product and status of `Double::mul_r`.
pub uninterp spec fn f64_mul_out(a: u64, b: u64, mode: u8) -> (u64, u8);

/// Rounded quotient and status of `Double::div_r`.
pub uninterp spec fn f64_div_out(a: u64, b: u64, mode: u8) -> (u64, u8);

/// IEEE remainder and status of `Double::ieee_rem`.
pub uninterp spec fn f64_rem_out(a: u64, b: u64) -> (u64, u8);

/// Fused `a * b + c` and status of `Double::mul_add_r`.
pub uninterp spec fn f64_fma_out(a: u64, b: u64, c: u64, mode: u8) -> (u64, u8);

/// Integral value and status of `Double::round_to_integral`.
pub uninterp spec fn f64_round_integral_out(a: u64, mode: u8) -> (u64, u8);

/// Rounded value and status of `Double::from_i128_r`.
pub uninterp spec fn f64_from_int_out(x: i128, mode: u8) -> (u64, u8);

/// Rounded value and status of `Double::from_u128_r`.
pub uninterp spec fn f64_from_uint_out(x: u128, mode: u8) -> (u64, u8);

/// Integer and status of `Double::to_i128_r` for an integer of `width` bits.
pub uninterp spec fn f64_to_int_out(a: u64, width: usize, mode: u8) -> (i128, u8);

/// Integer and status of `Double::to_u128_r` for an integer of `width` bits.
pub uninterp spec fn f64_to_uint_out(a: u64, width: usize, mode: u8) -> (u128, u8);

/// Narrowed value and status of `Double::convert_r` to `Single`.
pub uninterp spec fn f64_to_f32_out(a: u64, mode: u8) -> (u32, u8);

/// Widened value and status of `Single::convert_r` to `Double`.
pub uninterp spec fn f32_to_f64_out(a: u32) -> (u64, u8);

/// Narrowed value and status of `Double::convert_r` to `Half`.
pub uninterp spec fn f64_to_f16_out(a: u64, mode: u8) -> (u16, u8);

/// Widened value and status of `Double::convert_r` to `Quad`.
pub uninterp spec fn f64_to_f128_out(a: u64, mode: u8) -> (u128, u8);

/// Relies on `rustc_apfloat::Round`: the kernel's variant for each mode.
#[verifier::external_body]
fn round_of(m: RoundingMode) -> rustc_apfloat::Round {
    match m {
        RoundingMode::TiesToEven => rustc_apfloat::Round::NearestTiesToEven,
        RoundingMode::TowardZero => rustc_apfloat::Round::TowardZero,
        RoundingMode::TowardNegative => rustc_apfloat::Round::TowardNegative,
        RoundingMode::TowardPositive => rustc_apfloat::Round::TowardPositive,
        RoundingMode::TiesToAway => rustc_apfloat::Round::NearestTiesToAway,
    }
}

/// Relies on `Double::add_r`: a correctly rounded sum; for operands that are not
/// NaN it is symmetric; two zeroes of one sign sum to that zero, of opposite
/// signs to `-0` exactly under rounding toward negative; a NaN operand gives a
/// quiet NaN, with the invalid flag exactly when an operand is a signaling
/// NaN; infinities of opposite signs give a quiet NaN and the invalid flag.
#[verifier::external_body]
pub(crate) fn kernel_add(a: u64, b: u64, m: RoundingMode) -> (r: (u64, u8))
    ensures
        r == f64_add_out(a, b, m.code()),
        !nan_bits(a) && !nan_bits(b) ==> r == f64_add_out(b, a, m.code()),
        zero_bits(a) && zero_bits(b) && sign_of(a) == sign_of(b) ==> r.0 == a,
        zero_bits(a) && zero_bits(b) && sign_of(a) != sign_of(b) ==> r.0 == (if m
            == RoundingMode::TowardNegative {
            NEG_ZERO
        } else {
            0u64
        }),
        nan_bits(a) || nan_bits(b) ==> quiet_nan_bits(r.0) && r.1 == nan_status(a, b),
        infinite_bits(a) && infinite_bits(b) && sign_of(a) != sign_of(b) ==> quiet_nan_bits(r.0) && r.1
            == INVALID,
{
    let s = Double::from_bits(a as u128).add_r(Double::from_bits(b as u128), round_of(m));
    (s.value.to_bits() as u64, s.status.bits())
}

/// Relies on `Double::sub_r`: a correctly rounded difference; a NaN operand
/// gives a quiet NaN, with the invalid flag exactly when one is signaling.
#[verifier::external_body]
pub(crate) fn kernel_sub(a: u64, b: u64, m: RoundingMode) -> (r: (u64, u8))
    ensures
        r == f64_sub_out(a, b, m.code()),
        nan_bits(a) || nan_bits(b) ==> quiet_nan_bits(r.0) && r.1 == nan_status(a, b),
{
    let s = Double::from_bits(a as u128).sub_r(Double::from_bits(b as u128), round_of(m));
    (s.value.to_bits() as u64, s.status.bits())
}

/// Relies on `Double::mul_r`: a correctly rounded product, symmetric for
/// operands that are not NaN; a NaN operand gives a quiet NaN, with the
/// invalid flag exactly when one is signaling.
#[verifier::external_body]
pub(crate) fn kernel_mul(a: u64, b: u64, m: RoundingMode) -> (r: (u64, u8))
    ensures
        r == f64_mul_out(a, b, m.code()),
        !nan_bits(a) && !nan_bits(b) ==> r == f64_mul_out(b, a, m.code()),
        nan_bits(a) || nan_bits(b) ==> quiet_nan_bits(r.0) && r.1 == nan_status(a, b),
{
    let s = Double::from_bits(a as u128).mul_r(Double::from_bits(b as u128), round_of(m));
    (s.value.to_bits() as u64, s.status.bits())
}

/// Relies on `Double::div_r`: a correctly rounded quotient; a finite nonzero
/// value over a zero gives an infinity whose sign is the product of the signs,
/// with the divide-by-zero flag alone; a NaN operand gives a quiet NaN, with
/// the invalid flag exactly when one is signaling.
#[verifier::external_body]
pub(crate) fn kernel_div(a: u64, b: u64, m: RoundingMode) -> (r: (u64, u8))
    ensures
        r == f64_div_out(a, b, m.code()),
        finite_bits(a) && !zero_bits(a) && zero_bits(b) ==> r == (
        EXP_MASK | (sign_of(a) ^ sign_of(b)),
        DIVIDE_BY_ZERO,
        ),
        nan_bits(a) || nan_bits(b) ==> quiet_nan_bits(r.0) && r.1 == nan_status(a, b),
{
    let s = Double::from_bits(a as u128).div_r(Double::from_bits(b as u128), round_of(m));
    (s.value.to_bits() as u64, s.status.bits())
}

/// Relies on `Double::ieee_rem`: the IEEE remainder, which needs no rounding.
#[verifier::external_body]
pub(crate) fn kernel_rem(a: u64, b: u64) -> (r: (u64, u8))
    ensures
        r == f64_rem_out(a, b),
{
    let s = Double::from_bits(a as u128).ieee_rem(Double::from_bits(b as u128));
    (s.value.to_bits() as u64, s.status.bits())
}

/// Relies on `Double::mul_add_r`: `a * b + c` with a single rounding.
#[verifier::external_body]
pub(crate) fn kernel_fma(a: u64, b: u64, c: u64, m: RoundingMode) -> (r: (u64, u8))
    ensures
        r == f64_fma_out(a, b, c, m.code()),
{
    let s = Double::from_bits(a as u128).mul_add_r(
        Double::from_bits(b as u128),
        Double::from_bits(c as u128),
        round_of(m),
    );
    (s.value.to_bits() as u64, s.status.bits())
}

/// Relies on `Double::round_to_integral`: the integral value nearest under the mode.
#[verifier::external_body]
pub(crate) fn kernel_round_to_integral(a: u64, m: RoundingMode) -> (r: (u64, u8))
    ensures
        r == f64_round_integral_out(a, m.code()),
{
    let s = Double::from_bits(a as u128).round_to_integral(round_of(m));
    (s.value.to_bits() as u64, s.status.bits())
}

/// Relies on `PartialOrd for Double`: unordered exactly when an operand is a
/// NaN, otherwise the order of the values: by sign, then by magnitude, which
/// orders as the pattern without its sign bit; two zeroes are equal.
#[verifier::external_body]
pub(crate) fn kernel_order(a: u64, b: u64) -> (r: Option<core::cmp::Ordering>)
    ensures
        r == order_of(a, b),
{
    Double::from_bits(a as u128).partial_cmp(&Double::from_bits(b as u128))
}

/// Relies on `Double::from_i128_r`: the integer rounded under the mode.
#[verifier::external_body]
pub(crate) fn kernel_from_int(x: i128, m: RoundingMode) -> (r: (u64, u8))
    ensures
        r == f64_from_int_out(x, m.code()),
{
    let s = Double::from_i128_r(x, round_of(m));
    (s.value.to_bits() as u64, s.status.bits())
}

/// Relies on `Double::from_u128_r`: the integer rounded under the mode.
#[verifier::external_body]
pub(crate) fn kernel_from_uint(x: u128, m: RoundingMode) -> (r: (u64, u8))
    ensures
        r == f64_from_uint_out(x, m.code()),
{
    let s = Double::from_u128_r(x, round_of(m));
    (s.value.to_bits() as u64, s.status.bits())
}

/// Relies on `Double::to_i128_r`: the value rounded to a signed integer of
/// `width` bits, which it always fits; a NaN gives zero and the invalid flag,
/// an infinity the extreme of its sign and the invalid flag.
#[verifier::external_body]
pub(crate) fn kernel_to_int(a: u64, width: usize, m: RoundingMode) -> (r: (i128, u8))
    requires
        width == 32 || width == 64,
    ensures
        r == f64_to_int_out(a, width, m.code()),
        width == 32 ==> i32::MIN <= r.0 <= i32::MAX,
        width == 64 ==> i64::MIN <= r.0 <= i64::MAX,
        nan_bits(a) ==> r == (0i128, INVALID),
        infinite_bits(a) && sign_of(a) == 0 && width == 32 ==> r == (i32::MAX as i128, INVALID),
        infinite_bits(a) && sign_of(a) == 0 && width == 64 ==> r == (i64::MAX as i128, INVALID),
        infinite_bits(a) && sign_of(a) != 0 && width == 32 ==> r == (i32::MIN as i128, INVALID),
        infinite_bits(a) && sign_of(a) != 0 && width == 64 ==> r == (i64::MIN as i128, INVALID),
{
    let s = Double::from_bits(a as u128).to_i128_r(width, round_of(m), &mut true);
    (s.value, s.status.bits())
}

/// Relies on `Double::to_u128_r`: the value rounded to an unsigned integer of
/// `width` bits, which it always fits; a NaN gives zero and the invalid flag,
/// positive infinity the largest integer and negative infinity zero, both with
/// the invalid flag.
#[verifier::external_body]
pub(crate) fn kernel_to_uint(a: u64, width: usize, m: RoundingMode) -> (r: (u128, u8))
    requires
        width == 32 || width == 64,
    ensures
        r == f64_to_uint_out(a, width, m.code()),
        width == 32 ==> r.0 <= u32::MAX,
        width == 64 ==> r.0 <= u64::MAX,
        nan_bits(a) ==> r == (0u128, INVALID),
        infinite_bits(a) && sign_of(a) == 0 && width == 32 ==> r == (u32::MAX as u128, INVALID),
        infinite_bits(a) && sign_of(a) == 0 && width == 64 ==> r == (u64::MAX as u128, INVALID),
        infinite_bits(a) && sign_of(a) != 0 ==> r == (0u128, INVALID),
{
    let s = Double::from_bits(a as u128).to_u128_r(width, round_of(m), &mut true);
    (s.value, s.status.bits())
}

/// Relies on `Double::convert_r` to `Single`: the value rounded to binary32.
#[verifier::external_body]
pub(crate) fn kernel_to_f32(a: u64, m: RoundingMode) -> (r: (u32, u8))
    ensures
        r == f64_to_f32_out(a, m.code()),
{
    let s: rustc_apfloat::StatusAnd<Single> = Double::from_bits(a as u128).convert_r(round_of(m), &mut false);
    (s.value.to_bits() as u32, s.status.bits())
}

/// Relies on `Single::convert_r` to `Double`: binary32 widened, which is exact.
#[verifier::external_body]
pub(crate) fn kernel_from_f32(a: u32) -> (r: (u64, u8))
    ensures
        r == f32_to_f64_out(a),
{
    let s: rustc_apfloat::StatusAnd<Double> = Single::from_bits(a as u128).convert_r(rustc_apfloat::Round::NearestTiesToEven, &mut false);
    (s.value.to_bits() as u64, s.status.bits())
}

/// Relies on `Double::convert_r` to `Half`: the value rounded to binary16.
#[verifier::external_body]
pub(crate) fn kernel_to_f16(a: u64, m: RoundingMode) -> (r: (u16, u8))
    ensures
        r == f64_to_f16_out(a, m.code()),
{
    let s: rustc_apfloat::StatusAnd<Half> = Double::from_bits(a as u128).convert_r(round_of(m), &mut false);
    (s.value.to_bits() as u16, s.status.bits())
}

/// Relies on `Double::convert_r` to `Quad`: binary64 widened to binary128, which is exact.
#[verifier::external_body]
pub(crate) fn kernel_to_f128(a: u64, m: RoundingMode) -> (r: (u128, u8))
    ensures
        r == f64_to_f128_out(a, m.code()),
{
    let s: rustc_apfloat::StatusAnd<Quad> = Double::from_bits(a as u128).convert_r(round_of(m), &mut false);
    (s.value.to_bits(), s.status.bits())
}

} // verus!
