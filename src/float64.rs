//! The binary64 format: a value is its 64-bit pattern, and every operation
//! hands the patterns to the kernel under an explicit rounding mode, merging
//! the kernel's status into a caller-owned flag accumulator.

use vstd::prelude::*;

use crate::flags::{ExceptionFlags, ALL, DIVIDE_BY_ZERO, INEXACT, INVALID};
use crate::kernel::{
    f64_add_out, f64_div_out, f64_fma_out, f64_from_int_out, f64_from_uint_out, f64_mul_out,
    f64_rem_out, f64_round_integral_out, f64_sub_out, f64_to_f32_out, f32_to_f64_out, f64_to_int_out,
    f64_to_uint_out, f64_to_f16_out, f64_to_f128_out, kernel_add, kernel_div, kernel_fma, kernel_from_f32, kernel_from_int,
    kernel_from_uint, kernel_mul, kernel_order, kernel_rem, kernel_round_to_integral, kernel_sub,
    kernel_to_f32, kernel_to_f16, kernel_to_f128, kernel_to_int, kernel_to_uint,
};
use crate::rounding::RoundingMode;

verus! {

/// The sign bit.
pub const SIGN_BIT: u64 = 0x8000_0000_0000_0000;
/// The biased-exponent field; all ones marks an infinity or a NaN.
pub const EXP_MASK: u64 = 0x7ff0_0000_0000_0000;
/// The fraction field.
pub const FRAC_MASK: u64 = 0x000f_ffff_ffff_ffff;
/// The fraction's leading bit, set in a quiet NaN and clear in a signaling one.
pub const QUIET_BIT: u64 = 0x0008_0000_0000_0000;
/// The pattern of negative zero.
pub const NEG_ZERO: u64 = 0x8000_0000_0000_0000;
/// The pattern of positive infinity.
pub const POS_INFINITY: u64 = 0x7ff0_0000_0000_0000;

/// The sign bit of `b`, in place.
pub open spec fn sign_of(b: u64) -> u64 {
    b & SIGN_BIT
}

pub open spec fn nan_bits(b: u64) -> bool {
    b & EXP_MASK == EXP_MASK && b & FRAC_MASK != 0
}

pub open spec fn signaling_nan_bits(b: u64) -> bool {
    nan_bits(b) && b & QUIET_BIT == 0
}

pub open spec fn quiet_nan_bits(b: u64) -> bool {
    nan_bits(b) && b & QUIET_BIT != 0
}

pub open spec fn zero_bits(b: u64) -> bool {
    b & !SIGN_BIT == 0
}

pub open spec fn infinite_bits(b: u64) -> bool {
    b & !SIGN_BIT == EXP_MASK
}

pub open spec fn finite_bits(b: u64) -> bool {
    b & EXP_MASK != EXP_MASK
}

/// Status of an arithmetic operation with a NaN operand: invalid exactly when
/// an operand is a signaling NaN.
pub open spec fn nan_status(a: u64, b: u64) -> u8 {
    if signaling_nan_bits(a) || signaling_nan_bits(b) {
        INVALID
    } else {
        0
    }
}

/// Position of a value that is not NaN on the extended real line: the
/// magnitude pattern orders as the magnitude, and both zeroes sit at 0.
pub open spec fn order_key(b: u64) -> int {
    if b & SIGN_BIT != 0 {
        -((b & !SIGN_BIT) as int)
    } else {
        (b & !SIGN_BIT) as int
    }
}

/// IEEE comparison of two patterns: unordered when either is a NaN.
pub open spec fn order_of(a: u64, b: u64) -> Option<core::cmp::Ordering> {
    if nan_bits(a) || nan_bits(b) {
        None
    } else if order_key(a) < order_key(b) {
        Some(core::cmp::Ordering::Less)
    } else if order_key(a) == order_key(b) {
        Some(core::cmp::Ordering::Equal)
    } else {
        Some(core::cmp::Ordering::Greater)
    }
}

/// Status of a comparison: invalid for a signaling NaN operand, and for any
/// NaN operand when the comparison is a signaling one.
pub open spec fn compare_status(a: u64, b: u64, signaling: bool) -> u8 {
    if signaling_nan_bits(a) || signaling_nan_bits(b) || (signaling && (nan_bits(a) || nan_bits(b))) {
        INVALID
    } else {
        0
    }
}

/// Status of a conversion to an integer: without the exactness check the
/// inexact flag is dropped.
pub open spec fn int_status(status: u8, exact: bool) -> u8 {
    if exact {
        status
    } else {
        status & !INEXACT
    }
}

/// A standard 64-bit binary floating-point value.
#[derive(Clone, Copy, Debug)]
pub struct F64 {
    bits: u64,
}

impl F64 {
    /// The bit pattern of the value.
    pub closed spec fn view(&self) -> u64 {
        self.bits
    }

    /// The value whose bit pattern is `v`.
    pub closed spec fn spec_from_bits(v: u64) -> F64 {
        F64 { bits: v }
    }

    /// Flags after merging `status` into `flags`.
    pub open spec fn merged(flags: ExceptionFlags, status: u8) -> u8 {
        flags@ | (status & ALL)
    }

    /// The value whose bit pattern is `v`.
    pub fn from_bits(v: u64) -> (r: F64)
        ensures
            r@ == v,
            r == F64::spec_from_bits(v),
    {
        F64 { bits: v }
    }

    /// The bit pattern of the value.
    pub fn to_bits(&self) -> (r: u64)
        ensures
            r == self@,
    {
        self.bits
    }

    /// The bit pattern of the value.
    pub fn bits(&self) -> (r: u64)
        ensures
            r == self@,
    {
        self.bits
    }

    /// Replaces the bit pattern.
    pub fn set_payload(&mut self, v: u64)
        ensures
            final(self)@ == v,
    {
        self.bits = v;
    }

    /// Positive zero.
    pub fn zero() -> (r: F64)
        ensures
            r@ == 0,
    {
        F64 { bits: 0 }
    }

    /// Positive zero.
    pub fn positive_zero() -> (r: F64)
        ensures
            r@ == 0,
    {
        F64 { bits: 0 }
    }

    /// Negative zero.
    pub fn negative_zero() -> (r: F64)
        ensures
            r@ == NEG_ZERO,
    {
        F64 { bits: NEG_ZERO }
    }

    /// The integer one, converted by the kernel.
    pub fn one() -> (r: F64)
        ensures
            r@ == f64_from_int_out(1, RoundingMode::TiesToEven.code()).0,
    {
        let out = kernel_from_int(1, RoundingMode::TiesToEven);
        F64 { bits: out.0 }
    }

    /// Positive or negative zero.
    pub fn is_zero(&self) -> (r: bool)
        ensures
            r == zero_bits(self@),
    {
        self.bits & !SIGN_BIT == 0
    }

    /// The sign bit is set.
    pub fn is_negative(&self) -> (r: bool)
        ensures
            r == (sign_of(self@) != 0),
    {
        self.bits & SIGN_BIT != 0
    }

    /// All exponent bits set and a nonzero fraction.
    pub fn is_nan(&self) -> (r: bool)
        ensures
            r == nan_bits(self@),
    {
        self.bits & EXP_MASK == EXP_MASK && self.bits & FRAC_MASK != 0
    }

    /// Positive or negative infinity.
    pub fn is_infinite(&self) -> (r: bool)
        ensures
            r == infinite_bits(self@),
    {
        self.bits & !SIGN_BIT == EXP_MASK
    }

    /// Neither an infinity nor a NaN.
    pub fn is_finite(&self) -> (r: bool)
        ensures
            r == finite_bits(self@),
    {
        self.bits & EXP_MASK != EXP_MASK
    }

    /// A NaN whose quiet bit is clear.
    pub fn is_signaling_nan(&self) -> (r: bool)
        ensures
            r == signaling_nan_bits(self@),
    {
        self.is_nan() && self.bits & QUIET_BIT == 0
    }

    /// `x` rounded under `rnd` (every `i32` is exact).
    pub fn from_i32(x: i32, rnd: RoundingMode, flags: &mut ExceptionFlags) -> (r: F64)
        ensures
            r@ == f64_from_int_out(x as i128, rnd.code()).0,
            final(flags)@ == F64::merged(*old(flags), f64_from_int_out(x as i128, rnd.code()).1),
    {
        let out = kernel_from_int(x as i128, rnd);
        flags.raise(out.1);
        F64 { bits: out.0 }
    }

    /// `x` rounded under `rnd`.
    pub fn from_i64(x: i64, rnd: RoundingMode, flags: &mut ExceptionFlags) -> (r: F64)
        ensures
            r@ == f64_from_int_out(x as i128, rnd.code()).0,
            final(flags)@ == F64::merged(*old(flags), f64_from_int_out(x as i128, rnd.code()).1),
    {
        let out = kernel_from_int(x as i128, rnd);
        flags.raise(out.1);
        F64 { bits: out.0 }
    }

    /// `x` rounded under `rnd` (every `u32` is exact).
    pub fn from_u32(x: u32, rnd: RoundingMode, flags: &mut ExceptionFlags) -> (r: F64)
        ensures
            r@ == f64_from_uint_out(x as u128, rnd.code()).0,
            final(flags)@ == F64::merged(*old(flags), f64_from_uint_out(x as u128, rnd.code()).1),
    {
        let out = kernel_from_uint(x as u128, rnd);
        flags.raise(out.1);
        F64 { bits: out.0 }
    }

    /// `x` rounded under `rnd`.
    pub fn from_u64(x: u64, rnd: RoundingMode, flags: &mut ExceptionFlags) -> (r: F64)
        ensures
            r@ == f64_from_uint_out(x as u128, rnd.code()).0,
            final(flags)@ == F64::merged(*old(flags), f64_from_uint_out(x as u128, rnd.code()).1),
    {
        let out = kernel_from_uint(x as u128, rnd);
        flags.raise(out.1);
        F64 { bits: out.0 }
    }

    /// The value rounded under `rnd` to an `i32`; with `exact` a lost fraction
    /// raises the inexact flag, without it the loss is silent.
    pub fn to_i32(&self, rnd: RoundingMode, exact: bool, flags: &mut ExceptionFlags) -> (r: i32)
        ensures
            r as i128 == f64_to_int_out(self@, 32, rnd.code()).0,
            final(flags)@ == F64::merged(*old(flags), int_status(f64_to_int_out(self@, 32, rnd.code()).1, exact)),
            nan_bits(self@) ==> r == 0 && ExceptionFlags::raised(final(flags)@, INVALID),
            infinite_bits(self@) ==> r == (if sign_of(self@) == 0 {
                i32::MAX
            } else {
                i32::MIN
            }) && ExceptionFlags::raised(final(flags)@, INVALID),
    {
        let out = kernel_to_int(self.bits, 32, rnd);
        raise_int_status(flags, out.1, exact);
        out.0 as i32
    }

    /// The value rounded under `rnd` to an `i64`, as `to_i32` does.
    pub fn to_i64(&self, rnd: RoundingMode, exact: bool, flags: &mut ExceptionFlags) -> (r: i64)
        ensures
            r as i128 == f64_to_int_out(self@, 64, rnd.code()).0,
            final(flags)@ == F64::merged(*old(flags), int_status(f64_to_int_out(self@, 64, rnd.code()).1, exact)),
            nan_bits(self@) ==> r == 0 && ExceptionFlags::raised(final(flags)@, INVALID),
            infinite_bits(self@) ==> r == (if sign_of(self@) == 0 {
                i64::MAX
            } else {
                i64::MIN
            }) && ExceptionFlags::raised(final(flags)@, INVALID),
    {
        let out = kernel_to_int(self.bits, 64, rnd);
        raise_int_status(flags, out.1, exact);
        out.0 as i64
    }

    /// The value rounded under `rnd` to a `u32`, as `to_i32` does.
    pub fn to_u32(&self, rnd: RoundingMode, exact: bool, flags: &mut ExceptionFlags) -> (r: u32)
        ensures
            r as u128 == f64_to_uint_out(self@, 32, rnd.code()).0,
            final(flags)@ == F64::merged(*old(flags), int_status(f64_to_uint_out(self@, 32, rnd.code()).1, exact)),
            nan_bits(self@) ==> r == 0 && ExceptionFlags::raised(final(flags)@, INVALID),
            infinite_bits(self@) ==> r == (if sign_of(self@) == 0 {
                u32::MAX
            } else {
                0
            }) && ExceptionFlags::raised(final(flags)@, INVALID),
    {
        let out = kernel_to_uint(self.bits, 32, rnd);
        raise_int_status(flags, out.1, exact);
        out.0 as u32
    }

    /// The value rounded under `rnd` to a `u64`, as `to_i32` does.
    pub fn to_u64(&self, rnd: RoundingMode, exact: bool, flags: &mut ExceptionFlags) -> (r: u64)
        ensures
            r as u128 == f64_to_uint_out(self@, 64, rnd.code()).0,
            final(flags)@ == F64::merged(*old(flags), int_status(f64_to_uint_out(self@, 64, rnd.code()).1, exact)),
            nan_bits(self@) ==> r == 0 && ExceptionFlags::raised(final(flags)@, INVALID),
            infinite_bits(self@) ==> r == (if sign_of(self@) == 0 {
                u64::MAX
            } else {
                0
            }) && ExceptionFlags::raised(final(flags)@, INVALID),
    {
        let out = kernel_to_uint(self.bits, 64, rnd);
        raise_int_status(flags, out.1, exact);
        out.0 as u64
    }

    /// The binary32 pattern nearest under `rnd`.
    pub fn to_f32_bits(&self, rnd: RoundingMode, flags: &mut ExceptionFlags) -> (r: u32)
        ensures
            r == f64_to_f32_out(self@, rnd.code()).0,
            final(flags)@ == F64::merged(*old(flags), f64_to_f32_out(self@, rnd.code()).1),
    {
        let out = kernel_to_f32(self.bits, rnd);
        flags.raise(out.1);
        out.0
    }

    /// The binary16 pattern nearest under `rnd`.
    pub fn to_f16_bits(&self, rnd: RoundingMode, flags: &mut ExceptionFlags) -> (r: u16)
        ensures
            r == f64_to_f16_out(self@, rnd.code()).0,
            final(flags)@ == F64::merged(*old(flags), f64_to_f16_out(self@, rnd.code()).1),
    {
        let out = kernel_to_f16(self.bits, rnd);
        flags.raise(out.1);
        out.0
    }

    /// The binary128 pattern of the same value; widening is exact.
    pub fn to_f128_bits(&self, rnd: RoundingMode, flags: &mut ExceptionFlags) -> (r: u128)
        ensures
            r == f64_to_f128_out(self@, rnd.code()).0,
            final(flags)@ == F64::merged(*old(flags), f64_to_f128_out(self@, rnd.code()).1),
    {
        let out = kernel_to_f128(self.bits, rnd);
        flags.raise(out.1);
        out.0
    }

    /// The binary32 value of pattern `v`, widened exactly.
    pub fn from_f32_bits(v: u32, flags: &mut ExceptionFlags) -> (r: F64)
        ensures
            r@ == f32_to_f64_out(v).0,
            final(flags)@ == F64::merged(*old(flags), f32_to_f64_out(v).1),
    {
        let out = kernel_from_f32(v);
        flags.raise(out.1);
        F64 { bits: out.0 }
    }

    /// The same value in this format: the pattern unchanged.
    pub fn to_f64(&self, _rnd: RoundingMode) -> (r: F64)
        ensures
            r@ == self@,
    {
        F64 { bits: self.bits }
    }

    /// Sum of `self` and `x`, rounded under `rnd`.
    pub fn add(&self, x: F64, rnd: RoundingMode, flags: &mut ExceptionFlags) -> (r: F64)
        ensures
            r@ == f64_add_out(self@, x@, rnd.code()).0,
            final(flags)@ == F64::merged(*old(flags), f64_add_out(self@, x@, rnd.code()).1),
            !nan_bits(self@) && !nan_bits(x@) ==> r@ == f64_add_out(x@, self@, rnd.code()).0
                && f64_add_out(self@, x@, rnd.code()).1 == f64_add_out(x@, self@, rnd.code()).1,
            self@ == 0 && x@ == 0 ==> r@ == 0,
            self@ == 0 && x@ == NEG_ZERO ==> r@ == (if rnd == RoundingMode::TowardNegative {
                NEG_ZERO
            } else {
                0u64
            }),
            nan_bits(self@) || nan_bits(x@) ==> quiet_nan_bits(r@) && !signaling_nan_bits(r@)
                && f64_add_out(self@, x@, rnd.code()).1 == nan_status(self@, x@),
            signaling_nan_bits(self@) || signaling_nan_bits(x@) ==> ExceptionFlags::raised(
                final(flags)@,
                INVALID,
            ),
            infinite_bits(self@) && infinite_bits(x@) && sign_of(self@) != sign_of(x@) ==> quiet_nan_bits(
                r@,
            ) && f64_add_out(self@, x@, rnd.code()).1 == INVALID,
    {
        proof {
            lemma_zero_patterns();
        }
        let out = kernel_add(self.bits, x.bits, rnd);
        let ghost before = flags@;
        flags.raise(out.1);
        proof {
            lemma_invalid_kept(before, out.1);
            assert(1u8 & 1u8 != 0) by (bit_vector);
        }
        F64 { bits: out.0 }
    }

    /// Difference `self - x`, rounded under `rnd`.
    pub fn sub(&self, x: F64, rnd: RoundingMode, flags: &mut ExceptionFlags) -> (r: F64)
        ensures
            r@ == f64_sub_out(self@, x@, rnd.code()).0,
            final(flags)@ == F64::merged(*old(flags), f64_sub_out(self@, x@, rnd.code()).1),
            nan_bits(self@) || nan_bits(x@) ==> quiet_nan_bits(r@) && f64_sub_out(self@, x@, rnd.code()).1
                == nan_status(self@, x@),
    {
        let out = kernel_sub(self.bits, x.bits, rnd);
        flags.raise(out.1);
        F64 { bits: out.0 }
    }

    /// Product of `self` and `x`, rounded under `rnd`.
    pub fn mul(&self, x: F64, rnd: RoundingMode, flags: &mut ExceptionFlags) -> (r: F64)
        ensures
            r@ == f64_mul_out(self@, x@, rnd.code()).0,
            final(flags)@ == F64::merged(*old(flags), f64_mul_out(self@, x@, rnd.code()).1),
            !nan_bits(self@) && !nan_bits(x@) ==> r@ == f64_mul_out(x@, self@, rnd.code()).0
                && f64_mul_out(self@, x@, rnd.code()).1 == f64_mul_out(x@, self@, rnd.code()).1,
            nan_bits(self@) || nan_bits(x@) ==> quiet_nan_bits(r@) && f64_mul_out(self@, x@, rnd.code()).1
                == nan_status(self@, x@),
    {
        let out = kernel_mul(self.bits, x.bits, rnd);
        flags.raise(out.1);
        F64 { bits: out.0 }
    }

    /// Quotient `self / x`, rounded under `rnd`.
    pub fn div(&self, x: F64, rnd: RoundingMode, flags: &mut ExceptionFlags) -> (r: F64)
        ensures
            r@ == f64_div_out(self@, x@, rnd.code()).0,
            final(flags)@ == F64::merged(*old(flags), f64_div_out(self@, x@, rnd.code()).1),
            finite_bits(self@) && !zero_bits(self@) && zero_bits(x@) ==> r@ == POS_INFINITY | (
            sign_of(self@) ^ sign_of(x@)) && f64_div_out(self@, x@, rnd.code()).1 == DIVIDE_BY_ZERO
                && ExceptionFlags::raised(final(flags)@, DIVIDE_BY_ZERO),
            nan_bits(self@) || nan_bits(x@) ==> quiet_nan_bits(r@) && f64_div_out(self@, x@, rnd.code()).1
                == nan_status(self@, x@),
    {
        let out = kernel_div(self.bits, x.bits, rnd);
        let ghost before = flags@;
        flags.raise(out.1);
        proof {
            assert((before | (2u8 & 31u8)) & 2u8 != 0) by (bit_vector);
        }
        F64 { bits: out.0 }
    }

    /// IEEE remainder of `self` by `x`; the result is exact, so `_rnd` has no effect.
    pub fn rem(&self, x: F64, _rnd: RoundingMode, flags: &mut ExceptionFlags) -> (r: F64)
        ensures
            r@ == f64_rem_out(self@, x@).0,
            final(flags)@ == F64::merged(*old(flags), f64_rem_out(self@, x@).1),
    {
        let out = kernel_rem(self.bits, x.bits);
        flags.raise(out.1);
        F64 { bits: out.0 }
    }

    /// `self * x + y` with a single rounding under `rnd`.
    pub fn fused_mul_add(&self, x: F64, y: F64, rnd: RoundingMode, flags: &mut ExceptionFlags) -> (r: F64)
        ensures
            r@ == f64_fma_out(self@, x@, y@, rnd.code()).0,
            final(flags)@ == F64::merged(*old(flags), f64_fma_out(self@, x@, y@, rnd.code()).1),
    {
        let out = kernel_fma(self.bits, x.bits, y.bits, rnd);
        flags.raise(out.1);
        F64 { bits: out.0 }
    }

    /// The integral value that `rnd` selects, without the inexact flag.
    pub fn round_to_integral(&self, rnd: RoundingMode, flags: &mut ExceptionFlags) -> (r: F64)
        ensures
            r@ == f64_round_integral_out(self@, rnd.code()).0,
            final(flags)@ == F64::merged(
                *old(flags),
                int_status(f64_round_integral_out(self@, rnd.code()).1, false),
            ),
    {
        let out = kernel_round_to_integral(self.bits, rnd);
        flags.raise(out.1 & !INEXACT);
        F64 { bits: out.0 }
    }

    /// Quiet comparison: unordered (`None`) when an operand is a NaN.
    pub fn compare(&self, x: &F64, flags: &mut ExceptionFlags) -> (r: Option<core::cmp::Ordering>)
        ensures
            r == order_of(self@, x@),
            r.is_none() <==> nan_bits(self@) || nan_bits(x@),
            zero_bits(self@) && zero_bits(x@) ==> r == Some(core::cmp::Ordering::Equal),
            !nan_bits(self@) && self@ == x@ ==> r == Some(core::cmp::Ordering::Equal),
            final(flags)@ == F64::merged(*old(flags), compare_status(self@, x@, false)),
    {
        proof {
            lemma_order_facts(self@, x@);
        }
        flags.raise(status_of_compare(self.bits, x.bits, false));
        kernel_order(self.bits, x.bits)
    }

    /// Quiet equality: `+0` equals `-0` and a NaN equals nothing.
    pub fn eq(&self, x: &F64, flags: &mut ExceptionFlags) -> (r: bool)
        ensures
            r == (order_of(self@, x@) == Some(core::cmp::Ordering::Equal)),
            nan_bits(self@) || nan_bits(x@) ==> !r,
            zero_bits(self@) && zero_bits(x@) ==> r,
            final(flags)@ == F64::merged(*old(flags), compare_status(self@, x@, false)),
    {
        proof {
            lemma_order_facts(self@, x@);
        }
        flags.raise(status_of_compare(self.bits, x.bits, false));
        is_order(kernel_order(self.bits, x.bits), false, true, false)
    }

    /// Equality that raises the invalid flag for any NaN operand.
    pub fn eq_signaling(&self, x: &F64, flags: &mut ExceptionFlags) -> (r: bool)
        ensures
            r == (order_of(self@, x@) == Some(core::cmp::Ordering::Equal)),
            nan_bits(self@) || nan_bits(x@) ==> !r,
            zero_bits(self@) && zero_bits(x@) ==> r,
            final(flags)@ == F64::merged(*old(flags), compare_status(self@, x@, true)),
    {
        proof {
            lemma_order_facts(self@, x@);
        }
        flags.raise(status_of_compare(self.bits, x.bits, true));
        is_order(kernel_order(self.bits, x.bits), false, true, false)
    }

    /// `self < x`, raising the invalid flag for any NaN operand.
    pub fn lt(&self, x: &F64, flags: &mut ExceptionFlags) -> (r: bool)
        ensures
            nan_bits(self@) || nan_bits(x@) ==> !r,
            r == (order_of(self@, x@) == Some(core::cmp::Ordering::Less)),
            final(flags)@ == F64::merged(*old(flags), compare_status(self@, x@, true)),
    {
        flags.raise(status_of_compare(self.bits, x.bits, true));
        is_order(kernel_order(self.bits, x.bits), true, false, false)
    }

    /// `self <= x`, raising the invalid flag for any NaN operand.
    pub fn le(&self, x: &F64, flags: &mut ExceptionFlags) -> (r: bool)
        ensures
            nan_bits(self@) || nan_bits(x@) ==> !r,
            r == (order_of(self@, x@) == Some(core::cmp::Ordering::Less) || order_of(self@, x@)
                == Some(core::cmp::Ordering::Equal)),
            final(flags)@ == F64::merged(*old(flags), compare_status(self@, x@, true)),
    {
        flags.raise(status_of_compare(self.bits, x.bits, true));
        is_order(kernel_order(self.bits, x.bits), true, true, false)
    }

    /// `self < x`, raising the invalid flag only for a signaling NaN.
    pub fn lt_quiet(&self, x: &F64, flags: &mut ExceptionFlags) -> (r: bool)
        ensures
            nan_bits(self@) || nan_bits(x@) ==> !r,
            r == (order_of(self@, x@) == Some(core::cmp::Ordering::Less)),
            final(flags)@ == F64::merged(*old(flags), compare_status(self@, x@, false)),
    {
        flags.raise(status_of_compare(self.bits, x.bits, false));
        is_order(kernel_order(self.bits, x.bits), true, false, false)
    }

    /// `self <= x`, raising the invalid flag only for a signaling NaN.
    pub fn le_quiet(&self, x: &F64, flags: &mut ExceptionFlags) -> (r: bool)
        ensures
            nan_bits(self@) || nan_bits(x@) ==> !r,
            r == (order_of(self@, x@) == Some(core::cmp::Ordering::Less) || order_of(self@, x@)
                == Some(core::cmp::Ordering::Equal)),
            final(flags)@ == F64::merged(*old(flags), compare_status(self@, x@, false)),
    {
        flags.raise(status_of_compare(self.bits, x.bits, false));
        is_order(kernel_order(self.bits, x.bits), true, true, false)
    }
}


/// The status that a comparison of `a` and `b` reports.
fn status_of_compare(a: u64, b: u64, signaling: bool) -> (r: u8)
    ensures
        r == compare_status(a, b, signaling),
{
    let fa = F64 { bits: a };
    let fb = F64 { bits: b };
    if fa.is_signaling_nan() || fb.is_signaling_nan() || (signaling && (fa.is_nan() || fb.is_nan())) {
        INVALID
    } else {
        0
    }
}

/// Whether `o` is one of the orderings selected by the three switches.
fn is_order(o: Option<core::cmp::Ordering>, less: bool, equal: bool, greater: bool) -> (r: bool)
    ensures
        r == ((less && o == Some(core::cmp::Ordering::Less)) || (equal && o == Some(
            core::cmp::Ordering::Equal,
        )) || (greater && o == Some(core::cmp::Ordering::Greater))),
{
    match o {
        Some(core::cmp::Ordering::Less) => less,
        Some(core::cmp::Ordering::Equal) => equal,
        Some(core::cmp::Ordering::Greater) => greater,
        None => false,
    }
}

proof fn lemma_zero_patterns()
    ensures
        zero_bits(0),
        zero_bits(NEG_ZERO),
        sign_of(0) == 0,
        sign_of(NEG_ZERO) != 0,
        !nan_bits(0),
        !nan_bits(NEG_ZERO),
{
    assert(0u64 & !0x8000_0000_0000_0000u64 == 0) by (bit_vector);
    assert(0x8000_0000_0000_0000u64 & !0x8000_0000_0000_0000u64 == 0) by (bit_vector);
    assert(0u64 & 0x8000_0000_0000_0000u64 == 0) by (bit_vector);
    assert(0x8000_0000_0000_0000u64 & 0x8000_0000_0000_0000u64 != 0) by (bit_vector);
    assert(0u64 & 0x7ff0_0000_0000_0000u64 != 0x7ff0_0000_0000_0000u64) by (bit_vector);
    assert(0x8000_0000_0000_0000u64 & 0x7ff0_0000_0000_0000u64 != 0x7ff0_0000_0000_0000u64)
        by (bit_vector);
}

proof fn lemma_order_facts(a: u64, b: u64)
    ensures
        zero_bits(a) && zero_bits(b) ==> order_of(a, b) == Some(core::cmp::Ordering::Equal),
        !nan_bits(a) && a == b ==> order_of(a, b) == Some(core::cmp::Ordering::Equal),
{
    assert(a & !0x8000_0000_0000_0000u64 == 0 ==> a & 0x7ff0_0000_0000_0000u64
        != 0x7ff0_0000_0000_0000u64) by (bit_vector);
    assert(b & !0x8000_0000_0000_0000u64 == 0 ==> b & 0x7ff0_0000_0000_0000u64
        != 0x7ff0_0000_0000_0000u64) by (bit_vector);
}

proof fn lemma_invalid_kept(before: u8, status: u8)
    ensures
        status & INVALID != 0 ==> (before | (status & ALL)) & INVALID != 0,
{
    assert(status & 1u8 != 0 ==> (before | (status & 31u8)) & 1u8 != 0) by (bit_vector);
}

/// Merges the status of an integer conversion, dropping the inexact flag
/// unless the exactness check was asked for.
fn raise_int_status(flags: &mut ExceptionFlags, status: u8, exact: bool)
    ensures
        final(flags)@ == F64::merged(*old(flags), int_status(status, exact)),
        status & INVALID != 0 ==> ExceptionFlags::raised(final(flags)@, INVALID),
        status == INVALID ==> ExceptionFlags::raised(final(flags)@, INVALID),
{
    let ghost before = flags@;
    let st = if exact {
        status
    } else {
        status & !INEXACT
    };
    flags.raise(st);
    proof {
        assert(status & 1u8 != 0 ==> (before | ((status & !16u8) & 31u8)) & 1u8 != 0) by (bit_vector);
        lemma_invalid_kept(before, status);
        assert(1u8 & 1u8 != 0) by (bit_vector);
    }
}

/// `i32` rounded to nearest, ties to even; the status is discarded.
impl From<i32> for F64 {
    fn from(v: i32) -> (r: F64) {
        let mut flags = ExceptionFlags::new();
        F64::from_i32(v, RoundingMode::TiesToEven, &mut flags)
    }
}

impl vstd::std_specs::convert::FromSpecImpl<i32> for F64 {
    open spec fn obeys_from_spec() -> bool {
        true
    }

    open spec fn from_spec(v: i32) -> F64 {
        F64::spec_from_bits(f64_from_int_out(v as i128, RoundingMode::TiesToEven.code()).0)
    }
}

/// `i64` rounded to nearest, ties to even; the status is discarded.
impl From<i64> for F64 {
    fn from(v: i64) -> (r: F64) {
        let mut flags = ExceptionFlags::new();
        F64::from_i64(v, RoundingMode::TiesToEven, &mut flags)
    }
}

impl vstd::std_specs::convert::FromSpecImpl<i64> for F64 {
    open spec fn obeys_from_spec() -> bool {
        true
    }

    open spec fn from_spec(v: i64) -> F64 {
        F64::spec_from_bits(f64_from_int_out(v as i128, RoundingMode::TiesToEven.code()).0)
    }
}

/// `u32` rounded to nearest, ties to even; the status is discarded.
impl From<u32> for F64 {
    fn from(v: u32) -> (r: F64) {
        let mut flags = ExceptionFlags::new();
        F64::from_u32(v, RoundingMode::TiesToEven, &mut flags)
    }
}

impl vstd::std_specs::convert::FromSpecImpl<u32> for F64 {
    open spec fn obeys_from_spec() -> bool {
        true
    }

    open spec fn from_spec(v: u32) -> F64 {
        F64::spec_from_bits(f64_from_uint_out(v as u128, RoundingMode::TiesToEven.code()).0)
    }
}

/// `u64` rounded to nearest, ties to even; the status is discarded.
impl From<u64> for F64 {
    fn from(v: u64) -> (r: F64) {
        let mut flags = ExceptionFlags::new();
        F64::from_u64(v, RoundingMode::TiesToEven, &mut flags)
    }
}

impl vstd::std_specs::convert::FromSpecImpl<u64> for F64 {
    open spec fn obeys_from_spec() -> bool {
        true
    }

    open spec fn from_spec(v: u64) -> F64 {
        F64::spec_from_bits(f64_from_uint_out(v as u128, RoundingMode::TiesToEven.code()).0)
    }
}

/// `i8` converted exactly; the status is discarded.
impl From<i8> for F64 {
    fn from(v: i8) -> (r: F64) {
        let mut flags = ExceptionFlags::new();
        F64::from_i32(v as i32, RoundingMode::TiesToEven, &mut flags)
    }
}

impl vstd::std_specs::convert::FromSpecImpl<i8> for F64 {
    open spec fn obeys_from_spec() -> bool {
        true
    }

    open spec fn from_spec(v: i8) -> F64 {
        F64::spec_from_bits(f64_from_int_out(v as i128, RoundingMode::TiesToEven.code()).0)
    }
}

/// `i16` converted exactly; the status is discarded.
impl From<i16> for F64 {
    fn from(v: i16) -> (r: F64) {
        let mut flags = ExceptionFlags::new();
        F64::from_i32(v as i32, RoundingMode::TiesToEven, &mut flags)
    }
}

impl vstd::std_specs::convert::FromSpecImpl<i16> for F64 {
    open spec fn obeys_from_spec() -> bool {
        true
    }

    open spec fn from_spec(v: i16) -> F64 {
        F64::spec_from_bits(f64_from_int_out(v as i128, RoundingMode::TiesToEven.code()).0)
    }
}

/// `u8` converted exactly; the status is discarded.
impl From<u8> for F64 {
    fn from(v: u8) -> (r: F64) {
        let mut flags = ExceptionFlags::new();
        F64::from_u32(v as u32, RoundingMode::TiesToEven, &mut flags)
    }
}

impl vstd::std_specs::convert::FromSpecImpl<u8> for F64 {
    open spec fn obeys_from_spec() -> bool {
        true
    }

    open spec fn from_spec(v: u8) -> F64 {
        F64::spec_from_bits(f64_from_uint_out(v as u128, RoundingMode::TiesToEven.code()).0)
    }
}

/// `u16` converted exactly; the status is discarded.
impl From<u16> for F64 {
    fn from(v: u16) -> (r: F64) {
        let mut flags = ExceptionFlags::new();
        F64::from_u32(v as u32, RoundingMode::TiesToEven, &mut flags)
    }
}

impl vstd::std_specs::convert::FromSpecImpl<u16> for F64 {
    open spec fn obeys_from_spec() -> bool {
        true
    }

    open spec fn from_spec(v: u16) -> F64 {
        F64::spec_from_bits(f64_from_uint_out(v as u128, RoundingMode::TiesToEven.code()).0)
    }
}

/// `u128` rounded to nearest, ties to even; the status is discarded.
impl From<u128> for F64 {
    fn from(v: u128) -> (r: F64) {
        let out = kernel_from_uint(v, RoundingMode::TiesToEven);
        F64 { bits: out.0 }
    }
}

impl vstd::std_specs::convert::FromSpecImpl<u128> for F64 {
    open spec fn obeys_from_spec() -> bool {
        true
    }

    open spec fn from_spec(v: u128) -> F64 {
        F64::spec_from_bits(f64_from_uint_out(v, RoundingMode::TiesToEven.code()).0)
    }
}

/// The value rounded to nearest, ties to even, as an `i64`; the status is discarded.
impl From<F64> for i128 {
    fn from(v: F64) -> (r: i128) {
        let mut flags = ExceptionFlags::new();
        v.to_i64(RoundingMode::TiesToEven, false, &mut flags) as i128
    }
}

impl vstd::std_specs::convert::FromSpecImpl<F64> for i128 {
    open spec fn obeys_from_spec() -> bool {
        true
    }

    open spec fn from_spec(v: F64) -> i128 {
        f64_to_int_out(v@, 64, RoundingMode::TiesToEven.code()).0
    }
}

/// The value rounded to nearest, ties to even, as a `u64`; the status is discarded.
impl From<F64> for u128 {
    fn from(v: F64) -> (r: u128) {
        let mut flags = ExceptionFlags::new();
        v.to_u64(RoundingMode::TiesToEven, false, &mut flags) as u128
    }
}

impl vstd::std_specs::convert::FromSpecImpl<F64> for u128 {
    open spec fn obeys_from_spec() -> bool {
        true
    }

    open spec fn from_spec(v: F64) -> u128 {
        f64_to_uint_out(v@, 64, RoundingMode::TiesToEven.code()).0
    }
}

impl Default for F64 {
    fn default() -> (r: F64)
        ensures
            r@ == 0,
    {
        F64::zero()
    }
}

/// Going from a value to its bit pattern and back gives the same value,
/// NaN payloads included; going from a pattern to a value and back gives the
/// same pattern.
pub proof fn lemma_bits_round_trip(x: F64, v: u64)
    ensures
        F64::spec_from_bits(x@) == x,
        F64::spec_from_bits(v)@ == v,
{
}

} // verus!
