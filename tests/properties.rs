use soft_f64::{ExceptionFlags, RoundingMode, F64};
use std::cmp::Ordering;

const MODES: [RoundingMode; 5] = [
    RoundingMode::TiesToEven,
    RoundingMode::TowardZero,
    RoundingMode::TowardNegative,
    RoundingMode::TowardPositive,
    RoundingMode::TiesToAway,
];

const ONE: u64 = 0x3ff0000000000000;
const ONE_AND_HALF: u64 = 0x3ff8000000000000;
const NEG_ZERO: u64 = 0x8000000000000000;
const SNAN: u64 = 0x7ff0000000000001;
const QNAN: u64 = 0x7ff8000000000001;

#[test]
fn bits_round_trip_keeps_nan_payloads() {
    for v in [0u64, NEG_ZERO, ONE, SNAN, QNAN, 0xfff4_0000_dead_beef, u64::MAX] {
        assert_eq!(F64::from_bits(F64::from_bits(v).to_bits()).to_bits(), v);
        assert_eq!(F64::from_bits(v).bits(), v);
    }
    let mut x = F64::zero();
    x.set_payload(SNAN);
    assert_eq!(x.to_bits(), SNAN);
}

#[test]
fn add_and_mul_commute_in_every_mode() {
    let a = F64::from_bits(0x12345678ffffffff);
    let b = F64::from_bits(0x3fb999999999999a);
    for m in MODES {
        let mut f1 = ExceptionFlags::new();
        let mut f2 = ExceptionFlags::new();
        assert_eq!(a.add(b, m, &mut f1).to_bits(), b.add(a, m, &mut f2).to_bits());
        assert_eq!(a.mul(b, m, &mut f1).to_bits(), b.mul(a, m, &mut f2).to_bits());
        assert_eq!(f1.to_bits(), f2.to_bits());
    }
}

#[test]
fn signed_zero_sums() {
    let pz = F64::positive_zero();
    let nz = F64::negative_zero();
    for m in MODES {
        let mut f = ExceptionFlags::new();
        assert_eq!(pz.add(pz, m, &mut f).to_bits(), 0);
        let expected = if m == RoundingMode::TowardNegative { NEG_ZERO } else { 0 };
        assert_eq!(pz.add(nz, m, &mut f).to_bits(), expected);
        assert_eq!(f.to_bits(), 0);
    }
}

#[test]
fn nan_operand_gives_quiet_nan() {
    let one = F64::from_bits(ONE);
    for m in MODES {
        let mut f = ExceptionFlags::new();
        let r = F64::from_bits(SNAN).add(one, m, &mut f);
        assert!(r.is_nan());
        assert!(!r.is_signaling_nan());
        assert!(f.is_invalid());

        let mut f = ExceptionFlags::new();
        let r = F64::from_bits(QNAN).add(one, m, &mut f);
        assert!(r.is_nan());
        assert!(!r.is_signaling_nan());
        assert!(!f.is_invalid());
    }
}

#[test]
fn one_over_zero_is_infinity_with_divide_by_zero() {
    let mut f = ExceptionFlags::new();
    let one = F64::from_i32(1, RoundingMode::TiesToEven, &mut f);
    let zero = F64::from_i32(0, RoundingMode::TiesToEven, &mut f);
    assert_eq!(f.to_bits(), 0);
    let r = one.div(zero, RoundingMode::TiesToEven, &mut f);
    assert_eq!(r.to_bits(), 0x7ff0000000000000);
    assert!(r.is_infinite());
    assert!(f.is_divide_by_zero());
    assert!(!f.is_invalid());

    let mut f = ExceptionFlags::new();
    let r = one.div(F64::negative_zero(), RoundingMode::TiesToEven, &mut f);
    assert_eq!(r.to_bits(), 0xfff0000000000000);
}

#[test]
fn exactness_flag_on_integer_conversion() {
    let mut f = ExceptionFlags::new();
    assert_eq!(F64::from_bits(ONE).to_i64(RoundingMode::TiesToEven, true, &mut f), 1);
    assert!(!f.is_inexact());

    let mut f = ExceptionFlags::new();
    assert_eq!(F64::from_bits(ONE_AND_HALF).to_i64(RoundingMode::TiesToEven, true, &mut f), 2);
    assert!(f.is_inexact());

    let mut f = ExceptionFlags::new();
    assert_eq!(F64::from_bits(ONE_AND_HALF).to_i32(RoundingMode::TowardZero, false, &mut f), 1);
    assert!(!f.is_inexact());
}

#[test]
fn integer_conversion_edges() {
    let mut f = ExceptionFlags::new();
    assert_eq!(F64::from_bits(QNAN).to_i32(RoundingMode::TiesToEven, true, &mut f), 0);
    assert!(f.is_invalid());

    let mut f = ExceptionFlags::new();
    let big = F64::from_bits(0x47efffffe0000000);
    assert_eq!(big.to_u32(RoundingMode::TiesToEven, true, &mut f), u32::MAX);
    assert!(f.is_invalid());

    let mut f = ExceptionFlags::new();
    let minus_two = F64::from_i64(-2, RoundingMode::TiesToEven, &mut f);
    assert_eq!(minus_two.to_bits(), 0xc000000000000000);
    assert_eq!(minus_two.to_i64(RoundingMode::TiesToEven, true, &mut f), -2);
    assert_eq!(minus_two.to_u64(RoundingMode::TiesToEven, true, &mut f), 0);
    assert!(f.is_invalid());

    let mut f = ExceptionFlags::new();
    assert_eq!(F64::from_u32(3, RoundingMode::TiesToEven, &mut f).to_bits(), 0x4008000000000000);
    let r = F64::from_u64(u64::MAX, RoundingMode::TowardZero, &mut f);
    assert_eq!(r.to_bits(), 0x43efffffffffffff);
    assert!(f.is_inexact());
    assert_eq!(r.to_u64(RoundingMode::TiesToEven, true, &mut f), 0xfffffffffffff800);
}

#[test]
fn signaling_and_quiet_nan_predicates() {
    assert!(F64::from_bits(SNAN).is_signaling_nan());
    assert!(!F64::from_bits(QNAN).is_signaling_nan());
    assert!(F64::from_bits(QNAN).is_nan());
    assert!(!F64::from_bits(0x7ff0000000000000).is_nan());
    assert!(!F64::from_bits(0x7ff0000000000000).is_signaling_nan());
    assert!(F64::from_bits(0x7ff0000000000000).is_infinite());
    assert!(!F64::from_bits(0x7ff0000000000000).is_finite());
    assert!(F64::from_bits(ONE).is_finite());
    assert!(F64::negative_zero().is_zero());
    assert!(F64::negative_zero().is_negative());
    assert!(!F64::from_bits(ONE).is_zero());
}

#[test]
fn comparisons_and_their_flags() {
    let one = F64::from_bits(ONE);
    let half = F64::from_bits(0x3fe0000000000000);
    let q = F64::from_bits(QNAN);
    let mut f = ExceptionFlags::new();
    assert!(half.lt(&one, &mut f));
    assert!(half.le(&one, &mut f));
    assert!(one.le(&one, &mut f));
    assert!(!one.lt(&one, &mut f));
    assert!(half.lt_quiet(&one, &mut f));
    assert!(!one.le_quiet(&half, &mut f));
    assert!(F64::positive_zero().eq(&F64::negative_zero(), &mut f));
    assert_eq!(f.to_bits(), 0);

    assert!(!q.lt_quiet(&one, &mut f));
    assert!(!q.le_quiet(&one, &mut f));
    assert_eq!(q.compare(&one, &mut f), None);
    assert!(!f.is_invalid());
    assert!(!q.lt(&one, &mut f));
    assert!(f.is_invalid());

    let mut f = ExceptionFlags::new();
    assert!(!one.le(&q, &mut f));
    assert!(f.is_invalid());

    let mut f = ExceptionFlags::new();
    assert_eq!(F64::from_bits(SNAN).compare(&one, &mut f), None);
    assert!(f.is_invalid());
    assert_eq!(one.compare(&half, &mut f), Some(Ordering::Greater));
}

#[test]
fn round_to_integral_follows_mode_without_inexact() {
    let two_and_half = F64::from_bits(0x4004000000000000);
    let mut f = ExceptionFlags::new();
    assert_eq!(two_and_half.round_to_integral(RoundingMode::TiesToEven, &mut f).to_bits(), 0x4000000000000000);
    assert_eq!(two_and_half.round_to_integral(RoundingMode::TiesToAway, &mut f).to_bits(), 0x4008000000000000);
    assert_eq!(two_and_half.round_to_integral(RoundingMode::TowardNegative, &mut f).to_bits(), 0x4000000000000000);
    assert!(!f.is_inexact());
}

#[test]
fn rounding_mode_changes_result() {
    let one = F64::from_bits(ONE);
    let tiny = F64::from_bits(0x3c90000000000001);
    let mut f = ExceptionFlags::new();
    assert_eq!(one.add(tiny, RoundingMode::TiesToEven, &mut f).to_bits(), ONE);
    assert_eq!(one.add(tiny, RoundingMode::TowardPositive, &mut f).to_bits(), ONE + 1);
    assert_eq!(one.sub(tiny, RoundingMode::TowardZero, &mut f).to_bits(), 0x3fefffffffffffff);
    assert!(f.is_inexact());
}

#[test]
fn arithmetic_exact_values() {
    let mut f = ExceptionFlags::new();
    let three = F64::from_i32(3, RoundingMode::TiesToEven, &mut f);
    let two = F64::from_i64(2, RoundingMode::TiesToEven, &mut f);
    assert_eq!(three.to_bits(), 0x4008000000000000);
    assert_eq!(three.mul(two, RoundingMode::TiesToEven, &mut f).to_bits(), 0x4018000000000000);
    assert_eq!(three.sub(two, RoundingMode::TiesToEven, &mut f).to_bits(), ONE);
    assert_eq!(three.fused_mul_add(two, F64::one(), RoundingMode::TiesToEven, &mut f).to_bits(), 0x401c000000000000);
    assert_eq!(three.rem(two, RoundingMode::TiesToEven, &mut f).to_bits(), 0xbff0000000000000);
    assert_eq!(f.to_bits(), 0);
    let r = F64::one().div(three, RoundingMode::TiesToEven, &mut f);
    assert_eq!(r.to_bits(), 0x3fd5555555555555);
    assert!(f.is_inexact());
    assert_eq!(F64::one().to_bits(), ONE);
    assert_eq!(F64::default().to_bits(), 0);
}

#[test]
fn invalid_operations() {
    let inf = F64::from_bits(0x7ff0000000000000);
    let ninf = F64::from_bits(0xfff0000000000000);
    let mut f = ExceptionFlags::new();
    assert!(inf.add(ninf, RoundingMode::TiesToEven, &mut f).is_nan());
    assert!(f.is_invalid());
    let mut f = ExceptionFlags::new();
    assert!(F64::zero().div(F64::zero(), RoundingMode::TiesToEven, &mut f).is_nan());
    assert!(f.is_invalid());
    assert!(!f.is_divide_by_zero());
}

#[test]
fn overflow_and_underflow_flags() {
    let max = F64::from_bits(0x7fefffffffffffff);
    let mut f = ExceptionFlags::new();
    let r = max.mul(max, RoundingMode::TiesToEven, &mut f);
    assert_eq!(r.to_bits(), 0x7ff0000000000000);
    assert!(f.is_overflow());
    assert!(f.is_inexact());

    let min = F64::from_bits(0x0000000000000001);
    let mut f = ExceptionFlags::new();
    let r = min.mul(F64::from_bits(0x3fe0000000000000), RoundingMode::TiesToEven, &mut f);
    assert_eq!(r.to_bits(), 0);
    assert!(f.is_underflow());
}

#[test]
fn format_conversions() {
    let mut f = ExceptionFlags::new();
    assert_eq!(F64::from_bits(ONE).to_f32_bits(RoundingMode::TiesToEven, &mut f), 0x3f800000);
    assert_eq!(f.to_bits(), 0);
    let tenth = F64::from_bits(0x3fb999999999999a);
    assert_eq!(tenth.to_f32_bits(RoundingMode::TiesToEven, &mut f), 0.1f32.to_bits());
    assert!(f.is_inexact());
    assert_eq!(tenth.to_f32_bits(RoundingMode::TowardZero, &mut f), 0.1f32.to_bits() - 1);
    assert_eq!(F64::from_f32_bits(0x3f800000, &mut f).to_bits(), ONE);
    assert_eq!(tenth.to_f64(RoundingMode::TiesToEven).to_bits(), tenth.to_bits());
}

#[test]
fn flags_accumulate_until_reset() {
    let mut f = ExceptionFlags::new();
    f.raise(1);
    f.raise(16);
    assert!(f.is_invalid());
    assert!(f.is_inexact());
    assert_eq!(f.to_bits(), 17);
    f.raise(0xe0);
    assert_eq!(f.to_bits(), 17);
    let mut g = ExceptionFlags::from_bits(0xff);
    assert_eq!(g.to_bits(), 31);
    g.reset();
    assert_eq!(g.to_bits(), 0);
    g.capture(&f);
    assert_eq!(g.to_bits(), 17);
    assert!(!g.is_overflow());
    assert!(!g.is_underflow());
    assert!(!g.is_divide_by_zero());
}

#[test]
fn rounding_mode_codes() {
    for (i, m) in MODES.iter().enumerate() {
        assert_eq!(RoundingMode::from_code(m.to_code()), Some(*m));
        assert_eq!(m.to_code() as usize, i);
    }
    assert_eq!(RoundingMode::from_code(5), None);
    assert_eq!(RoundingMode::default(), RoundingMode::TiesToEven);
}

#[test]
fn from_integer_impls() {
    assert_eq!(F64::from(1i8).to_bits(), ONE);
    assert_eq!(F64::from(-2i16).to_bits(), 0xc000000000000000);
    assert_eq!(F64::from(3i32).to_bits(), 0x4008000000000000);
    assert_eq!(F64::from(-1i64).to_bits(), 0xbff0000000000000);
    assert_eq!(F64::from(1u8).to_bits(), ONE);
    assert_eq!(F64::from(2u16).to_bits(), 0x4000000000000000);
    assert_eq!(F64::from(3u32).to_bits(), 0x4008000000000000);
    assert_eq!(F64::from(1u64).to_bits(), ONE);
    assert_eq!(F64::from(1u128 << 64).to_bits(), 0x43f0000000000000);
    assert_eq!(i128::from(F64::from_bits(ONE_AND_HALF)), 2);
    assert_eq!(i128::from(F64::from(-7i32)), -7);
    assert_eq!(u128::from(F64::from(9u32)), 9);
}

#[test]
fn divide_one_by_zero_through_from() {
    let mut f = ExceptionFlags::new();
    let r = F64::from(1i32).div(F64::from(0i32), RoundingMode::TiesToEven, &mut f);
    assert_eq!(r.to_bits(), 0x7ff0000000000000);
    assert!(f.is_divide_by_zero());
}

#[test]
fn quiet_nan_operand_raises_nothing_and_opposite_infinities_are_invalid() {
    let one = F64::from_bits(ONE);
    let q = F64::from_bits(QNAN);
    for m in MODES {
        let mut f = ExceptionFlags::new();
        assert!(q.add(one, m, &mut f).is_nan());
        assert!(q.sub(one, m, &mut f).is_nan());
        assert!(one.mul(q, m, &mut f).is_nan());
        assert!(one.div(q, m, &mut f).is_nan());
        assert_eq!(f.to_bits(), 0);

        let mut f = ExceptionFlags::new();
        let r = F64::from_bits(0x7ff0000000000000).add(F64::from_bits(0xfff0000000000000), m, &mut f);
        assert!(r.is_nan() && !r.is_signaling_nan());
        assert_eq!(f.to_bits(), 1);
    }
    let mut f = ExceptionFlags::new();
    assert!(F64::from_bits(SNAN).mul(one, RoundingMode::TiesToEven, &mut f).is_nan());
    assert!(f.is_invalid());
}

#[test]
fn commuted_operations_raise_the_same_flags() {
    let a = F64::from_bits(0x3fb999999999999a);
    let b = F64::from_bits(0x4008000000000000);
    for m in MODES {
        let mut f1 = ExceptionFlags::new();
        let mut f2 = ExceptionFlags::new();
        a.add(b, m, &mut f1);
        b.add(a, m, &mut f2);
        assert_eq!(f1.to_bits(), f2.to_bits());
        a.mul(b, m, &mut f1);
        b.mul(a, m, &mut f2);
        assert_eq!(f1.to_bits(), f2.to_bits());
        assert!(f1.is_inexact());
    }
}

#[test]
fn divide_by_zero_raises_that_flag_alone() {
    let mut f = ExceptionFlags::new();
    let r = F64::from_bits(0xc008000000000000).div(F64::positive_zero(), RoundingMode::TowardZero, &mut f);
    assert_eq!(r.to_bits(), 0xfff0000000000000);
    assert_eq!(f.to_bits(), 2);
}

#[test]
fn comparisons_follow_value_order() {
    let mut f = ExceptionFlags::new();
    let vals = [0xfff0000000000000u64, 0xc000000000000000, NEG_ZERO, 0, 1, ONE, 0x7ff0000000000000];
    for (i, a) in vals.iter().enumerate() {
        for (j, b) in vals.iter().enumerate() {
            let (x, y) = (F64::from_bits(*a), F64::from_bits(*b));
            let expected = if (i == 2 || i == 3) && (j == 2 || j == 3) { Ordering::Equal } else { i.cmp(&j) };
            assert_eq!(x.compare(&y, &mut f), Some(expected));
            assert_eq!(x.lt_quiet(&y, &mut f), expected == Ordering::Less);
            assert_eq!(x.le(&y, &mut f), expected != Ordering::Greater);
        }
    }
    assert_eq!(f.to_bits(), 0);
    let q = F64::from_bits(QNAN);
    assert!(!q.eq_signaling(&F64::from_bits(ONE), &mut f));
    assert!(f.is_invalid());
}

#[test]
fn infinities_saturate_integer_conversions() {
    let inf = F64::from_bits(0x7ff0000000000000);
    let ninf = F64::from_bits(0xfff0000000000000);
    let mut f = ExceptionFlags::new();
    assert_eq!(inf.to_i32(RoundingMode::TiesToEven, true, &mut f), i32::MAX);
    assert_eq!(ninf.to_i32(RoundingMode::TiesToEven, true, &mut f), i32::MIN);
    assert_eq!(inf.to_i64(RoundingMode::TiesToEven, true, &mut f), i64::MAX);
    assert_eq!(ninf.to_i64(RoundingMode::TiesToEven, true, &mut f), i64::MIN);
    assert_eq!(inf.to_u32(RoundingMode::TiesToEven, true, &mut f), u32::MAX);
    assert_eq!(ninf.to_u32(RoundingMode::TiesToEven, true, &mut f), 0);
    assert_eq!(inf.to_u64(RoundingMode::TiesToEven, true, &mut f), u64::MAX);
    assert_eq!(ninf.to_u64(RoundingMode::TiesToEven, true, &mut f), 0);
    assert!(f.is_invalid());
}

#[test]
fn half_and_quad_conversions() {
    let mut f = ExceptionFlags::new();
    let one = F64::from_bits(ONE);
    assert_eq!(one.to_f16_bits(RoundingMode::TiesToEven, &mut f), 0x3c00);
    assert_eq!(one.to_f128_bits(RoundingMode::TiesToEven, &mut f), 0x3fff_0000_0000_0000_0000_0000_0000_0000);
    assert_eq!(f.to_bits(), 0);
    let tenth = F64::from_bits(0x3fb999999999999a);
    assert_eq!(tenth.to_f16_bits(RoundingMode::TiesToEven, &mut f), 0x2e66);
    assert!(f.is_inexact());
    let mut f = ExceptionFlags::new();
    assert_eq!(tenth.to_f128_bits(RoundingMode::TiesToEven, &mut f), 0x3ffb_9999_9999_9999_a000_0000_0000_0000);
    assert_eq!(f.to_bits(), 0);
    let mut f = ExceptionFlags::new();
    assert_eq!(F64::from_bits(0x40f0000000000000).to_f16_bits(RoundingMode::TiesToEven, &mut f), 0x7c00);
    assert!(f.is_overflow());
}
