use core::cmp::Ordering;
use rust_decimal::prelude::{FromPrimitive, ToPrimitive};
use rust_decimal::Decimal;
use std::convert::TryInto;
use switchboard_v2::{SwitchboardDecimal, SwitchboardError};

#[test]
fn decimal_switchboard_decimal_into_rust_decimal() {
    let swb_decimal = &SwitchboardDecimal {
        mantissa: 12345,
        scale: 2,
    };
    let decimal: Decimal = swb_decimal.to_rust_decimal().unwrap();
    assert_eq!(decimal.mantissa(), 12345);
    assert_eq!(decimal.scale(), 2);
}

#[test]
fn decimal_empty_switchboard_decimal_is_false() {
    let swb_decimal = SwitchboardDecimal {
        mantissa: 0,
        scale: 0,
    };
    let b: bool = swb_decimal.into();
    assert_eq!(b, false);
    let swb_decimal_neg = SwitchboardDecimal {
        mantissa: -0,
        scale: 0,
    };
    let b: bool = swb_decimal_neg.into();
    assert_eq!(b, false);
    let by_ref: bool = (&swb_decimal).into();
    assert_eq!(by_ref, false);
}

#[test]
fn decimal_switchboard_decimal_to_u64() {
    // 1234.5678
    let swb_decimal = SwitchboardDecimal {
        mantissa: 12345678,
        scale: 4,
    };
    let b: u64 = swb_decimal.try_into().unwrap();
    assert_eq!(b, 1234);
    let by_ref: u64 = (&swb_decimal).try_into().unwrap();
    assert_eq!(by_ref, 1234);
}

#[test]
fn decimal_switchboard_decimal_to_f64() {
    // 1234.5678
    let swb_decimal = SwitchboardDecimal {
        mantissa: 12345678,
        scale: 4,
    };
    let b: f64 = swb_decimal.to_rust_decimal().unwrap().to_f64().unwrap();
    assert_eq!(b, 1234.5678);

    let swb_f64 = SwitchboardDecimal::from_rust_decimal(Decimal::from_f64(1234.5678).unwrap());
    assert_eq!(swb_decimal, swb_f64);
    assert_eq!(swb_f64.mantissa, 12345678);
    assert_eq!(swb_f64.scale, 4);
}

#[test]
fn new_keeps_mantissa_and_scale() {
    let d = SwitchboardDecimal::new(-987654321, 7);
    assert_eq!(d.mantissa, -987654321);
    assert_eq!(d.scale, 7);
    let zero = SwitchboardDecimal::default();
    assert_eq!(zero.mantissa, 0);
    assert_eq!(zero.scale, 0);
}

#[test]
fn from_rust_decimal_takes_mantissa_and_scale() {
    let d = Decimal::new(-12345678, 7);
    let s = SwitchboardDecimal::from_rust_decimal(d);
    assert_eq!(s.mantissa, -12345678);
    assert_eq!(s.scale, 7);
    let back = s.to_rust_decimal().unwrap();
    assert_eq!(back, d);
}

#[test]
fn to_rust_decimal_rejects_what_does_not_fit() {
    let max = 79228162514264337593543950335i128;
    assert!(SwitchboardDecimal::new(max, 28).to_rust_decimal().is_ok());
    assert!(SwitchboardDecimal::new(-max, 28).to_rust_decimal().is_ok());
    assert_eq!(
        SwitchboardDecimal::new(max + 1, 0).to_rust_decimal(),
        Err(SwitchboardError::DecimalConversionError)
    );
    assert_eq!(
        SwitchboardDecimal::new(-max - 1, 0).to_rust_decimal(),
        Err(SwitchboardError::DecimalConversionError)
    );
    assert_eq!(
        SwitchboardDecimal::new(1, 29).to_rust_decimal(),
        Err(SwitchboardError::DecimalConversionError)
    );
    assert_eq!(
        SwitchboardDecimal::new(i128::MAX, u32::MAX).to_rust_decimal(),
        Err(SwitchboardError::DecimalConversionError)
    );
}

#[test]
fn equal_values_with_different_scales_are_equal() {
    let a = SwitchboardDecimal::new(100, 0);
    let b = SwitchboardDecimal::new(1000, 1);
    assert!(a == b);
    assert_eq!(a.compare(&b), Ok(Ordering::Equal));
    assert_eq!(a.partial_cmp(&b), Some(Ordering::Equal));
    assert!(!(a < b));
    assert!(!(a > b));
    assert!(a <= b);
    assert!(a >= b);
    assert!(a != SwitchboardDecimal::new(1001, 1));
}

#[test]
fn order_follows_the_value_not_the_mantissa() {
    let small = SwitchboardDecimal::new(999, 3); // 0.999
    let large = SwitchboardDecimal::new(1, 0); // 1
    assert_eq!(small.compare(&large), Ok(Ordering::Less));
    assert_eq!(large.compare(&small), Ok(Ordering::Greater));
    assert!(small < large);
    assert!(large > small);
    assert!(small <= large);
    assert!(large >= small);
    let neg_small = SwitchboardDecimal::new(-5, 1); // -0.5
    let neg_large = SwitchboardDecimal::new(-1, 2); // -0.01
    assert_eq!(neg_small.compare(&neg_large), Ok(Ordering::Less));
    assert_eq!(neg_large.compare(&small), Ok(Ordering::Less));
}

#[test]
fn order_is_total_and_transitive_on_samples() {
    let samples = [
        SwitchboardDecimal::new(-1500, 3),
        SwitchboardDecimal::new(-15, 1),
        SwitchboardDecimal::new(0, 5),
        SwitchboardDecimal::new(1, 2),
        SwitchboardDecimal::new(10, 3),
        SwitchboardDecimal::new(100, 0),
        SwitchboardDecimal::new(1000, 1),
        SwitchboardDecimal::new(79228162514264337593543950335i128, 28),
    ];
    for a in samples.iter() {
        for b in samples.iter() {
            let lt = a < b;
            let eq = a == b;
            let gt = a > b;
            assert_eq!(lt as u8 + eq as u8 + gt as u8, 1);
            for c in samples.iter() {
                if a < b && b < c {
                    assert!(a < c);
                }
                if a == b && b == c {
                    assert!(a == c);
                }
            }
        }
    }
}

#[test]
fn compare_fails_on_what_is_not_representable() {
    let fine = SwitchboardDecimal::new(1, 0);
    let scale_too_large = SwitchboardDecimal::new(1, 29);
    let mantissa_too_large = SwitchboardDecimal::new(i128::MAX, 0);
    assert_eq!(
        fine.compare(&scale_too_large),
        Err(SwitchboardError::DecimalConversionError)
    );
    assert_eq!(
        mantissa_too_large.compare(&fine),
        Err(SwitchboardError::DecimalConversionError)
    );
    assert_eq!(fine.partial_cmp(&scale_too_large), None);
    assert_eq!(
        scale_too_large.partial_cmp(&scale_too_large),
        Some(Ordering::Equal)
    );
    assert!(scale_too_large == scale_too_large);
    assert!(scale_too_large != fine);
    assert!(!(fine < scale_too_large));
}

#[test]
fn unsigned_round_trip() {
    for n in [0i128, 1, 42, 1234567890123, u64::MAX as i128] {
        assert_eq!(SwitchboardDecimal::new(n, 0).to_u64(), Ok(n as u64));
    }
    assert_eq!(
        SwitchboardDecimal::new(u64::MAX as i128 + 1, 0).to_u64(),
        Err(SwitchboardError::IntegerOverflowError)
    );
    assert_eq!(
        SwitchboardDecimal::new(-1, 0).to_u64(),
        Err(SwitchboardError::IntegerOverflowError)
    );
    // out of range stays out of range, however wide the mantissa is
    for n in [1i128 << 96, 1i128 << 100, i128::MAX, i128::MIN, -(1i128 << 100)] {
        assert_eq!(
            SwitchboardDecimal::new(n, 0).to_u64(),
            Err(SwitchboardError::IntegerOverflowError)
        );
    }
}

#[test]
fn signed_round_trip() {
    for n in [0i64, 1, -1, 42, -1234567890123, i64::MAX, i64::MIN] {
        assert_eq!(SwitchboardDecimal::new(n as i128, 0).to_i64(), Ok(n));
    }
    for n in [
        i64::MAX as i128 + 1,
        i64::MIN as i128 - 1,
        1i128 << 96,
        -(1i128 << 96),
        i128::MAX,
        i128::MIN,
    ] {
        assert_eq!(
            SwitchboardDecimal::new(n, 0).to_i64(),
            Err(SwitchboardError::IntegerOverflowError)
        );
    }
}

#[test]
fn wide_mantissas_are_converted_exactly() {
    // 2^96 / 10^28 = 7.92...
    let wide = 1i128 << 96;
    assert_eq!(SwitchboardDecimal::new(wide, 28).to_u64(), Ok(7));
    assert_eq!(SwitchboardDecimal::new(wide, 28).to_i64(), Ok(7));
    assert_eq!(SwitchboardDecimal::new(-wide, 28).to_i64(), Ok(-7));
    assert_eq!(
        SwitchboardDecimal::new(-wide, 28).to_u64(),
        Err(SwitchboardError::IntegerOverflowError)
    );
    assert_eq!(
        SwitchboardDecimal::new(i128::MAX, 28).to_u64(),
        Ok(17014118346)
    );
    assert_eq!(
        SwitchboardDecimal::new(i128::MIN, 28).to_i64(),
        Ok(-17014118346)
    );
    assert_eq!(
        SwitchboardDecimal::new(i128::MIN, 20).to_i64(),
        Ok(-1701411834604692317)
    );
    assert_eq!(
        SwitchboardDecimal::new(i128::MIN, 19).to_i64(),
        Err(SwitchboardError::IntegerOverflowError)
    );
    // the edges of both ranges, reached with a mantissa beyond 96 bits
    let ten_10 = 10_000_000_000i128;
    let min_edge = -((1i128 << 63) * ten_10);
    assert_eq!(SwitchboardDecimal::new(min_edge, 10).to_i64(), Ok(i64::MIN));
    assert_eq!(
        SwitchboardDecimal::new(min_edge - ten_10 + 1, 10).to_i64(),
        Ok(i64::MIN)
    );
    assert_eq!(
        SwitchboardDecimal::new(min_edge - ten_10, 10).to_i64(),
        Err(SwitchboardError::IntegerOverflowError)
    );
    assert_eq!(
        SwitchboardDecimal::new(-min_edge - 1, 10).to_i64(),
        Ok(i64::MAX)
    );
    assert_eq!(
        SwitchboardDecimal::new(-min_edge, 10).to_i64(),
        Err(SwitchboardError::IntegerOverflowError)
    );
    let max_edge = (u64::MAX as i128) * ten_10 + ten_10 - 1;
    assert_eq!(SwitchboardDecimal::new(max_edge, 10).to_u64(), Ok(u64::MAX));
    assert_eq!(
        SwitchboardDecimal::new(max_edge + 1, 10).to_u64(),
        Err(SwitchboardError::IntegerOverflowError)
    );
}

#[test]
fn only_the_scale_makes_a_conversion_fail() {
    for m in [0i128, 1, -1, 1i128 << 100, i128::MAX, i128::MIN] {
        for s in [29u32, 30, 38, 39, 1000, u32::MAX] {
            assert_eq!(
                SwitchboardDecimal::new(m, s).to_u64(),
                Err(SwitchboardError::DecimalConversionError)
            );
            assert_eq!(
                SwitchboardDecimal::new(m, s).to_i64(),
                Err(SwitchboardError::DecimalConversionError)
            );
        }
    }
    assert_eq!(SwitchboardDecimal::new(0, 28).to_i64(), Ok(0));
    assert_eq!(SwitchboardDecimal::new(1, 28).to_u64(), Ok(0));
}

#[test]
fn to_u64_cuts_the_fraction_off() {
    assert_eq!(SwitchboardDecimal::new(19999, 4).to_u64(), Ok(1));
    assert_eq!(SwitchboardDecimal::new(9999, 4).to_u64(), Ok(0));
    assert_eq!(SwitchboardDecimal::new(0, 28).to_u64(), Ok(0));
    // -0.5 is negative, though it truncates to zero
    assert_eq!(
        SwitchboardDecimal::new(-5, 1).to_u64(),
        Err(SwitchboardError::IntegerOverflowError)
    );
    // 18446744073709551615.9
    assert_eq!(
        SwitchboardDecimal::new(184467440737095516159, 1).to_u64(),
        Ok(u64::MAX)
    );
    assert_eq!(
        SwitchboardDecimal::new(184467440737095516160, 1).to_u64(),
        Err(SwitchboardError::IntegerOverflowError)
    );
}

#[test]
fn to_i64_cuts_the_fraction_off_towards_zero() {
    assert_eq!(SwitchboardDecimal::new(12345678, 4).to_i64(), Ok(1234));
    assert_eq!(SwitchboardDecimal::new(-12345678, 4).to_i64(), Ok(-1234));
    assert_eq!(SwitchboardDecimal::new(-5, 1).to_i64(), Ok(0));
    assert_eq!(
        SwitchboardDecimal::new(i64::MAX as i128, 0).to_i64(),
        Ok(i64::MAX)
    );
    assert_eq!(
        SwitchboardDecimal::new(i64::MIN as i128, 0).to_i64(),
        Ok(i64::MIN)
    );
    assert_eq!(
        SwitchboardDecimal::new(i64::MAX as i128 + 1, 0).to_i64(),
        Err(SwitchboardError::IntegerOverflowError)
    );
    assert_eq!(
        SwitchboardDecimal::new(i64::MIN as i128 - 1, 0).to_i64(),
        Err(SwitchboardError::IntegerOverflowError)
    );
    // -9223372036854775808.9 truncates to i64::MIN
    assert_eq!(
        SwitchboardDecimal::new(-92233720368547758089, 1).to_i64(),
        Ok(i64::MIN)
    );
    assert_eq!(
        SwitchboardDecimal::new(1, 40).to_i64(),
        Err(SwitchboardError::DecimalConversionError)
    );
    let by_value: i64 = SwitchboardDecimal::new(-77, 1).try_into().unwrap();
    assert_eq!(by_value, -7);
    let d = SwitchboardDecimal::new(77, 1);
    let by_ref: i64 = (&d).try_into().unwrap();
    assert_eq!(by_ref, 7);
}

#[test]
fn truthiness_rounds_half_to_even() {
    assert!(SwitchboardDecimal::new(12345678, 4).to_bool());
    assert!(!SwitchboardDecimal::new(0, 0).to_bool());
    assert!(!SwitchboardDecimal::new(0, 28).to_bool());
    // 0.4 rounds to 0, 0.5 is a tie and goes to the even 0, 0.51 rounds to 1
    assert!(!SwitchboardDecimal::new(4, 1).to_bool());
    assert!(!SwitchboardDecimal::new(5, 1).to_bool());
    assert!(!SwitchboardDecimal::new(-5, 1).to_bool());
    assert!(SwitchboardDecimal::new(51, 2).to_bool());
    assert!(SwitchboardDecimal::new(-51, 2).to_bool());
    assert!(SwitchboardDecimal::new(15, 1).to_bool());
    assert!(SwitchboardDecimal::new(1, 0).to_bool());
    assert!(SwitchboardDecimal::new(-1, 0).to_bool());
}

#[test]
fn truthiness_beyond_the_representable() {
    // zero at any scale
    assert!(!SwitchboardDecimal::new(0, 29).to_bool());
    assert!(!SwitchboardDecimal::new(0, u32::MAX).to_bool());
    // a mantissa beyond 96 bits with a small scale is far from zero
    assert!(SwitchboardDecimal::new(i128::MAX, 0).to_bool());
    assert!(SwitchboardDecimal::new(i128::MIN, 28).to_bool());
    // 5 * 10^28 / 10^29 = 0.5 ties to zero; one more does not
    let half = 50000000000000000000000000000i128;
    assert!(!SwitchboardDecimal::new(half, 29).to_bool());
    assert!(SwitchboardDecimal::new(half + 1, 29).to_bool());
    assert!(SwitchboardDecimal::new(-half - 1, 29).to_bool());
    // 10^38 / 2 at scale 38
    let half38 = 50000000000000000000000000000000000000i128;
    assert!(!SwitchboardDecimal::new(half38, 38).to_bool());
    assert!(SwitchboardDecimal::new(half38 + 1, 38).to_bool());
    // nothing in 128 bits reaches half of 10^39
    assert!(!SwitchboardDecimal::new(i128::MAX, 39).to_bool());
    assert!(!SwitchboardDecimal::new(i128::MIN, 39).to_bool());
    assert!(!SwitchboardDecimal::new(i128::MIN, u32::MAX).to_bool());
}

#[test]
fn error_messages() {
    assert_eq!(
        SwitchboardError::InvalidAggregatorRound.message(),
        "Aggregator is not currently populated with a valid round."
    );
    assert_eq!(
        SwitchboardError::DecimalConversionError.message(),
        "Decimal conversion method failed."
    );
    assert_eq!(
        SwitchboardError::IntegerOverflowError.message(),
        "An integer overflow occurred."
    );
    assert_eq!(
        SwitchboardError::AccountDiscriminatorMismatch.message(),
        "Account discriminator did not match."
    );
}
