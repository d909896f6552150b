use std::time::Duration;
use syncx::timeout::{Seconds, WaitSpan};

fn nearest(value: f64) -> Option<WaitSpan> {
    Seconds::from_bits(value.to_bits()).to_nearest_span()
}

fn truncated(value: f64) -> Option<WaitSpan> {
    Seconds::from_bits(value.to_bits()).to_truncated_span()
}

fn by_float_arithmetic(value: f64) -> WaitSpan {
    let secs = value.trunc();
    let nanos = ((value - secs) * 1_000_000_000.0).round();
    let nanos = nanos.clamp(0.0, 999_999_999.0);
    WaitSpan { secs: secs as u64, nanos: nanos as u32 }
}

fn by_duration(value: f64) -> WaitSpan {
    let d = Duration::from_secs_f64(value);
    WaitSpan { secs: d.as_secs(), nanos: d.subsec_nanos() }
}

fn next_pattern(state: &mut u64) -> u64 {
    *state = state.wrapping_mul(6364136223846793005).wrapping_add(1442695040888963407);
    let mut x = *state;
    x ^= x >> 33;
    x = x.wrapping_mul(0xff51afd7ed558ccd);
    x ^= x >> 33;
    x
}

#[test]
fn nearest_span_of_simple_values() {
    assert_eq!(nearest(0.0), Some(WaitSpan { secs: 0, nanos: 0 }));
    assert_eq!(nearest(1.5), Some(WaitSpan { secs: 1, nanos: 500_000_000 }));
    assert_eq!(nearest(2.7), Some(WaitSpan { secs: 2, nanos: 700_000_000 }));
    assert_eq!(nearest(1e-20), Some(WaitSpan { secs: 0, nanos: 0 }));
    assert_eq!(nearest(4.2e-7), Some(WaitSpan { secs: 0, nanos: 420 }));
    assert_eq!(nearest(5e-10), Some(WaitSpan { secs: 0, nanos: 1 }));
    assert_eq!(nearest(4611686018427387904.0), Some(WaitSpan { secs: 1 << 62, nanos: 0 }));
}

#[test]
fn nearest_span_ties_go_to_even() {
    // 0.5 ns and 1.5 ns are not binary fractions; 2^-1 / 2^30 seconds is.
    let half_unit = f64::from_bits(0x3E00_0000_0000_0000);
    assert_eq!(nearest(half_unit), by_duration(half_unit).into());
    assert_eq!(nearest(0.000_000_000_5), by_duration(0.000_000_000_5).into());
    assert_eq!(nearest(0.9999999996), Some(WaitSpan { secs: 1, nanos: 0 }));
}

#[test]
fn nearest_span_refuses_what_does_not_fit() {
    assert_eq!(nearest(18446744073709551616.0), None);
    assert_eq!(nearest(f64::INFINITY), None);
    assert_eq!(nearest(f64::NAN), None);
    assert_eq!(nearest(1e300), None);
    assert!(nearest(18446744073709549568.0).is_some());
}

#[test]
fn nearest_span_agrees_with_duration() {
    let mut state: u64 = 0x1234_5678_9abc_def0;
    let mut checked = 0;
    for _ in 0..200_000 {
        let bits = next_pattern(&mut state) & 0x7fff_ffff_ffff_ffff;
        let value = f64::from_bits(bits);
        if !value.is_finite() || value >= 18446744073709551616.0 {
            assert_eq!(nearest(value), None);
            continue;
        }
        assert_eq!(nearest(value), Some(by_duration(value)), "bits {:#x}", bits);
        checked += 1;
    }
    assert!(checked > 1000);
}

#[test]
fn nearest_span_agrees_with_duration_near_one_second() {
    let mut state: u64 = 42;
    for _ in 0..200_000 {
        let r = next_pattern(&mut state);
        let exponent = 1023 - 40 + (r >> 58) % 60;
        let bits = (exponent << 52) | (r & 0x000f_ffff_ffff_ffff);
        let value = f64::from_bits(bits);
        assert_eq!(nearest(value), Some(by_duration(value)), "bits {:#x}", bits);
    }
}

#[test]
fn truncated_span_of_simple_values() {
    assert_eq!(truncated(0.0), Some(WaitSpan { secs: 0, nanos: 0 }));
    assert_eq!(truncated(1.5), Some(WaitSpan { secs: 1, nanos: 500_000_000 }));
    assert_eq!(truncated(0.25), Some(WaitSpan { secs: 0, nanos: 250_000_000 }));
    assert_eq!(truncated(3.0), Some(WaitSpan { secs: 3, nanos: 0 }));
    assert_eq!(truncated(0.9999999996), Some(WaitSpan { secs: 0, nanos: 999_999_999 }));
    assert_eq!(truncated(1.9999999996), Some(WaitSpan { secs: 1, nanos: 999_999_999 }));
    assert_eq!(truncated(18446744073709551616.0), None);
    assert_eq!(truncated(f64::INFINITY), None);
}

#[test]
fn truncated_span_agrees_with_float_arithmetic() {
    let mut state: u64 = 7;
    for _ in 0..200_000 {
        let r = next_pattern(&mut state);
        let exponent = 1023 - 70 + (r >> 56) % 134;
        let bits = (exponent << 52) | (r & 0x000f_ffff_ffff_ffff);
        let value = f64::from_bits(bits);
        assert_eq!(truncated(value), Some(by_float_arithmetic(value)), "bits {:#x}", bits);
    }
}

#[test]
fn truncated_span_agrees_with_float_arithmetic_on_any_pattern() {
    let mut state: u64 = 99;
    for _ in 0..200_000 {
        let bits = next_pattern(&mut state) & 0x7fff_ffff_ffff_ffff;
        let value = f64::from_bits(bits);
        if !value.is_finite() || value >= 18446744073709551616.0 {
            assert_eq!(truncated(value), None);
        } else {
            assert_eq!(truncated(value), Some(by_float_arithmetic(value)), "bits {:#x}", bits);
        }
    }
}

#[test]
fn truncated_span_rounds_the_product_twice() {
    // The fraction times 1e9 lies just below a half; binary64 rounds the
    // product to the half, and the half goes up.
    let mut found = 0;
    let mut state: u64 = 5;
    for _ in 0..2_000_000 {
        let r = next_pattern(&mut state);
        let nanos = r % 1_000_000_000;
        let value = (nanos as f64 + 0.5) / 1_000_000_000.0;
        for candidate in [value, f64::from_bits(value.to_bits() - 1), f64::from_bits(value.to_bits() + 1)] {
            let got = truncated(candidate);
            assert_eq!(got, Some(by_float_arithmetic(candidate)));
            if got != nearest(candidate) {
                found += 1;
            }
        }
    }
    assert!(found > 0);
}

#[test]
fn seconds_keep_their_bits() {
    for bits in [0u64, 1, 0x3ff0_0000_0000_0000, 0x8000_0000_0000_0000, u64::MAX] {
        assert_eq!(Seconds::from_bits(bits).to_bits(), bits);
        assert_eq!(Seconds::from_bits(bits).bits, bits);
    }
}

#[test]
fn seconds_know_sign_and_finiteness() {
    let mut state: u64 = 1;
    for _ in 0..100_000 {
        let bits = next_pattern(&mut state);
        let value = f64::from_bits(bits);
        let seconds = Seconds::from_bits(bits);
        assert_eq!(seconds.is_sign_negative(), value.is_sign_negative());
        assert_eq!(seconds.is_finite(), value.is_finite());
        assert_eq!(seconds.is_below_zero(), value < 0.0);
    }
    for value in [0.0, -0.0, f64::INFINITY, f64::NEG_INFINITY, f64::NAN, -f64::NAN, 5e-324, -5e-324, f64::MAX, f64::MIN] {
        let seconds = Seconds::from_bits(value.to_bits());
        assert_eq!(seconds.is_sign_negative(), value.is_sign_negative());
        assert_eq!(seconds.is_finite(), value.is_finite());
        assert_eq!(seconds.is_below_zero(), value < 0.0);
    }
}

#[test]
fn spans_of_the_smallest_and_the_largest_values() {
    assert_eq!(nearest(5e-324), Some(WaitSpan { secs: 0, nanos: 0 }));
    assert_eq!(truncated(5e-324), Some(WaitSpan { secs: 0, nanos: 0 }));
    assert_eq!(nearest(2.2250738585072014e-308), Some(WaitSpan { secs: 0, nanos: 0 }));
    let largest = f64::from_bits(0x43ef_ffff_ffff_ffff);
    assert_eq!(nearest(largest), Some(WaitSpan { secs: 18446744073709549568, nanos: 0 }));
    assert_eq!(truncated(largest), Some(WaitSpan { secs: 18446744073709549568, nanos: 0 }));
    assert_eq!(nearest(4503599627370496.5), Some(WaitSpan { secs: 4503599627370496, nanos: 0 }));
    assert_eq!(nearest(2251799813685248.5), Some(WaitSpan { secs: 2251799813685248, nanos: 500_000_000 }));
    assert_eq!(truncated(2251799813685248.5), Some(WaitSpan { secs: 2251799813685248, nanos: 500_000_000 }));
    assert_eq!(nearest(-1.5), Some(WaitSpan { secs: 1, nanos: 500_000_000 }));
}

#[test]
fn nearest_span_on_exact_ties() {
    // An odd count of 1024ths of a second lies half way between two
    // nanoseconds.
    assert_eq!(nearest(1.0 / 1024.0), Some(WaitSpan { secs: 0, nanos: 976_562 }));
    assert_eq!(nearest(3.0 / 1024.0), Some(WaitSpan { secs: 0, nanos: 2_929_688 }));
    let mut ties = 0;
    for k in 10..24u32 {
        let unit = 1.0 / (1u64 << k) as f64;
        for m in 0..4000u64 {
            let value = m as f64 * unit;
            let got = nearest(value);
            assert_eq!(got, Some(by_duration(value)), "{} / 2^{}", m, k);
            let ns = value * 1e9;
            if ns.fract() == 0.5 {
                ties += 1;
                assert_eq!(got.unwrap().nanos % 2, 0);
            }
            assert_eq!(truncated(value), Some(by_float_arithmetic(value)), "{} / 2^{}", m, k);
        }
    }
    assert!(ties > 100);
}
