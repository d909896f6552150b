//! Wait bounds.
//!
//! A host hands a wait bound over as a number of seconds in IEEE 754 binary64
//! encoding. This module reads such a bit pattern with integer arithmetic
//! only: its sign, whether it is finite, and the span of whole seconds and
//! nanoseconds that it rounds to.

use std::time::Duration;
use vstd::arithmetic::div_mod::*;
use vstd::arithmetic::mul::*;
use vstd::arithmetic::power2::*;
use vstd::prelude::*;

verus! {

/// Nanoseconds in one second.
pub const NANOS_PER_SEC: u32 = 1_000_000_000;

/// Two to the power 52: the weight of the implicit leading bit of a binary64
/// significand.
pub const HIDDEN_BIT: u64 = 0x10_0000_0000_0000;

/// Two to the power 63: the sign bit of a binary64 bit pattern.
pub const SIGN_BIT: u64 = 0x8000_0000_0000_0000;

/// The biased exponent that marks infinities and NaNs.
pub const EXPONENT_SPECIAL: u64 = 2047;

/// The biased exponent of two to the power 64, the first magnitude whose
/// whole seconds no longer fit in 64 bits.
pub const EXPONENT_TOO_LARGE: u64 = 1087;

/// The biased exponent of two to the power 52, from which on a binary64
/// value has no fractional part.
pub const EXPONENT_INTEGRAL: u64 = 1075;

/// A span of time: whole seconds and a nanosecond part below one second.
#[derive(Clone, Copy, Debug, PartialEq, Eq, Structural)]
pub struct WaitSpan {
    pub secs: u64,
    pub nanos: u32,
}

impl WaitSpan {
    /// The nanosecond part stays below one second.
    pub open spec fn well_formed(self) -> bool {
        self.nanos < NANOS_PER_SEC
    }

    /// The span as a count of nanoseconds.
    pub open spec fn total_nanos(self) -> nat {
        (self.secs * 1_000_000_000 + self.nanos) as nat
    }

    /// The span that holds `total` nanoseconds.
    pub open spec fn of_nanos(total: nat) -> WaitSpan {
        WaitSpan { secs: (total / 1_000_000_000) as u64, nanos: (total % 1_000_000_000) as u32 }
    }

    /// The longest span there is.
    pub open spec fn longest() -> WaitSpan {
        WaitSpan { secs: u64::MAX, nanos: 999_999_999 }
    }
}

/// `Duration::new` of std, on a nanosecond part below one second, where it
/// cannot overflow.
#[verifier::external_body]
pub(crate) fn duration_of(span: WaitSpan) -> Duration
    requires
        span.well_formed(),
{
    Duration::new(span.secs, span.nanos)
}

/// `n / d` rounded to the nearest integer, a tie going to the even neighbour.
pub open spec fn round_half_even(n: nat, d: nat) -> nat
    recommends
        d > 0,
{
    let q = n / d;
    let r = n % d;
    if 2 * r > d || (2 * r == d && q % 2 == 1) {
        q + 1
    } else {
        q
    }
}

/// `n / d` rounded to the nearest integer, a tie going up.
pub open spec fn round_half_up(n: nat, d: nat) -> nat
    recommends
        d > 0,
{
    let q = n / d;
    let r = n % d;
    if 2 * r >= d {
        q + 1
    } else {
        q
    }
}

/// Rounding to the nearest integer is off by half a unit at most:
/// `round_half_even(n, d)` times `d` lies within `d / 2` of `n`.
pub proof fn lemma_round_half_even_is_nearest(n: nat, d: nat)
    requires
        d > 0,
    ensures
        2 * (round_half_even(n, d) * d - n) <= d,
        2 * (n - round_half_even(n, d) * d) <= d,
{
    let q = n / d;
    let r = n % d;
    lemma_fundamental_div_mod(n as int, d as int);
    lemma_mod_bound(n as int, d as int);
    assert((q + 1) * d == q * d + d) by (nonlinear_arith);
    assert(q * d == d * q) by (nonlinear_arith);
}

/// A bound with a fractional part is read to the nearest nanosecond: with
/// `d = 2^(-scale)`, the nanoseconds of the nearest span, taken `d` times,
/// lie within `d / 2` of the significand times ten to the power 9, and the
/// span holds just those nanoseconds.
pub proof fn lemma_nearest_span_is_nearest(t: Seconds)
    requires
        t.fits(),
        t.scale() < 0,
    ensures
        2 * (t.nearest_nanos() * pow2((-t.scale()) as nat) - t.significand() * 1_000_000_000)
            <= pow2((-t.scale()) as nat),
        2 * (t.significand() * 1_000_000_000 - t.nearest_nanos() * pow2((-t.scale()) as nat))
            <= pow2((-t.scale()) as nat),
        t.nearest_span().well_formed(),
        t.nearest_span().total_nanos() == t.nearest_nanos(),
{
    let d = pow2((-t.scale()) as nat);
    let n = t.significand() * 1_000_000_000;
    lemma_pow2_pos((-t.scale()) as nat);
    lemma_round_half_even_is_nearest(n, d);
    // The divisor is two at least, so the nanoseconds stay far below what
    // 64 bits of seconds hold.
    lemma_pow2_unfold((-t.scale()) as nat);
    lemma_pow2_pos((-t.scale() - 1) as nat);
    let total = t.nearest_nanos();
    assert(n < 0x20_0000_0000_0000 * 1_000_000_000) by (nonlinear_arith)
        requires
            n == t.significand() * 1_000_000_000,
            t.significand() < 0x20_0000_0000_0000,
    ;
    lemma_div_is_ordered_by_denominator(n as int, 2, d as int);
    assert(total <= n / 2 + 1);
    lemma_fundamental_div_mod(total as int, 1_000_000_000);
    lemma_mod_bound(total as int, 1_000_000_000);
}

/// Rounding to the nearest integer with a tie going up is off by half a
/// unit at most: `round_half_up(n, d)` times `d` lies within `d / 2` of `n`.
pub proof fn lemma_round_half_up_is_nearest(n: nat, d: nat)
    requires
        d > 0,
    ensures
        2 * (round_half_up(n, d) * d - n) <= d,
        2 * (n - round_half_up(n, d) * d) <= d,
{
    let q = n / d;
    lemma_fundamental_div_mod(n as int, d as int);
    lemma_mod_bound(n as int, d as int);
    assert((q + 1) * d == q * d + d) by (nonlinear_arith);
    assert(q * d == d * q) by (nonlinear_arith);
}

/// A bound with a fractional part is read by `truncated_span` to within one
/// nanosecond: with `d = 2^(-scale)`, the nanoseconds of the span, taken `d`
/// times, lie within `d` of the significand times ten to the power 9. The
/// span holds the whole seconds and the nanoseconds of the fraction.
pub proof fn lemma_truncated_span_is_near(t: Seconds)
    requires
        t.fits(),
        t.scale() < 0,
    ensures
        t.truncated_span().well_formed(),
        t.truncated_span().secs == t.whole_secs(),
        t.truncated_span().nanos == t.fraction_nanos(),
        t.truncated_span().total_nanos() * pow2((-t.scale()) as nat) - t.significand()
            * 1_000_000_000 <= pow2((-t.scale()) as nat),
        t.significand() * 1_000_000_000 - t.truncated_span().total_nanos() * pow2(
            (-t.scale()) as nat,
        ) <= pow2((-t.scale()) as nat),
{
    let s = (-t.scale()) as nat;
    let d = pow2(s);
    let m = t.significand();
    let whole = m / d;
    let f = m % d;
    let n = f * 1_000_000_000;
    lemma_pow2_pos(s);
    lemma_fundamental_div_mod(m as int, d as int);
    lemma_mod_bound(m as int, d as int);
    lemma_scaled_fraction_bound(f, s);
    // The excess of the product is at most `s`.
    let e = binary64_excess(n);
    lemma2_to64_rest();
    if s >= 23 {
        lemma_excess_at_most(n, (s - 23) as nat);
    } else {
        lemma_pow2_strictly_increases(s + 30, 53);
    }
    assert(e <= s);
    let a = pow2(e);
    let b = pow2((s - e) as nat);
    lemma_pow2_pos(e);
    lemma_pow2_pos((s - e) as nat);
    lemma_pow2_adds(e, (s - e) as nat);
    assert(d == a * b);
    let kept = round_half_even(n, a);
    let q = round_half_up(kept, b);
    assert(q == binary64_quotient_rounded(n, s));
    lemma_round_half_even_is_nearest(n, a);
    lemma_round_half_up_is_nearest(kept, b);
    // Both roundings together are off by `d` at most.
    assert(2 * (q * d - n) <= 2 * d && 2 * (n - q * d) <= 2 * d) by (nonlinear_arith)
        requires
            d == a * b,
            a >= 1,
            b >= 1,
            2 * (kept * a - n) <= a,
            2 * (n - kept * a) <= a,
            2 * (q * b - kept) <= b,
            2 * (kept - q * b) <= b,
    ;
    // The product stays below one second, so what is cut off at the top is
    // within a nanosecond too.
    assert(n < 1_000_000_000 * d) by (nonlinear_arith)
        requires
            n == f * 1_000_000_000,
            f < d,
    ;
    assert(q <= 1_000_000_000) by (nonlinear_arith)
        requires
            q * d - n <= d,
            n < 1_000_000_000 * d,
            d > 0,
    ;
    let nanos = t.fraction_nanos();
    assert(nanos == if q > 999_999_999 {
        999_999_999
    } else {
        q
    });
    assert(nanos * d - n <= d && n - nanos * d <= d) by (nonlinear_arith)
        requires
            q * d - n <= d,
            n - q * d <= d,
            n < 1_000_000_000 * d,
            q <= 1_000_000_000,
            d > 0,
            nanos == if q > 999_999_999 {
                999_999_999nat
            } else {
                q
            },
    ;
    // The whole seconds are below two to the power 53.
    lemma_div_is_ordered_by_denominator(m as int, 1, d as int);
    assert(whole <= m);
    assert(t.whole_secs() == whole);
    let total = whole * 1_000_000_000 + nanos;
    assert(t.truncated_span().total_nanos() == total);
    assert(total * d - m * 1_000_000_000 == nanos * d - n && m * 1_000_000_000 - total * d == n
        - nanos * d) by (nonlinear_arith)
        requires
            total == whole * 1_000_000_000 + nanos,
            m == d * whole + f,
            n == f * 1_000_000_000,
    ;
}

/// How many low bits of `n` a binary64 significand of 53 bits cannot hold.
pub open spec fn binary64_excess(n: nat) -> nat
    decreases n,
{
    if n < 0x20_0000_0000_0000 {
        0
    } else {
        1 + binary64_excess(n / 2)
    }
}

/// `n / 2^s` rounded first to the nearest binary64 number, a tie going to the
/// even significand, and then to the nearest integer, a tie going up.
pub open spec fn binary64_quotient_rounded(n: nat, s: nat) -> nat {
    let excess = binary64_excess(n);
    let kept = round_half_even(n, pow2(excess));
    if excess <= s {
        round_half_up(kept, pow2((s - excess) as nat))
    } else {
        kept * pow2((excess - s) as nat)
    }
}

/// A number of seconds in IEEE 754 binary64 encoding.
#[derive(Clone, Copy, Debug, PartialEq, Eq, Structural)]
pub struct Seconds {
    pub bits: u64,
}

impl Seconds {
    /// The sign bit is set. This holds of negative zero and of NaNs with the
    /// sign bit too.
    pub open spec fn sign_negative(self) -> bool {
        self.bits >= SIGN_BIT
    }

    /// The eleven exponent bits.
    pub open spec fn biased_exponent(self) -> nat {
        ((self.bits / HIDDEN_BIT) % 2048) as nat
    }

    /// The 52 fraction bits.
    pub open spec fn fraction(self) -> nat {
        (self.bits % HIDDEN_BIT) as nat
    }

    /// Neither an infinity nor a NaN.
    pub open spec fn finite(self) -> bool {
        self.biased_exponent() != EXPONENT_SPECIAL
    }

    /// The integer `m` in the magnitude `m * 2^scale`.
    pub open spec fn significand(self) -> nat {
        if self.biased_exponent() == 0 {
            self.fraction()
        } else {
            HIDDEN_BIT as nat + self.fraction()
        }
    }

    /// The exponent `scale` in the magnitude `m * 2^scale`.
    pub open spec fn scale(self) -> int {
        if self.biased_exponent() == 0 {
            -1074
        } else {
            self.biased_exponent() - 1075
        }
    }

    /// The number is below zero: the sign bit is set, and the number is
    /// neither a zero nor a NaN.
    pub open spec fn below_zero(self) -> bool {
        &&& self.sign_negative()
        &&& self.significand() != 0
        &&& (self.finite() || self.fraction() == 0)
    }

    /// The magnitude is finite and below two to the power 64.
    pub open spec fn fits(self) -> bool {
        self.biased_exponent() < EXPONENT_TOO_LARGE
    }

    /// The whole seconds of the magnitude.
    pub open spec fn whole_secs(self) -> nat {
        if self.scale() >= 0 {
            self.significand() * pow2(self.scale() as nat)
        } else {
            self.significand() / pow2((-self.scale()) as nat)
        }
    }

    /// The magnitude in nanoseconds, rounded to the nearest integer, a tie
    /// going to the even neighbour.
    pub open spec fn nearest_nanos(self) -> nat {
        if self.scale() >= 0 {
            self.significand() * pow2(self.scale() as nat) * 1_000_000_000
        } else {
            round_half_even(self.significand() * 1_000_000_000, pow2((-self.scale()) as nat))
        }
    }

    /// The span nearest to the magnitude.
    pub open spec fn nearest_span(self) -> WaitSpan {
        WaitSpan::of_nanos(self.nearest_nanos())
    }

    /// The numerator of the magnitude's fractional part, over
    /// `2^(-scale)`.
    pub open spec fn fraction_numerator(self) -> nat {
        if self.scale() >= 0 {
            0
        } else {
            self.significand() % pow2((-self.scale()) as nat)
        }
    }

    /// The nanoseconds of the fractional part: the fraction times ten to the
    /// power 9 as binary64 arithmetic gives that product, rounded to the
    /// nearest integer with a tie going up, and held below one second.
    pub open spec fn fraction_nanos(self) -> nat {
        if self.scale() >= 0 {
            0
        } else {
            let nanos = binary64_quotient_rounded(
                self.fraction_numerator() * 1_000_000_000,
                (-self.scale()) as nat,
            );
            if nanos > 999_999_999 {
                999_999_999
            } else {
                nanos
            }
        }
    }

    /// The whole seconds of the magnitude with the nanoseconds of its
    /// fractional part.
    pub open spec fn truncated_span(self) -> WaitSpan {
        WaitSpan { secs: self.whole_secs() as u64, nanos: self.fraction_nanos() as u32 }
    }

    pub fn from_bits(bits: u64) -> (r: Seconds)
        ensures
            r.bits == bits,
    {
        Seconds { bits }
    }

    pub fn to_bits(&self) -> (r: u64)
        ensures
            r == self.bits,
    {
        self.bits
    }

    pub fn is_sign_negative(&self) -> (r: bool)
        ensures
            r == self.sign_negative(),
    {
        self.bits >= SIGN_BIT
    }

    pub fn is_finite(&self) -> (r: bool)
        ensures
            r == self.finite(),
    {
        (self.bits / HIDDEN_BIT) % 2048 != EXPONENT_SPECIAL
    }

    pub fn is_below_zero(&self) -> (r: bool)
        ensures
            r == self.below_zero(),
    {
        self.bits > SIGN_BIT && (self.is_finite() || self.bits % HIDDEN_BIT == 0)
    }

    /// The span of whole seconds and nanoseconds nearest to the magnitude,
    /// where the whole seconds fit in 64 bits.
    pub fn to_nearest_span(&self) -> (r: Option<WaitSpan>)
        ensures
            r is Some <==> self.fits(),
            r matches Some(span) ==> span == self.nearest_span() && span.well_formed()
                && span.total_nanos() == self.nearest_nanos(),
    {
        let exponent: u64 = (self.bits / HIDDEN_BIT) % 2048;
        let fraction: u64 = self.bits % HIDDEN_BIT;
        if exponent >= EXPONENT_TOO_LARGE {
            return None;
        }
        let m: u64 = if exponent == 0 {
            fraction
        } else {
            HIDDEN_BIT + fraction
        };
        if exponent >= EXPONENT_INTEGRAL {
            let k: u32 = (exponent - EXPONENT_INTEGRAL) as u32;
            let weight: u128 = pow2_u128(k);
            proof {
                lemma2_to64();
                lemma_pow2_strictly_increases(k as nat, 12);
                assert(m * weight <= 0x1f_ffff_ffff_ffff * 0x800) by (nonlinear_arith)
                    requires
                        m <= 0x1f_ffff_ffff_ffff,
                        weight <= 0x800,
                ;
                lemma_whole_span(m as nat, weight as nat);
            }
            let secs: u64 = m * (weight as u64);
            Some(WaitSpan { secs, nanos: 0 })
        } else {
            let s: u32 = if exponent == 0 {
                1074
            } else {
                (EXPONENT_INTEGRAL - exponent) as u32
            };
            let n: u128 = (m as u128) * 1_000_000_000;
            if s >= 85 {
                proof {
                    lemma_tiny_rounds_to_zero(n as nat, s as nat);
                }
                Some(WaitSpan { secs: 0, nanos: 0 })
            } else {
                let d: u128 = pow2_u128(s);
                proof {
                    lemma_pow2_below_2_85(s as nat);
                    lemma_pow2_pos(s as nat);
                }
                let total: u128 = round_half_even_u128(n, d);
                proof {
                    lemma_pow2_unfold(s as nat);
                    lemma_pow2_pos((s - 1) as nat);
                    lemma_div_is_ordered_by_denominator(n as int, 2, d as int);
                    lemma_fundamental_div_mod(total as int, 1_000_000_000);
                }
                Some(
                    WaitSpan {
                        secs: (total / 1_000_000_000) as u64,
                        nanos: (total % 1_000_000_000) as u32,
                    },
                )
            }
        }
    }
}

impl Seconds {
    /// The whole seconds of the magnitude and the nanoseconds of its
    /// fractional part, where the whole seconds fit in 64 bits.
    pub fn to_truncated_span(&self) -> (r: Option<WaitSpan>)
        ensures
            r is Some <==> self.fits(),
            r matches Some(span) ==> span == self.truncated_span() && span.well_formed()
                && span.secs == self.whole_secs() && span.nanos == self.fraction_nanos(),
    {
        let exponent: u64 = (self.bits / HIDDEN_BIT) % 2048;
        let fraction: u64 = self.bits % HIDDEN_BIT;
        if exponent >= EXPONENT_TOO_LARGE {
            return None;
        }
        let m: u64 = if exponent == 0 {
            fraction
        } else {
            HIDDEN_BIT + fraction
        };
        if exponent >= EXPONENT_INTEGRAL {
            let k: u32 = (exponent - EXPONENT_INTEGRAL) as u32;
            let weight: u128 = pow2_u128(k);
            proof {
                lemma2_to64();
                lemma_pow2_strictly_increases(k as nat, 12);
                assert(m * weight <= 0x1f_ffff_ffff_ffff * 0x800) by (nonlinear_arith)
                    requires
                        m <= 0x1f_ffff_ffff_ffff,
                        weight <= 0x800,
                ;
            }
            let secs: u64 = m * (weight as u64);
            Some(WaitSpan { secs, nanos: 0 })
        } else {
            let s: u32 = if exponent == 0 {
                1074
            } else {
                (EXPONENT_INTEGRAL - exponent) as u32
            };
            let secs: u64;
            let f: u64;
            if s >= 53 {
                proof {
                    lemma_pow2_at_least_2_53(s as nat);
                    lemma_small_mod(m as nat, pow2(s as nat));
                    lemma_basic_div(m as int, pow2(s as nat) as int);
                }
                secs = 0;
                f = m;
            } else {
                let ds: u128 = pow2_u128(s);
                proof {
                    lemma_pow2_pos(s as nat);
                    lemma2_to64_rest();
                    lemma_pow2_strictly_increases(s as nat, 53);
                }
                secs = m / (ds as u64);
                f = m % (ds as u64);
            }
            let n: u128 = (f as u128) * 1_000_000_000;
            proof {
                lemma_pow2_pos(s as nat);
                lemma_mod_bound(m as int, pow2(s as nat) as int);
                lemma_scaled_fraction_bound(f as nat, s as nat);
            }
            let rounded: u128 = quotient_rounded(n, s);
            let nanos: u32 = if rounded > 999_999_999 {
                999_999_999
            } else {
                rounded as u32
            };
            Some(WaitSpan { secs, nanos })
        }
    }
}

/// `n / 2^s` rounded as binary64 arithmetic rounds it, and then to the
/// nearest integer with a tie going up.
fn quotient_rounded(n: u128, s: u32) -> (r: u128)
    requires
        n < 0x8_0000_0000_0000_0000_0000,
        1 <= s <= 1074,
        n < pow2(s as nat + 30),
    ensures
        r == binary64_quotient_rounded(n as nat, s as nat),
{
    let excess: u32 = excess_bits(n);
    proof {
        lemma2_to64_rest();
        if s >= 23 {
            lemma_excess_at_most(n as nat, (s - 23) as nat);
        } else {
            lemma_pow2_strictly_increases(s as nat + 30, 53);
        }
        lemma_excess_range(n as nat);
        lemma_pow2_pos(excess as nat);
        lemma_pow2_below_2_85(excess as nat);
    }
    let kept: u128 = round_half_even_u128(n, pow2_u128(excess));
    let t: u32 = s - excess;
    proof {
        lemma_kept_bound(n as nat, excess as nat);
    }
    if t >= 56 {
        proof {
            lemma_small_rounds_to_zero(kept as nat, t as nat);
        }
        0
    } else {
        proof {
            lemma_pow2_pos(t as nat);
            lemma_pow2_below_2_85(t as nat);
        }
        round_half_up_u128(kept, pow2_u128(t))
    }
}

/// How many low bits of `n` a significand of 53 bits cannot hold.
fn excess_bits(n: u128) -> (d: u32)
    requires
        n < 0x8_0000_0000_0000_0000_0000,
    ensures
        d == binary64_excess(n as nat),
        d <= 30,
{
    proof {
        lemma2_to64();
        lemma2_to64_rest();
        lemma_pow2_adds(53, 30);
        lemma_excess_at_most(n as nat, 30);
    }
    let mut x: u128 = n;
    let mut d: u32 = 0;
    while x >= 0x20_0000_0000_0000
        invariant
            binary64_excess(n as nat) == d + binary64_excess(x as nat),
            binary64_excess(n as nat) <= 30,
        decreases x,
    {
        x = x / 2;
        d = d + 1;
    }
    d
}

fn round_half_even_u128(n: u128, d: u128) -> (r: u128)
    requires
        0 < d < 0x20_0000_0000_0000_0000_0000,
        n < 0x8_0000_0000_0000_0000_0000,
    ensures
        r == round_half_even(n as nat, d as nat),
{
    let q: u128 = n / d;
    let r: u128 = n % d;
    if 2 * r > d || (2 * r == d && q % 2 == 1) {
        q + 1
    } else {
        q
    }
}

fn round_half_up_u128(n: u128, d: u128) -> (r: u128)
    requires
        0 < d < 0x20_0000_0000_0000_0000_0000,
        n < 0x8_0000_0000_0000_0000_0000,
    ensures
        r == round_half_up(n as nat, d as nat),
{
    let q: u128 = n / d;
    let r: u128 = n % d;
    if 2 * r >= d {
        q + 1
    } else {
        q
    }
}

/// Two to the power `k`.
fn pow2_u128(k: u32) -> (r: u128)
    requires
        k < 100,
    ensures
        r == pow2(k as nat),
{
    let mut r: u128 = 1;
    let mut i: u32 = 0;
    proof {
        lemma2_to64();
    }
    while i < k
        invariant
            i <= k,
            k < 100,
            r == pow2(i as nat),
        decreases k - i,
    {
        proof {
            lemma_pow2_unfold((i + 1) as nat);
            lemma_pow2_below_2_100(i as nat);
        }
        r = r * 2;
        i = i + 1;
    }
    r
}

proof fn lemma_pow2_below_2_100(k: nat)
    requires
        k < 100,
    ensures
        pow2(k) < 0x10_0000_0000_0000_0000_0000_0000,
{
    lemma2_to64();
    lemma2_to64_rest();
    lemma_pow2_adds(50, 50);
    lemma_pow2_strictly_increases(k, 100);
}

proof fn lemma_pow2_below_2_85(k: nat)
    requires
        k < 85,
    ensures
        pow2(k) < 0x20_0000_0000_0000_0000_0000,
{
    lemma2_to64();
    lemma2_to64_rest();
    lemma_pow2_adds(64, 21);
    lemma_pow2_strictly_increases(k, 85);
}

proof fn lemma_pow2_at_least_2_53(s: nat)
    requires
        s >= 53,
    ensures
        pow2(s) >= 0x20_0000_0000_0000,
{
    lemma2_to64_rest();
    if s > 53 {
        lemma_pow2_strictly_increases(53, s);
    }
}

/// A fraction below `2^s` and below two to the power 53, times ten to the
/// power 9, stays below `2^(s + 30)` and below two to the power 83.
proof fn lemma_scaled_fraction_bound(f: nat, s: nat)
    requires
        f < pow2(s),
        f < 0x20_0000_0000_0000,
    ensures
        f * 1_000_000_000 < pow2(s + 30),
        f * 1_000_000_000 < 0x8_0000_0000_0000_0000_0000,
{
    lemma2_to64();
    lemma_pow2_adds(s, 30);
    let p = pow2(s);
    assert(f * 1_000_000_000 < p * 0x4000_0000) by (nonlinear_arith)
        requires
            f < p,
    ;
    assert(f * 1_000_000_000 < 0x20_0000_0000_0000 * 0x4000_0000) by (nonlinear_arith)
        requires
            f < 0x20_0000_0000_0000,
    ;
}

/// A number below `2^(53 + j)` has at most `j` bits in excess.
proof fn lemma_excess_at_most(n: nat, j: nat)
    requires
        n < pow2(53 + j),
    ensures
        binary64_excess(n) <= j,
    decreases j,
{
    lemma2_to64_rest();
    if n >= 0x20_0000_0000_0000 {
        if j == 0 {
            assert(pow2(53 + j) == pow2(53));
        } else {
            lemma_pow2_unfold(53 + j);
            assert((53 + j - 1) as nat == 53 + (j - 1) as nat);
            lemma_excess_at_most(n / 2, (j - 1) as nat);
        }
    }
}

/// A number stays below two to the power 53 plus its excess.
proof fn lemma_excess_range(n: nat)
    ensures
        n < pow2(53 + binary64_excess(n)),
    decreases n,
{
    lemma2_to64_rest();
    if n >= 0x20_0000_0000_0000 {
        lemma_excess_range(n / 2);
        let e = binary64_excess(n / 2);
        lemma_pow2_unfold(53 + e + 1);
        assert((53 + e + 1 - 1) as nat == 53 + e);
        assert(53 + binary64_excess(n) == 53 + e + 1);
    } else {
        assert(pow2(53 + binary64_excess(n)) == pow2(53));
    }
}

/// What is kept of a number below `2^(53 + e)` after `e` bits are rounded
/// off is at most two to the power 53.
proof fn lemma_kept_bound(n: nat, e: nat)
    requires
        n < pow2(53 + e),
    ensures
        round_half_even(n, pow2(e)) <= 0x20_0000_0000_0000,
{
    lemma2_to64_rest();
    lemma_pow2_adds(53, e);
    lemma_pow2_pos(e);
    let d = pow2(e);
    lemma_fundamental_div_mod(n as int, d as int);
    lemma_mod_bound(n as int, d as int);
    let q = n / d;
    assert(q < 0x20_0000_0000_0000) by (nonlinear_arith)
        requires
            d * q <= n,
            n < 0x20_0000_0000_0000 * d,
            d > 0,
    ;
}

/// A number of at most two to the power 53 over a divisor of two to the
/// power 56 or more rounds to zero.
proof fn lemma_small_rounds_to_zero(n: nat, t: nat)
    requires
        n <= 0x20_0000_0000_0000,
        t >= 56,
    ensures
        round_half_up(n, pow2(t)) == 0,
{
    lemma2_to64_rest();
    if t > 56 {
        lemma_pow2_strictly_increases(56, t);
    }
    lemma_small_mod(n, pow2(t));
    lemma_basic_div(n as int, pow2(t) as int);
}

/// A span of whole seconds holds those seconds and no nanoseconds.
proof fn lemma_whole_span(m: nat, weight: nat)
    requires
        m * weight <= u64::MAX,
    ensures
        WaitSpan::of_nanos(m * weight * 1_000_000_000) == (WaitSpan {
            secs: (m * weight) as u64,
            nanos: 0,
        }),
{
    let secs = m * weight;
    lemma_fundamental_div_mod_converse((secs * 1_000_000_000) as int, 1_000_000_000, secs as int, 0);
}

/// Below two to the power 83 nanoseconds' worth of numerator, a divisor of
/// two to the power 85 or more rounds to zero.
proof fn lemma_tiny_rounds_to_zero(n: nat, s: nat)
    requires
        n < 0x8_0000_0000_0000_0000_0000,
        s >= 85,
    ensures
        round_half_even(n, pow2(s)) == 0,
{
    lemma2_to64();
    lemma2_to64_rest();
    lemma_pow2_adds(64, 21);
    if s > 85 {
        lemma_pow2_strictly_increases(85, s);
    }
    lemma_small_mod(n, pow2(s));
    lemma_basic_div(n as int, pow2(s) as int);
}

} // verus!
