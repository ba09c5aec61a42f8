//! Double-precision numbers, held as the 64 bits of their IEEE 754 encoding.
//!
//! Every finite double is a whole number of units of 2^-1074, the least positive double. The
//! specifications count in those units, so that they speak of exact values throughout.

use vstd::prelude::*;
use vstd::arithmetic::div_mod::{
    lemma_basic_div, lemma_div_denominator, lemma_div_is_ordered, lemma_div_multiples_vanish,
    lemma_fundamental_div_mod, lemma_fundamental_div_mod_converse, lemma_mod_bound,
};
use vstd::arithmetic::power::{lemma_pow0, pow};
use vstd::arithmetic::power2::{
    lemma2_to64, lemma2_to64_rest, lemma_pow2_adds, lemma_pow2_pos, lemma_pow2_strictly_increases,
    pow2,
};

verus! {

/// 2^52: the fraction field holds the values below it.
pub const FRACTION_SIZE: u64 = 0x10_0000_0000_0000;

/// 2^63: the sign bit alone.
pub const SIGN_BIT: u64 = 0x8000_0000_0000_0000;

/// The exponent field of infinities and of values that are not numbers.
pub const TOP_EXPONENT: u64 = 2047;

/// One, counted in units of 2^-1074.
pub open spec fn one() -> nat {
    pow2(1074)
}

/// A double-precision number.
#[derive(Debug, Clone, Copy, PartialEq, Eq, Structural)]
pub struct Double {
    pub bits: u64,
}

impl Double {
    pub open spec fn negative(self) -> bool {
        self.bits >= SIGN_BIT
    }

    /// The 11 bits of the exponent field.
    pub open spec fn exponent(self) -> nat {
        ((self.bits / FRACTION_SIZE) % 2048) as nat
    }

    /// The 52 bits of the fraction field.
    pub open spec fn fraction(self) -> nat {
        (self.bits % FRACTION_SIZE) as nat
    }

    pub open spec fn is_nan(self) -> bool {
        self.exponent() == TOP_EXPONENT && self.fraction() != 0
    }

    pub open spec fn is_infinite(self) -> bool {
        self.exponent() == TOP_EXPONENT && self.fraction() == 0
    }

    pub open spec fn is_finite(self) -> bool {
        self.exponent() != TOP_EXPONENT
    }

    /// The fraction with the leading bit that normal numbers leave out.
    pub open spec fn significand(self) -> nat {
        if self.exponent() == 0 {
            self.fraction()
        } else {
            self.fraction() + FRACTION_SIZE as nat
        }
    }

    /// The absolute value of a finite double, in units of 2^-1074.
    pub open spec fn magnitude(self) -> nat {
        if self.exponent() == 0 {
            self.significand()
        } else {
            self.significand() * pow2((self.exponent() - 1) as nat)
        }
    }

    /// The value of a finite double, in units of 2^-1074.
    pub open spec fn units(self) -> int {
        if self.negative() {
            -(self.magnitude() as int)
        } else {
            self.magnitude() as int
        }
    }

    /// The integer between zero and a finite double that is nearest to it.
    pub open spec fn truncated(self) -> int {
        if self.negative() {
            -((self.magnitude() / one()) as int)
        } else {
            (self.magnitude() / one()) as int
        }
    }

    /// The integer nearest to the absolute value of a finite double, a half rounded up.
    pub open spec fn rounded_magnitude(self) -> nat {
        ((self.magnitude() + pow2(1073)) / one()) as nat
    }

    /// The value cut to an integer from `low` to `high`: zero where there is no number, the
    /// nearer end where the value lies outside.
    pub open spec fn cut(self, low: int, high: int) -> int {
        if self.is_nan() {
            0
        } else if self.is_infinite() {
            if self.negative() { low } else { high }
        } else if self.truncated() < low {
            low
        } else if self.truncated() > high {
            high
        } else {
            self.truncated()
        }
    }

    /// The value rounded to a whole percentage, from 0 to 100: zero where there is no number.
    pub open spec fn percent(self) -> int {
        if self.is_nan() || self.negative() {
            0
        } else if self.is_infinite() || self.rounded_magnitude() > 100 {
            100
        } else {
            self.rounded_magnitude() as int
        }
    }
}

/// 2 to the power of `k`.
fn power_of_two(k: u64) -> (p: u64)
    requires
        k < 64,
    ensures
        p == pow2(k as nat),
{
    proof {
        lemma2_to64();
    }
    let mut p: u64 = 1;
    let mut i: u64 = 0;
    while i < k
        invariant
            i <= k < 64,
            p == pow2(i as nat),
        decreases k - i,
    {
        proof {
            lemma_pow2_adds(i as nat, 1);
            lemma2_to64();
            lemma2_to64_rest();
            if i + 1 < 63 {
                lemma_pow2_strictly_increases((i + 1) as nat, 63);
            }
        }
        p = p * 2;
        i = i + 1;
    }
    p
}

/// A common power of two cancels in a division.
proof fn lemma_cancel_power(x: nat, k: nat, s: nat)
    ensures
        (x * pow2(s)) / pow2(k + s) == x / pow2(k),
        pow2(k) > 0,
{
    lemma_pow2_pos(k);
    lemma_pow2_pos(s);
    lemma_pow2_adds(s, k);
    lemma_div_denominator((x * pow2(s)) as int, pow2(s) as int, pow2(k) as int);
    lemma_div_multiples_vanish(x as int, pow2(s) as int);
    assert(x * pow2(s) == pow2(s) * x) by (nonlinear_arith);
}

impl Double {
    /// The integer part of the absolute value, or of that value and a half, as far as it fits.
    fn whole(self, half: bool) -> (r: Option<u64>)
        requires
            self.is_finite(),
        ensures
            ({
                let sum: nat = self.magnitude() + if half { pow2(1073) } else { 0 };
                match r {
                    Some(v) => v == sum / one(),
                    None => sum / one() > u64::MAX,
                }
            }),
    {
        let exponent: u64 = (self.bits / FRACTION_SIZE) % 2048;
        let fraction: u64 = self.bits % FRACTION_SIZE;
        let ghost sum: nat = self.magnitude() + if half { pow2(1073) } else { 0 };
        proof {
            lemma2_to64();
            lemma2_to64_rest();
            lemma_pow2_pos(1074);
            lemma_pow2_pos(1073);
            lemma_pow2_adds(1, 1073);
        }
        if exponent == 0 {
            proof {
                lemma_pow2_strictly_increases(52, 1073);
                lemma_basic_div(sum as int, one() as int);
            }
            return Some(0);
        }
        let significand: u64 = fraction + FRACTION_SIZE;
        let ghost scale: nat = (exponent - 1) as nat;
        if exponent >= 1075 {
            let shift: u64 = exponent - 1075;
            proof {
                let whole: nat = (significand * pow2(shift as nat)) as nat;
                lemma_pow2_adds(shift as nat, 1074);
                assert(significand * (pow2(shift as nat) * pow2(1074)) == (significand * pow2(
                    shift as nat,
                )) * pow2(1074)) by (nonlinear_arith);
                assert(self.magnitude() == whole * one());
                let rest: int = if half { pow2(1073) as int } else { 0 };
                lemma_fundamental_div_mod_converse(sum as int, one() as int, whole as int, rest);
                assert(sum / one() == whole);
            }
            if shift >= 12 {
                proof {
                    if shift > 12 {
                        lemma_pow2_strictly_increases(12, shift as nat);
                    }
                    assert(significand * pow2(shift as nat) >= 0x10_0000_0000_0000 * 0x1000)
                        by (nonlinear_arith)
                        requires
                            significand >= 0x10_0000_0000_0000,
                            pow2(shift as nat) >= 0x1000,
                    ;
                }
                return None;
            }
            let power: u64 = power_of_two(shift);
            proof {
                if shift < 11 {
                    lemma_pow2_strictly_increases(shift as nat, 11);
                }
                assert(significand * power <= 0x1f_ffff_ffff_ffff * 0x800) by (nonlinear_arith)
                    requires
                        significand <= 0x1f_ffff_ffff_ffff,
                        power <= 0x800,
                ;
            }
            return Some(significand * power);
        }
        let shift: u64 = 1075 - exponent;
        let ghost added: nat = if half { pow2((shift - 1) as nat) } else { 0 };
        proof {
            lemma_pow2_adds((shift - 1) as nat, scale);
            assert(sum == (significand + added) * pow2(scale)) by {
                assert((significand + added) * pow2(scale) == significand * pow2(scale) + added
                    * pow2(scale)) by (nonlinear_arith);
            }
            lemma_cancel_power((significand + added) as nat, shift as nat, scale);
            assert(sum / one() == (significand + added) / pow2(shift as nat) as int);
        }
        if shift >= 54 {
            proof {
                lemma_pow2_adds(1, (shift - 1) as nat);
                if shift > 54 {
                    lemma_pow2_strictly_increases(53, (shift - 1) as nat);
                }
                lemma_basic_div(significand + added, pow2(shift as nat) as int);
            }
            return Some(0);
        }
        let power: u64 = power_of_two(shift);
        if half {
            let added_half: u64 = power_of_two(shift - 1);
            proof {
                if shift < 53 {
                    lemma_pow2_strictly_increases(shift as nat, 53);
                    lemma_pow2_strictly_increases((shift - 1) as nat, 53);
                }
            }
            Some((significand + added_half) / power)
        } else {
            Some(significand / power)
        }
    }
}

impl Double {
    /// Cuts off the fraction and keeps the result within `i64`.
    pub fn to_i64(self) -> (r: i64)
        ensures
            r == self.cut(i64::MIN as int, i64::MAX as int),
    {
        let negative: bool = self.bits >= SIGN_BIT;
        if (self.bits / FRACTION_SIZE) % 2048 == TOP_EXPONENT {
            if self.bits % FRACTION_SIZE != 0 {
                return 0;
            }
            return if negative { i64::MIN } else { i64::MAX };
        }
        match self.whole(false) {
            Some(v) => if negative {
                if v >= SIGN_BIT { i64::MIN } else { -(v as i64) }
            } else {
                if v >= SIGN_BIT { i64::MAX } else { v as i64 }
            },
            None => if negative { i64::MIN } else { i64::MAX },
        }
    }

    /// Cuts off the fraction and keeps the result within `u64`.
    pub fn to_u64(self) -> (r: u64)
        ensures
            r == self.cut(0, u64::MAX as int),
    {
        let negative: bool = self.bits >= SIGN_BIT;
        if (self.bits / FRACTION_SIZE) % 2048 == TOP_EXPONENT {
            if self.bits % FRACTION_SIZE != 0 || negative {
                return 0;
            }
            return u64::MAX;
        }
        match self.whole(false) {
            Some(v) => if negative { 0 } else { v },
            None => if negative { 0 } else { u64::MAX },
        }
    }

    /// Rounds to a whole percentage and keeps the result from 0 to 100.
    pub fn to_percent(self) -> (r: i32)
        ensures
            r == self.percent(),
            0 <= r <= 100,
    {
        let negative: bool = self.bits >= SIGN_BIT;
        if (self.bits / FRACTION_SIZE) % 2048 == TOP_EXPONENT {
            if self.bits % FRACTION_SIZE != 0 || negative {
                return 0;
            }
            return 100;
        }
        if negative {
            return 0;
        }
        match self.whole(true) {
            Some(v) => if v > 100 { 100 } else { v as i32 },
            None => 100,
        }
    }
}

/// How far apart two integers are.
pub open spec fn distance(a: int, b: int) -> int {
    if a < b {
        b - a
    } else {
        a - b
    }
}

/// Of all finite doubles none is nearer in absolute value than `d` to `digits` with a point in
/// front of the last `places` of them.
pub open spec fn is_nearest_decimal(d: Double, digits: nat, places: nat) -> bool {
    &&& d.is_finite()
    &&& forall|c: Double| #[trigger]
        c.is_finite() ==> {
            let value = (digits * one()) as int;
            distance(d.magnitude() * pow(10, places), value) <= distance(
                c.magnitude() * pow(10, places),
                value,
            )
        }
}

/// `d` is what a decimal number of at most fifteen digits gives, with at most 22 of its places
/// behind the point.
pub open spec fn is_short_decimal(d: Double) -> bool {
    exists|digits: nat, places: nat|
        digits < 1_000_000_000_000_000 && places <= 22 && #[trigger] is_nearest_decimal(
            d,
            digits,
            places,
        )
}

/// A decimal number of at most fifteen digits with at most 22 places behind the point gives a
/// short decimal number, whatever its sign.
pub proof fn law_nearest_decimals_are_short(d: Double, digits: nat, places: nat)
    requires
        is_nearest_decimal(d, digits, places),
        digits < 1_000_000_000_000_000,
        places <= 22,
    ensures
        is_short_decimal(d),
{
}

/// The value of a double is what its three fields say: the fraction with a leading bit unless the
/// exponent field is zero, scaled by the exponent, and negative where the sign bit is set.
pub proof fn law_fields_give_the_value(negative: bool, exponent: nat, fraction: nat)
    requires
        exponent <= 2046,
        fraction < 0x10_0000_0000_0000,
    ensures
        ({
            let sign: int = if negative { 0x8000_0000_0000_0000 } else { 0 };
            let d = Double { bits: (sign + exponent * 0x10_0000_0000_0000 + fraction) as u64 };
            let value: int = if exponent == 0 {
                fraction as int
            } else {
                ((0x10_0000_0000_0000 + fraction) * pow2((exponent - 1) as nat)) as int
            };
            &&& d.is_finite()
            &&& d.units() == if negative { -value } else { value }
        }),
{
    let sign: int = if negative { 0x8000_0000_0000_0000 } else { 0 };
    let d = Double { bits: (sign + exponent * 0x10_0000_0000_0000 + fraction) as u64 };
    assert(d.exponent() == exponent);
    assert(d.fraction() == fraction);
}

/// Where a double is no number it is cut to zero, and an infinite one to the end on its side.
pub proof fn law_cut_without_a_value(d: Double, low: int, high: int)
    ensures
        d.is_nan() ==> d.cut(low, high) == 0,
        d.is_infinite() ==> d.cut(low, high) == if d.bits >= 0x8000_0000_0000_0000 {
            low
        } else {
            high
        },
{
}

/// A whole number of at most fifteen digits is a short decimal number.
pub proof fn law_whole_numbers_are_short(d: Double, n: nat)
    requires
        d.is_finite(),
        d.magnitude() == n * one(),
        n < 1_000_000_000_000_000,
    ensures
        is_short_decimal(d),
{
    lemma_pow0(10);
    assert(is_nearest_decimal(d, n, 0));
}

/// A greater value never gives a smaller percentage.
pub proof fn law_percent_keeps_order(a: Double, b: Double)
    requires
        a.is_finite(),
        b.is_finite(),
        a.units() <= b.units(),
    ensures
        a.percent() <= b.percent(),
{
    lemma_pow2_pos(1074);
    if !a.negative() && !b.negative() {
        lemma_div_is_ordered(
            (a.magnitude() + pow2(1073)) as int,
            (b.magnitude() + pow2(1073)) as int,
            one() as int,
        );
    }
    if !a.negative() && b.negative() {
        lemma2_to64();
        lemma_pow2_adds(1, 1073);
        lemma_pow2_pos(1073);
        lemma_basic_div((a.magnitude() + pow2(1073)) as int, one() as int);
    }
}

/// A value that is a whole number from 0 to 100 is its own percentage.
pub proof fn law_percent_keeps_whole_numbers(d: Double, n: int)
    requires
        d.is_finite(),
        d.units() == n * one(),
        0 <= n <= 100,
    ensures
        d.percent() == n,
{
    lemma_pow2_pos(1073);
    lemma_pow2_adds(1, 1073);
    lemma2_to64();
    if d.negative() {
        assert(n == 0) by (nonlinear_arith)
            requires
                n * one() <= 0,
                one() > 0,
                n >= 0,
        ;
    } else {
        lemma_fundamental_div_mod_converse(
            (d.magnitude() + pow2(1073)) as int,
            one() as int,
            n,
            pow2(1073) as int,
        );
    }
}

/// The percentage is at most a half away from any value that lies between 0 and 100.
pub proof fn law_percent_is_nearest(d: Double)
    requires
        d.is_finite(),
        0 <= d.units() <= 100 * one(),
    ensures
        2 * distance(d.percent() * one(), d.units()) <= one(),
{
    lemma_pow2_pos(1073);
    lemma_pow2_adds(1, 1073);
    lemma2_to64();
    if !d.negative() {
        let sum = (d.magnitude() + pow2(1073)) as int;
        lemma_fundamental_div_mod(sum, one() as int);
        lemma_mod_bound(sum, one() as int);
        let q = sum / one() as int;
        assert(q * one() == one() * q) by (nonlinear_arith);
        assert(q <= 100) by (nonlinear_arith)
            requires
                one() * q <= sum,
                sum < 101 * one(),
                one() > 0,
        ;
    } else {
        assert(d.percent() * one() == 0);
    }
}

/// A value from 0 up to 99.5 lies less than a half above its percentage and at most a half below
/// it; from 99.5 on the percentage is 100. What is negative or no number counts as nothing.
pub proof fn law_percent_rounds_halves_up(d: Double)
    ensures
        d.is_nan() ==> d.percent() == 0,
        d.is_infinite() ==> d.percent() == if d.bits >= 0x8000_0000_0000_0000 { 0int } else { 100 },
        d.is_finite() && d.units() < 0 ==> d.percent() == 0,
        d.is_finite() && 2 * d.units() >= 199 * one() ==> d.percent() == 100,
        d.is_finite() && 0 <= 2 * d.units() < 199 * one() ==> {
            &&& (2 * d.percent() - 1) * one() <= 2 * d.units()
            &&& 2 * d.units() < (2 * d.percent() + 1) * one()
        },
{
    lemma_pow2_pos(1073);
    lemma_pow2_adds(1, 1073);
    lemma2_to64();
    if d.is_finite() && d.units() >= 0 {
        if d.negative() {
            assert(d.units() == 0);
            let p = d.percent();
            assert((2 * p - 1) * one() == -one() && (2 * p + 1) * one() == one())
                by (nonlinear_arith)
                requires
                    p == 0,
            ;
        } else {
            let sum = (d.magnitude() + pow2(1073)) as int;
            let q = sum / one() as int;
            lemma_fundamental_div_mod(sum, one() as int);
            lemma_mod_bound(sum, one() as int);
            assert(one() * q <= sum < one() * q + one());
            assert((2 * q - 1) * one() == 2 * (one() * q) - one()) by (nonlinear_arith);
            assert((2 * q + 1) * one() == 2 * (one() * q) + one()) by (nonlinear_arith);
            if 2 * d.units() >= 199 * one() {
                assert(q >= 100) by (nonlinear_arith)
                    requires
                        sum >= 100 * one(),
                        sum < one() * q + one(),
                        one() > 0,
                ;
            } else {
                assert(q <= 99) by (nonlinear_arith)
                    requires
                        sum < 100 * one(),
                        one() * q <= sum,
                        one() > 0,
                ;
            }
        }
    }
}

/// Cutting goes towards zero by less than one, and stops at the bounds.
pub proof fn law_cut_drops_the_fraction(d: Double, low: int, high: int)
    requires
        d.is_finite(),
        low <= 0 <= high,
    ensures
        d.units() >= high * one() ==> d.cut(low, high) == high,
        d.units() <= low * one() ==> d.cut(low, high) == low,
        low * one() < d.units() < high * one() ==> {
            let cut = d.cut(low, high) * one();
            &&& distance(cut, d.units()) < one()
            &&& d.units() >= 0 ==> 0 <= cut <= d.units()
            &&& d.units() <= 0 ==> d.units() <= cut <= 0
        },
{
    lemma_pow2_pos(1074);
    let m = d.magnitude() as int;
    let q = m / one() as int;
    lemma_fundamental_div_mod(m, one() as int);
    lemma_mod_bound(m, one() as int);
    assert(one() * q <= m < one() * q + one());
    assert(q >= 0) by (nonlinear_arith)
        requires
            m < one() * q + one(),
            m >= 0,
            one() > 0,
    ;
    assert(q * one() == one() * q) by (nonlinear_arith);
    assert((-q) * one() == -(one() * q)) by (nonlinear_arith);
    assert(high * one() >= 0 && low * one() <= 0) by (nonlinear_arith)
        requires
            low <= 0 <= high,
            one() > 0,
    ;
    if d.negative() {
        if d.units() <= low * one() {
            assert(q >= -low) by (nonlinear_arith)
                requires
                    m >= -(low * one()),
                    m < one() * q + one(),
                    one() > 0,
            ;
        } else {
            assert(q <= -low) by (nonlinear_arith)
                requires
                    m < -(low * one()),
                    one() * q <= m,
                    one() > 0,
            ;
        }
        if d.units() >= high * one() {
            assert(m == 0);
            assert(high == 0) by (nonlinear_arith)
                requires
                    high * one() <= 0,
                    high >= 0,
                    one() > 0,
            ;
        }
    } else {
        if d.units() >= high * one() {
            assert(q >= high) by (nonlinear_arith)
                requires
                    m >= high * one(),
                    m < one() * q + one(),
                    one() > 0,
            ;
        } else {
            assert(q <= high) by (nonlinear_arith)
                requires
                    m < high * one(),
                    one() * q <= m,
                    one() > 0,
            ;
        }
        if d.units() <= low * one() {
            assert(m == 0);
            assert(low == 0) by (nonlinear_arith)
                requires
                    low * one() >= 0,
                    low <= 0,
                    one() > 0,
            ;
        }
    }
}

/// A value that is an integer within the bounds is cut to itself.
pub proof fn law_cut_keeps_integers(d: Double, n: int, low: int, high: int)
    requires
        d.is_finite(),
        d.units() == n * one(),
        low <= n <= high,
    ensures
        d.cut(low, high) == n,
{
    lemma_pow2_pos(1074);
    if d.negative() {
        assert(d.magnitude() == (-n) * one()) by (nonlinear_arith)
            requires
                -(d.magnitude() as int) == n * one(),
        ;
        lemma_fundamental_div_mod_converse(d.magnitude() as int, one() as int, -n, 0);
    } else {
        lemma_fundamental_div_mod_converse(d.magnitude() as int, one() as int, n, 0);
    }
}

}
