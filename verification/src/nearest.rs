//! The double nearest to an integer: there is exactly one.

use vstd::prelude::*;
use vstd::arithmetic::div_mod::{
    lemma_div_is_ordered, lemma_div_multiples_vanish, lemma_div_pos_is_pos,
};
use vstd::arithmetic::power2::{
    lemma2_to64, lemma2_to64_rest, lemma_pow2_adds, lemma_pow2_pos, lemma_pow2_strictly_increases,
    pow2,
};
use crate::double::{distance, one, Double, FRACTION_SIZE, SIGN_BIT};

verus! {

/// `d` is the finite double nearest to the integer `n`: of two that are equally near the one
/// whose last bit is clear, and positive zero for zero.
pub open spec fn is_nearest_double(d: Double, n: int) -> bool {
    &&& d.is_finite()
    &&& d.negative() == (n < 0)
    &&& forall|c: Double| #[trigger]
        c.is_finite() ==> {
            let of_d = distance(d.units(), n * one());
            let of_c = distance(c.units(), n * one());
            of_d < of_c || (of_d == of_c && (c.units() == d.units() || d.bits % 2 == 0))
        }
}

/// The bits of the double nearest to `n`.
pub open spec fn nearest_double(n: int) -> u64 {
    choose|bits: u64| is_nearest_double(Double { bits }, n)
}

/// No finite double is nearer to `n` than `d`.
spec fn is_closest(d: Double, n: int) -> bool {
    &&& d.is_finite()
    &&& forall|c: Double| #[trigger]
        c.is_finite() ==> distance(d.units(), n * one()) <= distance(c.units(), n * one())
}

/// The same among the doubles whose bits are below `k`.
spec fn is_closest_below(d: Double, n: int, k: int) -> bool {
    &&& d.is_finite()
    &&& d.bits < k
    &&& forall|c: Double| #[trigger]
        c.is_finite() && c.bits < k ==> distance(d.units(), n * one()) <= distance(
            c.units(),
            n * one(),
        )
}

/// Of two doubles of one sign the one with the greater bits has the greater absolute value.
proof fn lemma_magnitude_grows(a: Double, b: Double)
    requires
        a.negative() == b.negative(),
        a.bits < b.bits,
        b.is_finite(),
    ensures
        a.is_finite(),
        a.magnitude() < b.magnitude(),
{
    let ea = a.exponent();
    let eb = b.exponent();
    let size = FRACTION_SIZE as nat;
    assert(ea < eb || (ea == eb && a.fraction() < b.fraction()));
    if eb > 0 {
        let pb = pow2((eb - 1) as nat);
        lemma_pow2_pos((eb - 1) as nat);
        if ea == eb {
            assert(a.significand() * pb < b.significand() * pb) by (nonlinear_arith)
                requires
                    a.significand() < b.significand(),
                    pb > 0,
            ;
        } else {
            assert(size * pb <= b.significand() * pb) by (nonlinear_arith)
                requires
                    size <= b.significand(),
            ;
            if ea == 0 {
                assert(size <= size * pb) by (nonlinear_arith)
                    requires
                        pb > 0,
                ;
            } else {
                let pa = pow2((ea - 1) as nat);
                lemma_pow2_pos((ea - 1) as nat);
                lemma_pow2_adds(1, (ea - 1) as nat);
                lemma2_to64();
                if ea < eb - 1 {
                    lemma_pow2_strictly_increases(ea, (eb - 1) as nat);
                }
                assert(2 * pa <= pb);
                assert(a.significand() * pa < size * pb) by (nonlinear_arith)
                    requires
                        a.significand() < 2 * size,
                        2 * pa <= pb,
                        pa > 0,
                ;
            }
        }
    }
}

/// Two doubles of one sign that are equally near are neighbours, since what lies between them is
/// nearer.
proof fn lemma_ties_are_neighbours(a: Double, b: Double, n: int)
    requires
        is_closest(a, n),
        is_closest(b, n),
        a.negative() == b.negative(),
        a.bits < b.bits,
    ensures
        a.bits + 1 == b.bits,
{
    if a.bits + 1 < b.bits {
        let c = Double { bits: (a.bits + 1) as u64 };
        lemma_magnitude_grows(c, b);
        lemma_magnitude_grows(a, c);
        assert(c.is_finite());
    }
}

/// Some double is closest among those whose bits are below `k`.
proof fn lemma_closest_below(n: int, k: nat) -> (d: Double)
    requires
        0 < k <= u64::MAX + 1,
    ensures
        is_closest_below(d, n, k as int),
    decreases k,
{
    let last = Double { bits: (k - 1) as u64 };
    if k == 1 {
        assert(last.is_finite());
        last
    } else {
        let d = lemma_closest_below(n, (k - 1) as nat);
        if last.is_finite() && distance(last.units(), n * one()) < distance(d.units(), n * one()) {
            last
        } else {
            d
        }
    }
}

/// A double with the sign of `n` and the absolute value of `d` is no farther from `n`.
proof fn lemma_sign_of_closest(d: Double, n: int) -> (e: Double)
    requires
        is_closest(d, n),
    ensures
        is_closest(e, n),
        e.negative() == (n < 0),
        e.magnitude() == d.magnitude(),
        distance(e.units(), n * one()) == distance(d.units(), n * one()),
{
    if d.negative() == (n < 0) {
        d
    } else {
        let e = if d.negative() {
            Double { bits: (d.bits - SIGN_BIT) as u64 }
        } else {
            Double { bits: (d.bits + SIGN_BIT) as u64 }
        };
        assert(e.exponent() == d.exponent());
        assert(e.fraction() == d.fraction());
        lemma_pow2_pos(1074);
        if n < 0 {
            assert(n * one() < 0) by (nonlinear_arith)
                requires
                    n < 0,
                    one() > 0,
            ;
        } else {
            assert(n * one() >= 0) by (nonlinear_arith)
                requires
                    n >= 0,
                    one() > 0,
            ;
        }
        assert(e.is_finite());
        e
    }
}

/// Every integer has a nearest double.
proof fn lemma_nearest_exists(n: int) -> (d: Double)
    ensures
        is_nearest_double(d, n),
{
    let least = lemma_closest_below(n, (u64::MAX + 1) as nat);
    let d = lemma_sign_of_closest(least, n);
    if d.bits % 2 == 0 {
        assert(is_nearest_double(d, n));
        d
    } else if forall|c: Double| #[trigger]
        c.is_finite() && distance(c.units(), n * one()) == distance(d.units(), n * one())
            ==> c.units() == d.units() {
        assert(is_nearest_double(d, n));
        d
    } else {
        let c = choose|c: Double| #[trigger]
            c.is_finite() && distance(c.units(), n * one()) == distance(d.units(), n * one())
                && c.units() != d.units();
        let e = lemma_sign_of_closest(c, n);
        if e.magnitude() == d.magnitude() {
            // The tie was between a value and its negative: only zero is as near as that.
            let zero = Double { bits: 0 };
            assert(zero.is_finite());
            assert(zero.units() == 0);
            assert(c.units() == -d.units());
            lemma_pow2_pos(1074);
            assert(n * one() == 0);
            assert(false);
        }
        if e.bits < d.bits {
            lemma_ties_are_neighbours(e, d, n);
        } else if d.bits < e.bits {
            lemma_ties_are_neighbours(d, e, n);
        }
        assert(is_nearest_double(e, n));
        e
    }
}

/// Exactly one double is the nearest to an integer.
pub proof fn law_one_double_is_nearest(n: int)
    ensures
        is_nearest_double(Double { bits: nearest_double(n) }, n),
        forall|d: Double| #[trigger] is_nearest_double(d, n) ==> d.bits == nearest_double(n),
{
    let some = lemma_nearest_exists(n);
    assert(is_nearest_double(Double { bits: some.bits }, n));
    let d = Double { bits: nearest_double(n) };
    assert forall|c: Double| #[trigger] is_nearest_double(c, n) implies c.bits == d.bits by {
        assert(c.is_finite() && d.is_finite());
        if c.bits < d.bits {
            lemma_magnitude_grows(c, d);
            lemma_ties_are_neighbours(c, d, n);
        } else if d.bits < c.bits {
            lemma_magnitude_grows(d, c);
            lemma_ties_are_neighbours(d, c, n);
        }
    }
}

/// The place of the leading bit of a positive integer.
proof fn lemma_leading_bit(n: nat) -> (k: nat)
    requires
        n > 0,
    ensures
        pow2(k) <= n < pow2(k + 1),
    decreases n,
{
    lemma2_to64();
    if n == 1 {
        0
    } else {
        let k = lemma_leading_bit(n / 2);
        lemma_pow2_adds(1, k);
        lemma_pow2_adds(1, k + 1);
        k + 1
    }
}

/// A positive integer below 2^53 is the value of a double.
proof fn lemma_exact_double(n: nat) -> (d: Double)
    requires
        0 < n < 0x20_0000_0000_0000,
    ensures
        d.is_finite(),
        !d.negative(),
        d.magnitude() == n * one(),
{
    lemma2_to64();
    lemma2_to64_rest();
    let k = lemma_leading_bit(n);
    if k > 52 {
        if k > 53 {
            lemma_pow2_strictly_increases(53, k);
        }
        assert(false);
    }
    let shift = (52 - k) as nat;
    let p = pow2(shift);
    lemma_pow2_adds(k, shift);
    lemma_pow2_adds(k + 1, shift);
    let significand = n * p;
    assert(pow2(k) * p <= significand < pow2(k + 1) * p) by (nonlinear_arith)
        requires
            pow2(k) <= n < pow2(k + 1),
            significand == n * p,
            p > 0,
    ;
    let d = Double {
        bits: ((k + 1023) * FRACTION_SIZE + (significand - FRACTION_SIZE)) as u64,
    };
    assert(d.exponent() == k + 1023);
    assert(d.significand() == significand);
    lemma_pow2_adds(shift, k + 1022);
    assert((n * p) * pow2(k + 1022) == n * (p * pow2(k + 1022))) by (nonlinear_arith);
    d
}

/// An integer of less than 54 bits is its own nearest double.
pub proof fn law_small_integers_are_exact(d: Double, n: int)
    requires
        is_nearest_double(d, n),
        -0x20_0000_0000_0000 < n < 0x20_0000_0000_0000,
    ensures
        d.units() == n * one(),
{
    if n == 0 {
        let zero = Double { bits: 0 };
        assert(zero.is_finite());
        assert(zero.units() == 0);
    } else if n > 0 {
        let w = lemma_exact_double(n as nat);
        assert(w.is_finite());
    } else {
        let w = lemma_exact_double((-n) as nat);
        let m = Double { bits: (w.bits + SIGN_BIT) as u64 };
        assert(m.exponent() == w.exponent());
        assert(m.fraction() == w.fraction());
        assert(m.is_finite());
        assert(-((-n) * one()) == n * one()) by (nonlinear_arith);
    }
}

/// A double whose value is zero has no bit set but perhaps that of the sign.
pub proof fn lemma_zero_has_no_bits(d: Double)
    requires
        d.is_finite(),
    ensures
        d.units() == 0 <==> d.bits == 0 || d.bits == SIGN_BIT,
{
    assert((Double { bits: SIGN_BIT }).magnitude() == 0);
    assert((Double { bits: 0 }).magnitude() == 0);
    if d.negative() && d.bits > SIGN_BIT {
        lemma_magnitude_grows(Double { bits: SIGN_BIT }, d);
    }
    if !d.negative() && d.bits > 0 {
        lemma_magnitude_grows(Double { bits: 0 }, d);
    }
}

/// The double nearest to zero is the one whose bits are all clear.
pub proof fn lemma_nearest_to_zero(d: Double)
    requires
        is_nearest_double(d, 0),
    ensures
        d.bits == 0,
{
    law_small_integers_are_exact(d, 0);
    if d.bits > 0 {
        lemma_magnitude_grows(Double { bits: 0 }, d);
    }
}

/// The double nearest to a negative integer is cut to zero where nothing negative is wanted.
pub proof fn law_negative_integers_cut_to_zero(d: Double, n: int, high: int)
    requires
        is_nearest_double(d, n),
        n < 0,
        0 <= high,
    ensures
        d.cut(0, high) == 0,
{
    lemma_pow2_pos(1074);
    lemma_div_pos_is_pos(d.magnitude() as int, one() as int);
}

/// The double nearest to an integer beyond `i64` is cut to the greatest value in it.
pub proof fn law_great_integers_cut_to_the_end(d: Double, n: int)
    requires
        is_nearest_double(d, n),
        n > i64::MAX,
    ensures
        d.cut(i64::MIN as int, i64::MAX as int) == i64::MAX,
        d.magnitude() > 0,
{
    // 2^63 is the value of a double, so that the nearest one is no less.
    let end = Double { bits: (1086 * FRACTION_SIZE) as u64 };
    lemma2_to64();
    lemma2_to64_rest();
    assert(end.exponent() == 1086);
    assert(end.fraction() == 0);
    assert(end.is_finite());
    lemma_pow2_adds(52, 1085);
    lemma_pow2_adds(63, 1074);
    assert(end.units() == SIGN_BIT * one());
    lemma_pow2_pos(1074);
    assert(SIGN_BIT * one() <= n * one()) by (nonlinear_arith)
        requires
            SIGN_BIT <= n,
            one() > 0,
    ;
    assert(d.magnitude() >= SIGN_BIT * one());
    lemma_div_is_ordered(
        (SIGN_BIT * one()) as int,
        d.magnitude() as int,
        one() as int,
    );
    lemma_div_multiples_vanish(SIGN_BIT as int, one() as int);
    assert(SIGN_BIT * one() == one() * SIGN_BIT) by (nonlinear_arith);
}

}
