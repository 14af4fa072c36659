//! IEEE 754 single precision values, read from their bit patterns.
use vstd::arithmetic::div_mod::{lemma_div_is_ordered, lemma_fundamental_div_mod};
use vstd::arithmetic::mul::{lemma_mul_inequality, lemma_mul_strict_inequality};
use vstd::arithmetic::power::lemma_pow0;
use vstd::arithmetic::power2::{
    lemma_pow2, lemma_pow2_pos, lemma_pow2_strictly_increases, lemma_pow2_unfold, pow2,
};
use vstd::prelude::*;

verus! {

/// The sign bit.
pub const SIGN_BIT: u32 = 0x8000_0000;

/// The magnitude field of positive infinity: all exponent bits set, no fraction.
pub const INFINITY_MAGNITUDE: u32 = 0x7f80_0000;

/// One unit of the biased exponent in the magnitude field: the fraction has 23 bits.
pub const EXPONENT_UNIT: u32 = 0x80_0000;

/// Whether the sign bit is set.
pub open spec fn is_negative(b: u32) -> bool {
    b >= SIGN_BIT
}

/// Exponent and fraction fields together: the bits without the sign.
pub open spec fn magnitude(b: u32) -> nat {
    (b % SIGN_BIT) as nat
}

/// Neither an infinity nor a NaN.
pub open spec fn is_finite(b: u32) -> bool {
    magnitude(b) < INFINITY_MAGNITUDE
}

/// The exact value of a finite magnitude field, counted in units of the smallest
/// subnormal, 2^-149. With biased exponent `e` and fraction `f`, a subnormal
/// (`e == 0`) is `f` units and a normal value is `(2^23 + f) * 2^(e - 1)` units.
pub open spec fn magnitude_value(m: nat) -> nat {
    let e = m / (EXPONENT_UNIT as nat);
    let f = m % (EXPONENT_UNIT as nat);
    if e == 0 {
        f
    } else {
        ((EXPONENT_UNIT + f) * pow2((e - 1) as nat)) as nat
    }
}

/// The exact value of a finite bit pattern, in units of 2^-149. Both zeros are 0.
pub open spec fn value(b: u32) -> int {
    if is_negative(b) {
        -magnitude_value(magnitude(b))
    } else {
        magnitude_value(magnitude(b)) as int
    }
}

/// An integer that orders bit patterns as their values are ordered: the magnitude
/// field, negated under the sign bit.
pub open spec fn order_key(b: u32) -> int {
    if is_negative(b) {
        -magnitude(b)
    } else {
        magnitude(b) as int
    }
}

/// A finite magnitude field with exponent `e` is worth less than `2^23 * 2^e`
/// units, and, when `e > 0`, at least `2^23 * 2^(e - 1)`.
proof fn lemma_below_next_binade(m: nat)
    requires
        m < INFINITY_MAGNITUDE,
    ensures
        magnitude_value(m) < EXPONENT_UNIT * pow2(m / (EXPONENT_UNIT as nat)),
        m / (EXPONENT_UNIT as nat) > 0 ==> magnitude_value(m) >= EXPONENT_UNIT * pow2(
            (m / (EXPONENT_UNIT as nat) - 1) as nat,
        ),
{
    let e = m / (EXPONENT_UNIT as nat);
    let f = m % (EXPONENT_UNIT as nat);
    if e == 0 {
        lemma_pow2(0);
        lemma_pow0(2);
    } else {
        let p = pow2((e - 1) as nat) as int;
        lemma_pow2_pos((e - 1) as nat);
        lemma_pow2_unfold(e);
        lemma_mul_strict_inequality(EXPONENT_UNIT + f, 2 * EXPONENT_UNIT, p);
        assert((2 * EXPONENT_UNIT) * p == EXPONENT_UNIT * (2 * p)) by (nonlinear_arith);
        lemma_mul_inequality(EXPONENT_UNIT as int, EXPONENT_UNIT + f, p);
    }
}

/// Larger finite magnitude fields are worth strictly more.
pub proof fn lemma_magnitude_value_increases(m1: nat, m2: nat)
    requires
        m1 < m2,
        m2 < INFINITY_MAGNITUDE,
    ensures
        magnitude_value(m1) < magnitude_value(m2),
{
    let u = EXPONENT_UNIT as nat;
    let e1 = m1 / u;
    let e2 = m2 / u;
    lemma_div_is_ordered(m1 as int, m2 as int, u as int);
    lemma_below_next_binade(m1);
    lemma_below_next_binade(m2);
    if e1 == e2 {
        if e1 > 0 {
            lemma_pow2_pos((e1 - 1) as nat);
            lemma_fundamental_div_mod(m1 as int, u as int);
            lemma_fundamental_div_mod(m2 as int, u as int);
            lemma_mul_strict_inequality(
                EXPONENT_UNIT + m1 % u,
                EXPONENT_UNIT + m2 % u,
                pow2((e1 - 1) as nat) as int,
            );
        } else {
            lemma_fundamental_div_mod(m1 as int, u as int);
            lemma_fundamental_div_mod(m2 as int, u as int);
        }
    } else {
        if e1 < (e2 - 1) as nat {
            lemma_pow2_strictly_increases(e1, (e2 - 1) as nat);
            lemma_mul_strict_inequality(
                pow2(e1) as int,
                pow2((e2 - 1) as nat) as int,
                EXPONENT_UNIT as int,
            );
        }
    }
}

/// On finite bit patterns the order key and the exact value are ordered alike,
/// and two patterns have equal keys exactly when their values are equal.
pub proof fn lemma_order_key_matches_value(a: u32, b: u32)
    requires
        is_finite(a),
        is_finite(b),
    ensures
        (order_key(a) < order_key(b)) == (value(a) < value(b)),
        (order_key(a) == order_key(b)) == (value(a) == value(b)),
{
    let ma = magnitude(a);
    let mb = magnitude(b);
    assert(magnitude_value(0) == 0);
    if 0 < ma {
        lemma_magnitude_value_increases(0, ma);
    }
    if 0 < mb {
        lemma_magnitude_value_increases(0, mb);
    }
    if ma < mb {
        lemma_magnitude_value_increases(ma, mb);
    }
    if mb < ma {
        lemma_magnitude_value_increases(mb, ma);
    }
}

/// Whether the bit pattern is a finite number.
pub fn is_finite_bits(b: u32) -> (r: bool)
    ensures
        r == is_finite(b),
{
    b % SIGN_BIT < INFINITY_MAGNITUDE
}

/// The order key of a bit pattern.
pub fn order_key_of(b: u32) -> (r: i64)
    ensures
        r == order_key(b),
{
    let m: u32 = b % SIGN_BIT;
    if b >= SIGN_BIT {
        -(m as i64)
    } else {
        m as i64
    }
}

} // verus!
