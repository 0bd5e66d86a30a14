//! IEEE 754 binary64 values, carried as raw bit patterns.
//!
//! Every parameter and every intermediate quantity a distribution reads is a
//! double-precision float. This module gives the library its own model of
//! such a value: the 64-bit pattern itself, together with specification
//! functions for the classifications and the ordering that the IEEE 754
//! standard defines on it. A pattern splits into a sign bit and a 63-bit
//! magnitude; patterns whose magnitude exceeds the exponent field are NaN,
//! and two non-NaN patterns compare exactly as their signed magnitudes do,
//! with the two zeros equal. Any comparison against a NaN is false.
//!
//! The comparison operations below are executable and verified against that
//! model, so a decision taken on `Fp` values agrees with the decision the
//! hosting sampler would have taken on the floats themselves.
//!
//! The model itself is grounded in the values the patterns denote, measured
//! in units of the smallest positive subnormal (`2^−1074`):
//! [`lemma_comparisons_order_values`] proves that the comparison predicates
//! order two non-NaN patterns exactly as their numeric values, and
//! [`lemma_halve_rounds_to_nearest_even`] proves that [`Fp::halve`] is
//! IEEE 754 division by two — half the value, rounded to nearest with ties
//! to even.

use vstd::prelude::*;

use vstd::arithmetic::div_mod::{
    lemma_div_is_ordered, lemma_fundamental_div_mod, lemma_fundamental_div_mod_converse,
};
use vstd::arithmetic::mul::{
    lemma_mul_inequality, lemma_mul_is_associative, lemma_mul_strict_inequality,
    lemma_mul_strictly_positive,
};
use vstd::arithmetic::power2::{
    lemma2_to64, lemma_pow2_adds, lemma_pow2_pos, lemma_pow2_strictly_increases, pow2,
};

verus! {

/// Mask of the sign bit of a binary64 pattern.
pub const SIGN_MASK: u64 = 0x8000_0000_0000_0000;

/// Magnitude of the two infinities: exponent field all ones, fraction zero.
/// A magnitude above this is a NaN; below it, a finite value.
pub const EXP_MASK: u64 = 0x7FF0_0000_0000_0000;

/// The pattern of `+0.0`.
pub const B_ZERO: u64 = 0;

/// The pattern of `0.5`.
pub const B_HALF: u64 = 0x3FE0_0000_0000_0000;

/// The pattern of `-0.5`.
pub const B_NEG_HALF: u64 = 0xBFE0_0000_0000_0000;

/// The pattern of `1.0`.
pub const B_ONE: u64 = 0x3FF0_0000_0000_0000;

/// The pattern of `-1.0`.
pub const B_NEG_ONE: u64 = 0xBFF0_0000_0000_0000;

/// The pattern of `2.0`.
pub const B_TWO: u64 = 0x4000_0000_0000_0000;

/// The pattern of `+infinity`.
pub const B_POS_INF: u64 = 0x7FF0_0000_0000_0000;

/// The pattern of `-infinity`.
pub const B_NEG_INF: u64 = 0xFFF0_0000_0000_0000;

/// Whether the sign bit of the pattern is set.
pub open spec fn sign_bit(b: u64) -> bool {
    b >= SIGN_MASK
}

/// The 63-bit magnitude of the pattern: the pattern with its sign bit cleared.
pub open spec fn magnitude(b: u64) -> u64 {
    if b >= SIGN_MASK {
        (b - SIGN_MASK) as u64
    } else {
        b
    }
}

/// A NaN: exponent field all ones and a non-zero fraction.
pub open spec fn is_nan_bits(b: u64) -> bool {
    magnitude(b) > EXP_MASK
}

/// One of the two infinities.
pub open spec fn is_infinite_bits(b: u64) -> bool {
    magnitude(b) == EXP_MASK
}

/// Neither a NaN nor an infinity.
pub open spec fn is_finite_bits(b: u64) -> bool {
    magnitude(b) < EXP_MASK
}

/// One of the two zeros.
pub open spec fn is_zero_bits(b: u64) -> bool {
    magnitude(b) == 0
}

/// The position of the pattern in the IEEE 754 order: its magnitude, negated
/// when the sign bit is set. Two non-NaN values compare as their keys do;
/// in particular the keys of `+0.0` and `-0.0` coincide.
pub open spec fn order_key(b: u64) -> int {
    if sign_bit(b) {
        -(magnitude(b) as int)
    } else {
        magnitude(b) as int
    }
}

/// IEEE 754 `a < b`: false on any NaN, otherwise the order of the keys.
pub open spec fn f_lt(a: u64, b: u64) -> bool {
    !is_nan_bits(a) && !is_nan_bits(b) && order_key(a) < order_key(b)
}

/// IEEE 754 `a <= b`: false on any NaN, otherwise the order of the keys.
pub open spec fn f_le(a: u64, b: u64) -> bool {
    !is_nan_bits(a) && !is_nan_bits(b) && order_key(a) <= order_key(b)
}

/// IEEE 754 `a > b`.
pub open spec fn f_gt(a: u64, b: u64) -> bool {
    f_lt(b, a)
}

/// IEEE 754 `a >= b`.
pub open spec fn f_ge(a: u64, b: u64) -> bool {
    f_le(b, a)
}

/// IEEE 754 equality: false on any NaN, and `+0.0 == -0.0`.
pub open spec fn f_eq(a: u64, b: u64) -> bool {
    !is_nan_bits(a) && !is_nan_bits(b) && order_key(a) == order_key(b)
}

/// The magnitude `2^53`: the smallest magnitude whose exponent field is at
/// least two, so that halving is a bare exponent decrement.
pub const TWO_POW_53: u64 = 0x0020_0000_0000_0000;

/// The magnitude `2^52`: the size of the fraction field, and the step
/// between consecutive exponents.
pub const TWO_POW_52: u64 = 0x0010_0000_0000_0000;

/// The magnitude of a binary64 value divided by two, under round to
/// nearest, ties to even.
///
/// A NaN or infinite magnitude is left unchanged. A magnitude of `2^53` or
/// more halves exactly, by decrementing the exponent field. Below that the
/// magnitude is the value in units of the smallest subnormal, so halving
/// shifts it down one bit and the shifted-out bit rounds to nearest, ties
/// to even.
pub open spec fn halved_magnitude(m: u64) -> u64 {
    if m >= EXP_MASK {
        m
    } else if m >= TWO_POW_53 {
        (m - TWO_POW_52) as u64
    } else if m % 2 == 1 && (m / 2) % 2 == 1 {
        (m / 2 + 1) as u64
    } else {
        m / 2
    }
}

/// The pattern of a binary64 value divided by two: the sign is kept and the
/// magnitude is [`halved_magnitude`].
pub open spec fn halved(b: u64) -> u64 {
    if b >= SIGN_MASK {
        (SIGN_MASK + halved_magnitude((b - SIGN_MASK) as u64)) as u64
    } else {
        halved_magnitude(b)
    }
}

/// The numeric value a magnitude denotes, in units of the smallest
/// positive subnormal, `2^−1074`: a subnormal magnitude is already that
/// count, and a normal one restores the implicit leading significand bit
/// and scales by its exponent. The infinite magnitude is given the next
/// value past every finite one, so the ordering statements below cover
/// infinities too; a NaN magnitude denotes nothing.
pub open spec fn magnitude_units(m: u64) -> int {
    let e = m / TWO_POW_52;
    if e == 0 {
        m as int
    } else {
        (TWO_POW_52 + m % TWO_POW_52) * (pow2((e - 1) as nat) as int)
    }
}

/// The signed numeric value a non-NaN pattern denotes, in units of
/// `2^−1074` (the two zero patterns both denote zero).
pub open spec fn value_units(b: u64) -> int {
    if sign_bit(b) {
        -magnitude_units(magnitude(b))
    } else {
        magnitude_units(magnitude(b))
    }
}

/// Half of a non-negative value, rounded to nearest with ties to even.
pub open spec fn rne_half_nonneg(v: int) -> int {
    if v % 2 == 0 {
        v / 2
    } else if (v / 2) % 2 == 0 {
        v / 2
    } else {
        v / 2 + 1
    }
}

/// Half of a value, rounded to nearest with ties to even — symmetric
/// about zero, as IEEE 754 rounding is.
pub open spec fn rne_half(v: int) -> int {
    if v >= 0 {
        rne_half_nonneg(v)
    } else {
        -rne_half_nonneg(-v)
    }
}

/// The pattern with its sign bit flipped: exact IEEE 754 negation.
pub open spec fn negated(b: u64) -> u64 {
    if b >= SIGN_MASK {
        (b - SIGN_MASK) as u64
    } else {
        (b + SIGN_MASK) as u64
    }
}

/// An IEEE 754 binary64 value, held as its raw bit pattern.
///
/// The embedding sampler converts with `f64::to_bits` / `f64::from_bits`,
/// which are exact in both directions.
#[derive(Clone, Copy, Debug, PartialEq, Eq, Structural)]
pub struct Fp {
    /// The raw binary64 bit pattern.
    pub bits: u64,
}

impl Fp {
    /// Wrap a raw binary64 bit pattern.
    pub fn new(bits: u64) -> (r: Fp)
        ensures
            r.bits == bits,
    {
        Fp { bits }
    }

    /// The magnitude of the value: its pattern with the sign bit cleared.
    pub fn mag(self) -> (r: u64)
        ensures
            r == magnitude(self.bits),
    {
        if self.bits >= SIGN_MASK {
            self.bits - SIGN_MASK
        } else {
            self.bits
        }
    }

    /// Whether the value is a NaN.
    pub fn is_nan(self) -> (r: bool)
        ensures
            r == is_nan_bits(self.bits),
    {
        self.mag() > EXP_MASK
    }

    /// IEEE 754 `self < other`.
    pub fn lt(self, other: Fp) -> (r: bool)
        ensures
            r == f_lt(self.bits, other.bits),
    {
        let ma = self.mag();
        let mb = other.mag();
        if ma > EXP_MASK || mb > EXP_MASK {
            false
        } else if self.bits >= SIGN_MASK {
            if other.bits >= SIGN_MASK {
                ma > mb
            } else {
                ma != 0 || mb != 0
            }
        } else {
            if other.bits >= SIGN_MASK {
                false
            } else {
                ma < mb
            }
        }
    }

    /// IEEE 754 `self <= other`.
    pub fn le(self, other: Fp) -> (r: bool)
        ensures
            r == f_le(self.bits, other.bits),
    {
        !self.is_nan() && !other.is_nan() && !other.lt(self)
    }

    /// IEEE 754 `self > other`.
    pub fn gt(self, other: Fp) -> (r: bool)
        ensures
            r == f_gt(self.bits, other.bits),
    {
        other.lt(self)
    }

    /// IEEE 754 `self >= other`.
    pub fn ge(self, other: Fp) -> (r: bool)
        ensures
            r == f_ge(self.bits, other.bits),
    {
        other.le(self)
    }

    /// IEEE 754 equality: false on NaN, and the two zeros are equal.
    pub fn ieee_eq(self, other: Fp) -> (r: bool)
        ensures
            r == f_eq(self.bits, other.bits),
    {
        !self.is_nan() && !other.is_nan() && !self.lt(other) && !other.lt(self)
    }

    /// Exact negation: the same value with the sign bit flipped.
    pub fn neg(self) -> (r: Fp)
        ensures
            r.bits == negated(self.bits),
            magnitude(r.bits) == magnitude(self.bits),
            sign_bit(r.bits) == !sign_bit(self.bits),
            order_key(r.bits) == -order_key(self.bits),
            is_nan_bits(r.bits) == is_nan_bits(self.bits),
    {
        if self.bits >= SIGN_MASK {
            Fp { bits: self.bits - SIGN_MASK }
        } else {
            Fp { bits: self.bits + SIGN_MASK }
        }
    }

    /// The value divided by two, exactly as IEEE 754 rounds it: an
    /// exponent decrement, with the shifted-out bit rounding to nearest,
    /// ties to even, where the result crosses into the subnormals. NaNs
    /// and infinities are returned unchanged.
    pub fn halve(self) -> (r: Fp)
        ensures
            r.bits == halved(self.bits),
            sign_bit(r.bits) == sign_bit(self.bits),
            is_nan_bits(r.bits) == is_nan_bits(self.bits),
    {
        let m = self.mag();
        let hm = if m >= EXP_MASK {
            m
        } else if m >= TWO_POW_53 {
            m - TWO_POW_52
        } else if m % 2 == 1 && (m / 2) % 2 == 1 {
            m / 2 + 1
        } else {
            m / 2
        };
        if self.bits >= SIGN_MASK {
            Fp { bits: SIGN_MASK + hm }
        } else {
            Fp { bits: hm }
        }
    }

    /// The absolute value: the same pattern with the sign bit cleared.
    pub fn abs(self) -> (r: Fp)
        ensures
            r.bits == magnitude(self.bits),
            order_key(r.bits) == magnitude(self.bits),
            is_nan_bits(r.bits) == is_nan_bits(self.bits),
    {
        Fp { bits: self.mag() }
    }
}

/// A larger non-NaN magnitude denotes a larger value: the binary64
/// encoding orders magnitudes exactly as the values they stand for.
proof fn lemma_magnitude_units_strictly_increases(m1: u64, m2: u64)
    requires
        m1 < m2,
        m2 <= EXP_MASK,
    ensures
        magnitude_units(m1) < magnitude_units(m2),
{
    let p52 = TWO_POW_52 as int;
    let e1 = m1 as int / p52;
    let f1 = m1 as int % p52;
    let e2 = m2 as int / p52;
    let f2 = m2 as int % p52;
    lemma_fundamental_div_mod(m1 as int, p52);
    lemma_fundamental_div_mod(m2 as int, p52);
    lemma_div_is_ordered(m1 as int, m2 as int, p52);
    if e1 == e2 {
        if e1 > 0 {
            lemma_pow2_pos((e1 - 1) as nat);
            lemma_mul_strict_inequality(p52 + f1, p52 + f2, pow2((e1 - 1) as nat) as int);
        }
    } else {
        // e1 < e2, so every value at exponent e1 sits below every value at
        // exponent e2: the largest magnitude at e1 denotes less than
        // 2^52·pow2(e1), the smallest at e2 denotes at least
        // 2^52·pow2(e2 − 1).
        if e1 > 0 {
            let q1 = pow2((e1 - 1) as nat) as int;
            lemma_pow2_pos((e1 - 1) as nat);
            lemma_mul_inequality(p52 + f1, 2 * p52 - 1, q1);
            lemma_mul_strict_inequality(2 * p52 - 1, 2 * p52, q1);
            lemma_pow2_adds(1, (e1 - 1) as nat);
            lemma2_to64();
            lemma_mul_is_associative(2, p52, q1);
            assert(magnitude_units(m1) < p52 * (pow2(e1 as nat) as int));
        } else {
            lemma2_to64();
            assert(magnitude_units(m1) < p52 * (pow2(e1 as nat) as int));
        }
        let q2 = pow2((e2 - 1) as nat) as int;
        lemma_pow2_pos((e2 - 1) as nat);
        lemma_mul_inequality(p52, p52 + f2, q2);
        if e1 < e2 - 1 {
            lemma_pow2_strictly_increases(e1 as nat, (e2 - 1) as nat);
        }
        assert(p52 * (pow2(e1 as nat) as int) <= p52 * q2);
    }
}

/// A positive magnitude denotes a positive value.
proof fn lemma_magnitude_units_positive(m: u64)
    requires
        0 < m <= EXP_MASK,
    ensures
        magnitude_units(m) > 0,
{
    lemma_magnitude_units_strictly_increases(0, m);
}

/// The comparisons order patterns exactly as the values they denote: for
/// two non-NaN patterns, `f_lt` holds exactly when the first value is the
/// smaller and `f_eq` exactly when the values coincide — the two zeros
/// denote the same value, and the infinite patterns stand beyond every
/// finite value. This is what entitles every decision in this crate to be
/// taken on order keys.
pub proof fn lemma_comparisons_order_values(a: u64, b: u64)
    requires
        !is_nan_bits(a),
        !is_nan_bits(b),
    ensures
        f_lt(a, b) <==> (value_units(a) < value_units(b)),
        f_eq(a, b) <==> (value_units(a) == value_units(b)),
{
    let ma = magnitude(a);
    let mb = magnitude(b);
    if ma < mb {
        lemma_magnitude_units_strictly_increases(ma, mb);
    } else if mb < ma {
        lemma_magnitude_units_strictly_increases(mb, ma);
    }
    if 0 < ma {
        lemma_magnitude_units_positive(ma);
    }
    if 0 < mb {
        lemma_magnitude_units_positive(mb);
    }
}

/// Halving a magnitude below `2^53` acts on the unit count directly.
proof fn lemma_small_magnitude_units(m: u64)
    requires
        m <= TWO_POW_52,
    ensures
        magnitude_units(m) == m as int,
{
    let p52 = TWO_POW_52 as int;
    lemma_fundamental_div_mod(m as int, p52);
    if m == TWO_POW_52 {
        lemma2_to64();
    }
}

/// Halving a magnitude halves the value it denotes, rounding to nearest
/// with ties to even where the low bit is shifted out.
proof fn lemma_halved_magnitude_units(m: u64)
    requires
        m < EXP_MASK,
    ensures
        magnitude_units(halved_magnitude(m)) == rne_half_nonneg(magnitude_units(m)),
{
    let p52 = TWO_POW_52 as int;
    let e = m as int / p52;
    let f = m as int % p52;
    lemma_fundamental_div_mod(m as int, p52);
    if m >= TWO_POW_53 {
        // The exponent is at least two: the value is even and halving is
        // exact, by decrementing the exponent field.
        lemma_div_is_ordered(2 * p52, m as int, p52);
        let hm = (m - TWO_POW_52) as u64;
        lemma_fundamental_div_mod_converse(hm as int, p52, e - 1, f);
        let q = pow2((e - 2) as nat) as int;
        lemma_pow2_pos((e - 2) as nat);
        lemma_pow2_adds(1, (e - 2) as nat);
        lemma2_to64();
        lemma_mul_is_associative(p52 + f, 2, q);
        lemma_mul_is_associative(2, p52 + f, q);
        lemma_mul_strictly_positive(p52 + f, q);
        assert(magnitude_units(m) == 2 * ((p52 + f) * q));
        assert(magnitude_units(hm) == (p52 + f) * q);
    } else {
        // At exponent one or zero the magnitude is the unit count itself,
        // before and after halving.
        if m >= TWO_POW_52 {
            lemma_fundamental_div_mod_converse(m as int, p52, 1, m as int - p52);
            lemma2_to64();
            assert(m / TWO_POW_52 == 1);
            assert(magnitude_units(m) == (p52 + (m as int - p52)) * 1);
        }
        assert(magnitude_units(m) == m as int);
        lemma_small_magnitude_units(halved_magnitude(m));
    }
}

/// Halving is IEEE 754 division by two: the value the halved pattern
/// denotes is half the value of the original, rounded to nearest with
/// ties to even. This grounds the Chi-Squared construction's `k/2`.
pub proof fn lemma_halve_rounds_to_nearest_even(b: u64)
    requires
        is_finite_bits(b),
    ensures
        value_units(halved(b)) == rne_half(value_units(b)),
{
    let m = magnitude(b);
    lemma_halved_magnitude_units(m);
    if m > 0 {
        lemma_magnitude_units_positive(m);
    }
}

} // verus!
