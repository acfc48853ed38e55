//! Binary64 scalars held by their encodings.
//!
//! A [`Scalar`] is the 64-bit IEEE 754 binary64 encoding of a number: a sign
//! bit, an 11-bit exponent field and a 52-bit fraction field. The meaning of an
//! encoding is given by [`Scalar::value`], an integer in units of the least
//! subnormal (2^-1074), so that every finite value is represented exactly and
//! the infinities sit beyond every finite value. Comparisons, absolute value,
//! negation and the finiteness tests are verified against that meaning.

use vstd::prelude::*;
use vstd::arithmetic::power2::{pow2, lemma_pow2_pos, lemma_pow2_adds, lemma_pow2_strictly_increases, lemma2_to64, lemma2_to64_rest};
use vstd::arithmetic::mul::lemma_mul_strict_inequality;
use vstd::std_specs::cmp::PartialEqSpecImpl;

verus! {

/// The sign bit.
pub const SIGN_BIT: u64 = 0x8000_0000_0000_0000;

/// Encoding of positive infinity: exponent field all ones, fraction zero.
pub const INFINITY_BITS: u64 = 0x7ff0_0000_0000_0000;

/// Weight of the lowest exponent bit, 2^52: the number of fraction encodings.
pub const FRACTION_SPAN: u64 = 0x0010_0000_0000_0000;

/// The exponent field of a magnitude encoding (sign bit cleared).
pub open spec fn exponent_field(m: nat) -> nat {
    m / (FRACTION_SPAN as nat)
}

/// The fraction field of a magnitude encoding (sign bit cleared).
pub open spec fn fraction_field(m: nat) -> nat {
    m % (FRACTION_SPAN as nat)
}

/// The value encoded by a magnitude `m` (sign bit cleared), in units of
/// 2^-1074. Subnormals (exponent field 0) are `fraction`; normals are
/// `(2^52 + fraction) * 2^(exponent - 1)`; every encoding from
/// [`INFINITY_BITS`] upward is given 2^2098, which exceeds every finite value.
pub open spec fn magnitude_value(m: nat) -> nat {
    if m >= INFINITY_BITS {
        pow2(2098)
    } else if exponent_field(m) == 0 {
        fraction_field(m)
    } else {
        (fraction_field(m) + pow2(52)) * pow2((exponent_field(m) - 1) as nat)
    }
}

/// The magnitude of a value as [`Scalar::value`] gives it.
pub open spec fn abs_value(x: int) -> int {
    if x < 0 {
        -x
    } else {
        x
    }
}

/// A binary64 number, held by its 64-bit encoding.
#[derive(Clone, Copy, Debug)]
pub struct Scalar {
    pub bits: u64,
}

impl Scalar {
    /// The sign bit is set (negative numbers, `-0`, `-inf`, some NaNs).
    pub open spec fn is_sign_negative(&self) -> bool {
        self.bits >= SIGN_BIT
    }

    /// The encoding with the sign bit cleared.
    pub open spec fn magnitude(&self) -> nat {
        if self.is_sign_negative() {
            (self.bits - SIGN_BIT) as nat
        } else {
            self.bits as nat
        }
    }

    /// Zero, subnormal or normal: neither infinite nor NaN.
    pub open spec fn is_finite_spec(&self) -> bool {
        self.magnitude() < INFINITY_BITS
    }

    /// Not a number.
    pub open spec fn is_nan_spec(&self) -> bool {
        self.magnitude() > INFINITY_BITS
    }

    /// The number this encoding stands for, in units of 2^-1074 (infinities
    /// at plus or minus 2^2098). Meaningless for NaN.
    pub open spec fn value(&self) -> int {
        if self.is_sign_negative() {
            -(magnitude_value(self.magnitude()) as int)
        } else {
            magnitude_value(self.magnitude()) as int
        }
    }

    /// IEEE `<`: false whenever either side is NaN.
    pub open spec fn lt_spec(&self, other: &Scalar) -> bool {
        !self.is_nan_spec() && !other.is_nan_spec() && self.value() < other.value()
    }

    /// IEEE `<=`: false whenever either side is NaN.
    pub open spec fn le_spec(&self, other: &Scalar) -> bool {
        !self.is_nan_spec() && !other.is_nan_spec() && self.value() <= other.value()
    }

    /// IEEE `==`: false whenever either side is NaN; `-0 == +0`.
    pub open spec fn eq_value_spec(&self, other: &Scalar) -> bool {
        !self.is_nan_spec() && !other.is_nan_spec() && self.value() == other.value()
    }

    /// The encoding with the sign bit cleared.
    pub open spec fn abs_spec(&self) -> Scalar {
        Scalar { bits: self.magnitude() as u64 }
    }

    /// The encoding with the sign bit flipped.
    pub open spec fn neg_spec(&self) -> Scalar {
        if self.is_sign_negative() {
            Scalar { bits: (self.bits - SIGN_BIT) as u64 }
        } else {
            Scalar { bits: (self.bits + SIGN_BIT) as u64 }
        }
    }

    /// Position in the IEEE order of non-NaN values: sign and magnitude.
    pub open spec fn order_key(&self) -> int {
        if self.is_sign_negative() {
            -(self.magnitude() as int)
        } else {
            self.magnitude() as int
        }
    }

    /// The scalar with the given encoding.
    pub fn from_bits(bits: u64) -> (r: Scalar)
        ensures
            r.bits == bits,
    {
        Scalar { bits }
    }

    /// The encoding of this scalar.
    pub fn to_bits(&self) -> (r: u64)
        ensures
            r == self.bits,
    {
        self.bits
    }

    /// Positive zero.
    pub fn zero() -> (r: Scalar)
        ensures
            r.bits == 0,
            r.is_finite_spec(),
            r.value() == 0,
    {
        proof {
            lemma_magnitude_value_zero(0);
        }
        Scalar { bits: 0 }
    }

    fn magnitude_bits(&self) -> (r: u64)
        ensures
            r == self.magnitude(),
    {
        if self.bits >= SIGN_BIT {
            self.bits - SIGN_BIT
        } else {
            self.bits
        }
    }

    /// Whether this scalar is neither infinite nor NaN.
    #[verifier::when_used_as_spec(is_finite_spec)]
    pub fn is_finite(&self) -> (r: bool)
        ensures
            r == self.is_finite_spec(),
    {
        self.magnitude_bits() < INFINITY_BITS
    }

    /// Whether this scalar is NaN.
    #[verifier::when_used_as_spec(is_nan_spec)]
    pub fn is_nan(&self) -> (r: bool)
        ensures
            r == self.is_nan_spec(),
    {
        self.magnitude_bits() > INFINITY_BITS
    }

    fn key(&self) -> (r: i64)
        ensures
            r == self.order_key(),
    {
        let m = self.magnitude_bits();
        let k = m as i64;
        if self.bits >= SIGN_BIT {
            -k
        } else {
            k
        }
    }

    /// IEEE `<`.
    #[verifier::when_used_as_spec(lt_spec)]
    pub fn lt(&self, other: &Scalar) -> (r: bool)
        ensures
            r == self.lt_spec(other),
    {
        if self.is_nan() || other.is_nan() {
            false
        } else {
            proof {
                lemma_value_order(*self, *other);
            }
            self.key() < other.key()
        }
    }

    /// IEEE `<=`.
    #[verifier::when_used_as_spec(le_spec)]
    pub fn le(&self, other: &Scalar) -> (r: bool)
        ensures
            r == self.le_spec(other),
    {
        if self.is_nan() || other.is_nan() {
            false
        } else {
            proof {
                lemma_value_order(*self, *other);
            }
            self.key() <= other.key()
        }
    }

    /// IEEE `==` on values.
    #[verifier::when_used_as_spec(eq_value_spec)]
    pub fn eq_value(&self, other: &Scalar) -> (r: bool)
        ensures
            r == self.eq_value_spec(other),
    {
        if self.is_nan() || other.is_nan() {
            false
        } else {
            proof {
                lemma_value_order(*self, *other);
            }
            self.key() == other.key()
        }
    }

    /// Absolute value: the sign bit cleared.
    #[verifier::when_used_as_spec(abs_spec)]
    pub fn abs(&self) -> (r: Scalar)
        ensures
            r == self.abs_spec(),
            r.is_finite_spec() == self.is_finite_spec(),
            r.is_nan_spec() == self.is_nan_spec(),
            !self.is_nan_spec() ==> r.value() == abs_value(self.value()),
    {
        Scalar { bits: self.magnitude_bits() }
    }

    /// Negation: the sign bit flipped.
    #[verifier::when_used_as_spec(neg_spec)]
    pub fn neg(&self) -> (r: Scalar)
        ensures
            r == self.neg_spec(),
            r.is_finite_spec() == self.is_finite_spec(),
            r.is_nan_spec() == self.is_nan_spec(),
            r.value() == -self.value(),
    {
        if self.bits >= SIGN_BIT {
            Scalar { bits: self.bits - SIGN_BIT }
        } else {
            Scalar { bits: self.bits + SIGN_BIT }
        }
    }
}

impl PartialEq for Scalar {
    /// IEEE equality of the encoded numbers: NaN equals nothing, `-0 == +0`.
    fn eq(&self, other: &Scalar) -> (r: bool) {
        self.eq_value(other)
    }
}

impl PartialEqSpecImpl for Scalar {
    open spec fn obeys_eq_spec() -> bool {
        true
    }

    open spec fn eq_spec(&self, other: &Scalar) -> bool {
        self.eq_value_spec(other)
    }
}

/// Bounds on the value of a finite magnitude in terms of its exponent field.
proof fn lemma_magnitude_value_bounds(m: nat)
    requires
        m < INFINITY_BITS,
    ensures
        exponent_field(m) <= 2046,
        magnitude_value(m) < pow2(52 + exponent_field(m)),
        exponent_field(m) >= 1 ==> pow2((51 + exponent_field(m)) as nat) <= magnitude_value(m),
{
    lemma2_to64();
    lemma2_to64_rest();
    let e = exponent_field(m);
    let f = fraction_field(m);
    assert(m == e * FRACTION_SPAN + f);
    assert(e <= 2046) by (nonlinear_arith)
        requires
            m == e * 0x0010_0000_0000_0000 + f,
            m < 0x7ff0_0000_0000_0000,
            f >= 0,
    ;
    if e == 0 {
        lemma_pow2_adds(52, 0);
        assert(pow2(0) == 1);
    } else {
        let q = pow2((e - 1) as nat);
        lemma_pow2_pos((e - 1) as nat);
        lemma_pow2_adds(52, (e - 1) as nat);
        lemma_pow2_adds(53, (e - 1) as nat);
        assert(pow2(53) == 2 * pow2(52));
        assert(f < pow2(52));
        assert((f + pow2(52)) * q < 2 * pow2(52) * q) by (nonlinear_arith)
            requires
                f < pow2(52),
                q > 0,
        ;
        assert(pow2(52) * q <= (f + pow2(52)) * q) by (nonlinear_arith)
            requires
                q > 0,
        ;
        assert((52 + (e - 1)) as nat == (51 + e) as nat);
        assert((53 + (e - 1)) as nat == (52 + e) as nat);
    }
}

/// The value of magnitude encodings grows strictly with the encoding, up to
/// and including infinity.
pub proof fn lemma_magnitude_value_strictly_increasing(m1: nat, m2: nat)
    requires
        m1 < m2 <= INFINITY_BITS,
    ensures
        magnitude_value(m1) < magnitude_value(m2),
{
    lemma2_to64();
    lemma2_to64_rest();
    lemma_magnitude_value_bounds(m1);
    let e1 = exponent_field(m1);
    let e2 = exponent_field(m2);
    if m2 == INFINITY_BITS {
        if 52 + e1 < 2098 {
            lemma_pow2_strictly_increases(52 + e1, 2098);
        }
    } else {
        lemma_magnitude_value_bounds(m2);
        assert(e1 <= e2) by (nonlinear_arith)
            requires
                m1 < m2,
                e1 == m1 / 0x0010_0000_0000_0000,
                e2 == m2 / 0x0010_0000_0000_0000,
        ;
        if e1 == e2 {
            let f1 = fraction_field(m1);
            let f2 = fraction_field(m2);
            assert(f1 < f2) by (nonlinear_arith)
                requires
                    m1 < m2,
                    e1 == e2,
                    m1 == e1 * 0x0010_0000_0000_0000 + f1,
                    m2 == e2 * 0x0010_0000_0000_0000 + f2,
            ;
            if e1 != 0 {
                let q = pow2((e1 - 1) as nat);
                lemma_pow2_pos((e1 - 1) as nat);
                lemma_mul_strict_inequality((f1 + pow2(52)) as int, (f2 + pow2(52)) as int, q as int);
            }
        } else {
            // e1 < e2, so e2 >= 1 and 52 + e1 <= 51 + e2
            if 52 + e1 < 51 + e2 {
                lemma_pow2_strictly_increases(52 + e1, (51 + e2) as nat);
            }
        }
    }
}

/// Zero magnitude has value zero; every other magnitude is positive.
proof fn lemma_magnitude_value_zero(m: nat)
    requires
        m <= INFINITY_BITS,
    ensures
        (magnitude_value(m) == 0) == (m == 0),
{
    assert(magnitude_value(0) == 0) by {
        assert(exponent_field(0) == 0);
        assert(fraction_field(0) == 0);
    }
    if m > 0 {
        lemma_magnitude_value_strictly_increasing(0, m);
    }
}

/// Positive zero is finite and has value zero.
pub proof fn lemma_zero_value()
    ensures
        (Scalar { bits: 0 }).is_finite_spec(),
        (Scalar { bits: 0 }).value() == 0,
{
    lemma_magnitude_value_zero(0);
}

/// Negation keeps finiteness and NaN-ness and negates the value; absolute
/// value keeps finiteness and gives the magnitude of the value.
pub proof fn lemma_neg_abs(x: Scalar)
    ensures
        x.neg_spec().is_finite_spec() == x.is_finite_spec(),
        x.neg_spec().is_nan_spec() == x.is_nan_spec(),
        x.neg_spec().value() == -x.value(),
        x.abs_spec().is_finite_spec() == x.is_finite_spec(),
        x.abs_spec().is_nan_spec() == x.is_nan_spec(),
        !x.is_nan_spec() ==> x.abs_spec().value() == abs_value(x.value()),
{
}

/// On non-NaN encodings the value order is the order of [`Scalar::order_key`].
pub proof fn lemma_value_order(a: Scalar, b: Scalar)
    requires
        !a.is_nan_spec(),
        !b.is_nan_spec(),
    ensures
        (a.value() < b.value()) == (a.order_key() < b.order_key()),
        (a.value() == b.value()) == (a.order_key() == b.order_key()),
{
    let ma = a.magnitude();
    let mb = b.magnitude();
    lemma_magnitude_value_zero(ma);
    lemma_magnitude_value_zero(mb);
    if ma < mb {
        lemma_magnitude_value_strictly_increasing(ma, mb);
    } else if mb < ma {
        lemma_magnitude_value_strictly_increasing(mb, ma);
    }
}

/// The comparisons form the IEEE order: `<` is irreflexive and transitive,
/// `<=` is `<` or `==`, any two non-NaN scalars are ordered one way or the
/// other, and NaN is unordered with everything.
pub proof fn lemma_comparison_laws(a: Scalar, b: Scalar, c: Scalar)
    ensures
        !a.lt_spec(&a),
        a.lt_spec(&b) ==> !b.lt_spec(&a),
        a.lt_spec(&b) && b.lt_spec(&c) ==> a.lt_spec(&c),
        a.le_spec(&b) <==> (a.lt_spec(&b) || a.eq_value_spec(&b)),
        !a.is_nan_spec() && !b.is_nan_spec() ==> (a.lt_spec(&b) || a.eq_value_spec(&b) || b.lt_spec(&a)),
        a.is_nan_spec() ==> !a.lt_spec(&b) && !b.lt_spec(&a) && !a.le_spec(&b) && !a.eq_value_spec(&a),
        a.eq_value_spec(&b) ==> b.eq_value_spec(&a),
{
}

} // verus!
