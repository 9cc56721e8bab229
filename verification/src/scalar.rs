//! IEEE 754 binary64 values carried by their bit pattern.
//!
//! The library never does arithmetic on measurements: it only orders and
//! classifies them. Both are functions of the 64-bit encoding alone, so a
//! value is held here as that encoding, and every predicate is stated and
//! proved over it.

use vstd::prelude::*;

verus! {

/// The sign bit of an encoding.
pub const SIGN_BIT: u64 = 0x8000_0000_0000_0000;

/// The encoding of positive infinity; every larger magnitude is a NaN.
pub const INFINITY_BITS: u64 = 0x7FF0_0000_0000_0000;

/// The encoding of `0.0`.
pub const ZERO_BITS: u64 = 0;

/// The encoding of `1.0`.
pub const ONE_BITS: u64 = 0x3FF0_0000_0000_0000;

/// A binary64 value, held as the 64 bits of its encoding.
#[derive(Clone, Copy, Debug)]
pub struct Scalar {
    pub bits: u64,
}

impl Scalar {
    /// The encoding with the sign bit cleared.
    pub open spec fn magnitude(self) -> u64 {
        if self.bits >= SIGN_BIT {
            (self.bits - SIGN_BIT) as u64
        } else {
            self.bits
        }
    }

    /// Whether the sign bit is set. True of `-0.0` too.
    pub open spec fn sign_negative(self) -> bool {
        self.bits >= SIGN_BIT
    }

    /// Whether the value is a NaN.
    pub open spec fn nan(self) -> bool {
        self.magnitude() > INFINITY_BITS
    }

    /// Whether the value is neither infinite nor a NaN.
    pub open spec fn finite(self) -> bool {
        self.magnitude() < INFINITY_BITS
    }

    /// The place of a value that is no NaN in the order of the reals:
    /// magnitudes grow with their encoding, and the sign mirrors them around
    /// zero, where `0.0` and `-0.0` meet.
    pub open spec fn rank(self) -> int {
        if self.sign_negative() {
            -(self.magnitude() as int)
        } else {
            self.magnitude() as int
        }
    }

    /// `self < other` as IEEE 754 orders them: false when either is a NaN.
    pub open spec fn less(self, other: Scalar) -> bool {
        !self.nan() && !other.nan() && self.rank() < other.rank()
    }

    /// `self <= other` as IEEE 754 orders them: false when either is a NaN.
    pub open spec fn at_most(self, other: Scalar) -> bool {
        !self.nan() && !other.nan() && self.rank() <= other.rank()
    }

    /// Whether the value lies in the closed unit interval.
    pub open spec fn in_unit_interval(self) -> bool {
        (Scalar { bits: ZERO_BITS }).at_most(self) && self.at_most(Scalar { bits: ONE_BITS })
    }

    /// The value with its sign cleared.
    pub open spec fn spec_abs(self) -> Scalar {
        Scalar { bits: self.magnitude() }
    }

    /// The larger of two values; `other` where they do not compare.
    pub open spec fn spec_max(self, other: Scalar) -> Scalar {
        if other.less(self) {
            self
        } else {
            other
        }
    }

    /// The value brought into the closed unit interval. A NaN stays as it is.
    pub open spec fn spec_clamp_unit(self) -> Scalar {
        if self.less(Scalar { bits: ZERO_BITS }) {
            Scalar { bits: ZERO_BITS }
        } else if (Scalar { bits: ONE_BITS }).less(self) {
            Scalar { bits: ONE_BITS }
        } else {
            self
        }
    }

    /// Wraps an encoding.
    pub fn from_bits(bits: u64) -> (r: Scalar)
        ensures
            r.bits == bits,
    {
        Scalar { bits }
    }

    /// The encoding.
    pub fn to_bits(&self) -> (r: u64)
        ensures
            r == self.bits,
    {
        self.bits
    }

    /// `0.0`.
    pub fn zero() -> (r: Scalar)
        ensures
            r.bits == ZERO_BITS,
    {
        Scalar { bits: ZERO_BITS }
    }

    /// `1.0`.
    pub fn one() -> (r: Scalar)
        ensures
            r.bits == ONE_BITS,
    {
        Scalar { bits: ONE_BITS }
    }

    fn magnitude_bits(&self) -> (r: u64)
        ensures
            r == self.magnitude(),
    {
        if self.bits >= SIGN_BIT {
            self.bits - SIGN_BIT
        } else {
            self.bits
        }
    }

    fn rank_value(&self) -> (r: i128)
        ensures
            r == self.rank(),
    {
        let m: u64 = self.magnitude_bits();
        if self.bits >= SIGN_BIT {
            -(m as i128)
        } else {
            m as i128
        }
    }

    /// Whether the value is a NaN.
    pub fn is_nan(&self) -> (r: bool)
        ensures
            r == self.nan(),
    {
        self.magnitude_bits() > INFINITY_BITS
    }

    /// Whether the value is neither infinite nor a NaN.
    pub fn is_finite(&self) -> (r: bool)
        ensures
            r == self.finite(),
    {
        self.magnitude_bits() < INFINITY_BITS
    }

    /// `self < other`.
    pub fn lt(&self, other: &Scalar) -> (r: bool)
        ensures
            r == self.less(*other),
    {
        !self.is_nan() && !other.is_nan() && self.rank_value() < other.rank_value()
    }

    /// `self <= other`.
    pub fn le(&self, other: &Scalar) -> (r: bool)
        ensures
            r == self.at_most(*other),
    {
        !self.is_nan() && !other.is_nan() && self.rank_value() <= other.rank_value()
    }

    /// `self > other`.
    pub fn gt(&self, other: &Scalar) -> (r: bool)
        ensures
            r == other.less(*self),
    {
        other.lt(self)
    }

    /// `self >= other`.
    pub fn ge(&self, other: &Scalar) -> (r: bool)
        ensures
            r == other.at_most(*self),
    {
        other.le(self)
    }

    /// Whether the value lies in the closed unit interval.
    pub fn is_in_unit_interval(&self) -> (r: bool)
        ensures
            r == self.in_unit_interval(),
    {
        Scalar::zero().le(self) && self.le(&Scalar::one())
    }

    /// The value with its sign cleared.
    pub fn abs(&self) -> (r: Scalar)
        ensures
            r == self.spec_abs(),
            !r.sign_negative(),
            r.nan() == self.nan(),
    {
        Scalar { bits: self.magnitude_bits() }
    }

    /// The larger of two values; `other` where they do not compare.
    pub fn max(&self, other: &Scalar) -> (r: Scalar)
        ensures
            r == self.spec_max(*other),
    {
        if other.lt(self) {
            *self
        } else {
            *other
        }
    }

    /// The value brought into the closed unit interval. A NaN stays as it is.
    pub fn clamp_unit(&self) -> (r: Scalar)
        ensures
            r == self.spec_clamp_unit(),
            !self.nan() ==> r.in_unit_interval(),
            self.in_unit_interval() ==> r == *self,
    {
        if self.lt(&Scalar::zero()) {
            Scalar::zero()
        } else if Scalar::one().lt(self) {
            Scalar::one()
        } else {
            *self
        }
    }
}

/// Among values that are no NaN, `less` is a strict order and `at_most` its
/// reflexive closure: exactly one of `a < b`, `b < a` and `a == b` by rank
/// holds, and both relations are transitive.
pub proof fn lemma_order(a: Scalar, b: Scalar, c: Scalar)
    requires
        !a.nan(),
        !b.nan(),
        !c.nan(),
    ensures
        !a.less(a),
        a.at_most(a),
        a.less(b) ==> !b.less(a),
        a.less(b) || b.less(a) || a.rank() == b.rank(),
        a.at_most(b) <==> !b.less(a),
        a.less(b) && b.less(c) ==> a.less(c),
        a.at_most(b) && b.at_most(c) ==> a.at_most(c),
{
}

/// A value in the unit interval is finite, and clamping always lands there
/// unless it started from a NaN.
pub proof fn lemma_unit_interval(a: Scalar)
    ensures
        a.in_unit_interval() ==> a.finite(),
        !a.nan() ==> a.spec_clamp_unit().in_unit_interval(),
        a.spec_clamp_unit().nan() == a.nan(),
{
}

/// Clamping keeps the order: of two numbers, the smaller is clamped to no
/// more than the larger, and a number of the unit interval to itself.
pub proof fn lemma_clamp_keeps_order(a: Scalar, b: Scalar)
    requires
        a.at_most(b),
    ensures
        a.spec_clamp_unit().at_most(b.spec_clamp_unit()),
        a.in_unit_interval() ==> a.spec_clamp_unit() == a,
{
}

/// The number of encodings of the fraction field: `2 ^ 52`.
pub const FRACTION_SPAN: u64 = 0x10_0000_0000_0000;

/// `2 ^ n`.
pub open spec fn two_to(n: nat) -> nat
    decreases n,
{
    if n == 0 {
        1
    } else {
        2 * two_to((n - 1) as nat)
    }
}

/// Powers of two grow with their exponent.
pub proof fn lemma_two_to_grows(m: nat, n: nat)
    requires
        m <= n,
    ensures
        1 <= two_to(m) <= two_to(n),
    decreases n,
{
    if n > 0 {
        if m < n {
            lemma_two_to_grows(m, (n - 1) as nat);
        } else {
            lemma_two_to_grows((m - 1) as nat, (n - 1) as nat);
        }
    }
}

impl Scalar {
    /// The exponent field of the encoding.
    pub open spec fn exponent_field(self) -> nat {
        (self.magnitude() / FRACTION_SPAN) as nat
    }

    /// The fraction field of the encoding.
    pub open spec fn fraction_field(self) -> nat {
        (self.magnitude() % FRACTION_SPAN) as nat
    }

    /// The integer `m` of a finite value `m / 2 ^ scale`: the fraction field,
    /// with the implicit leading bit where the value is normal.
    pub open spec fn significand(self) -> nat {
        if self.exponent_field() == 0 {
            self.fraction_field()
        } else {
            FRACTION_SPAN as nat + self.fraction_field()
        }
    }

    /// The exponent `scale` of a value `m / 2 ^ scale` below 2.
    pub open spec fn scale(self) -> nat {
        if self.exponent_field() == 0 {
            1074
        } else {
            (1075 - self.exponent_field()) as nat
        }
    }

    /// A value below 2 and not below 0, in thousandths, rounded to the nearest
    /// and upwards from the middle: `floor(1000 * m / 2 ^ scale + 1 / 2)`.
    pub open spec fn spec_per_mille_unit(self) -> nat {
        (2000 * self.significand() + two_to(self.scale())) / (2 * two_to(self.scale()))
    }

    /// A value in thousandths of the unit interval: a NaN counts as 0, any
    /// other value is brought into the unit interval and rounded to the
    /// nearest thousandth.
    pub open spec fn spec_per_mille(self) -> nat {
        if self.nan() {
            0
        } else {
            self.spec_clamp_unit().spec_per_mille_unit()
        }
    }

    /// A value in thousandths of the unit interval, between 0 and 1000.
    pub fn per_mille(&self) -> (r: u64)
        ensures
            r == self.spec_per_mille(),
            r <= 1000,
    {
        if self.is_nan() {
            return 0;
        }
        let unit = self.clamp_unit();
        proof {
            lemma_per_mille_bound(unit);
        }
        unit.per_mille_unit()
    }

    fn per_mille_unit(&self) -> (r: u64)
        requires
            self.in_unit_interval(),
        ensures
            r == self.spec_per_mille_unit(),
    {
        let m: u64 = self.magnitude_bits();
        let exponent: u64 = m / FRACTION_SPAN;
        let fraction: u64 = m % FRACTION_SPAN;
        let significand: u64 = if exponent == 0 {
            fraction
        } else {
            FRACTION_SPAN + fraction
        };
        let scale: u64 = if exponent == 0 {
            1074
        } else {
            1075 - exponent
        };
        let numerator: u128 = 2000 * (significand as u128);
        let mut power: u128 = 1;
        let mut i: u64 = 0;
        while i < scale && power <= numerator
            invariant
                i <= scale,
                power == two_to(i as nat),
                numerator < 0x1_0000_0000_0000_0000_0000,
                i > 0 ==> power <= 2 * numerator,
            decreases scale - i,
        {
            power = power * 2;
            i = i + 1;
        }
        proof {
            lemma_two_to_grows(i as nat, scale as nat);
        }
        if i < scale {
            let ghost top: int = two_to(scale as nat) as int;
            let ghost n: int = numerator as int;
            assert((n + top) / (2 * top) == 0) by (nonlinear_arith)
                requires
                    0 <= n < top,
            ;
            0
        } else {
            let q: u128 = (numerator + power) / (2 * power);
            proof {
                let n: int = numerator as int;
                let t: int = power as int;
                if n >= t {
                    assert((n + t) / (2 * t) <= n) by (nonlinear_arith)
                        requires
                            t >= 1,
                            n >= t,
                    ;
                } else {
                    assert((n + t) / (2 * t) == 0) by (nonlinear_arith)
                        requires
                            0 <= n < t,
                    ;
                }
            }
            q as u64
        }
    }
}

/// A value of the unit interval has at most a thousand thousandths, and a
/// thousand exactly when it is `1.0`.
pub proof fn lemma_per_mille_bound(a: Scalar)
    requires
        a.in_unit_interval(),
    ensures
        a.spec_per_mille() == a.spec_per_mille_unit(),
        a.spec_per_mille() <= 1000,
        a.magnitude() == ONE_BITS ==> a.spec_per_mille() == 1000,
        a.magnitude() == 0 ==> a.spec_per_mille() == 0,
{
    assert(two_to(52) == 0x10_0000_0000_0000) by {
        reveal_with_fuel(two_to, 53);
    }
    let m = a.magnitude();
    assert(m <= ONE_BITS);
    let e = a.exponent_field();
    let sig: int = a.significand() as int;
    let top: int = two_to(a.scale()) as int;
    assert(e <= 1023);
    lemma_two_to_grows(52, a.scale());
    if e == 1023 {
        assert(a.fraction_field() == 0);
        assert(sig == top);
    } else if e == 0 {
        assert(sig < top);
    } else {
        lemma_two_to_grows(53, a.scale());
        assert(two_to(53) == 2 * two_to(52));
        assert(sig < top);
    }
    assert((2000 * sig + top) / (2 * top) <= 1000) by (nonlinear_arith)
        requires
            0 <= sig <= top,
            top >= 1,
    ;
    if m == ONE_BITS {
        assert((2000 * top + top) / (2 * top) == 1000) by (nonlinear_arith)
            requires
                top >= 1,
        ;
    }
    if m == 0 {
        assert(sig == 0);
        assert((0 + top) / (2 * top) == 0) by (nonlinear_arith)
            requires
                top >= 1,
        ;
    }
}

} // verus!
