//! Binary64 numbers as bit patterns: classification, order, equality and sign,
//! and the value that a pattern stands for.

use std::cmp::Ordering;
use vstd::arithmetic::power2::lemma_pow2_pos;
use vstd::arithmetic::power2::lemma_pow2_strictly_increases;
use vstd::arithmetic::power2::lemma_pow2_unfold;
use vstd::arithmetic::power2::pow2;
use vstd::prelude::*;
use vstd::std_specs::cmp::PartialEqSpecImpl;
use vstd::std_specs::cmp::PartialOrdSpecImpl;

verus! {

/// The sign bit of a binary64 pattern.
pub const SIGN_BIT: u64 = 0x8000_0000_0000_0000;

/// The pattern of positive infinity; every larger magnitude is a NaN.
pub const INFINITY_BITS: u64 = 0x7FF0_0000_0000_0000;

/// The pattern of `1.0`.
pub const ONE_BITS: u64 = 0x3FF0_0000_0000_0000;

/// Two to the 52nd: the lowest bit of the exponent field, and the bit that a
/// normal number's significand has above its fraction.
pub const HIDDEN_BIT: u64 = 0x0010_0000_0000_0000;

/// A binary64 number, held as its bit pattern.
#[derive(Clone, Copy, Debug)]
pub struct Scalar {
    pub bits: u64,
}

impl Scalar {
    /// The number with this pattern.
    pub open spec fn of(bits: u64) -> Scalar {
        Scalar { bits }
    }

    /// Whether the sign bit is set. True of `-0.0` and of some NaNs too.
    pub open spec fn sign_is_set(self) -> bool {
        self.bits >= SIGN_BIT
    }

    /// The pattern without its sign bit.
    pub open spec fn magnitude(self) -> u64 {
        if self.bits >= SIGN_BIT {
            (self.bits - SIGN_BIT) as u64
        } else {
            self.bits
        }
    }

    /// Not a number: the exponent is all ones and the fraction is not zero.
    pub open spec fn is_nan_spec(self) -> bool {
        self.magnitude() > INFINITY_BITS
    }

    /// Either zero.
    pub open spec fn is_zero_spec(self) -> bool {
        self.magnitude() == 0
    }

    /// The exponent field: 0 for a zero or a subnormal number, 2047 for an
    /// infinity or a NaN.
    pub open spec fn exponent_field(self) -> nat {
        (self.magnitude() / HIDDEN_BIT) as nat
    }

    /// The exponent field, or 1 for a zero or a subnormal number. The magnitude
    /// of a finite number is its significand times two to the power of this
    /// less 1075.
    pub open spec fn scale(self) -> nat {
        if self.exponent_field() == 0 {
            1
        } else {
            self.exponent_field()
        }
    }

    /// The fraction field, with the hidden bit above it unless the number is a
    /// zero or subnormal.
    pub open spec fn significand(self) -> nat {
        if self.exponent_field() == 0 {
            (self.magnitude() % HIDDEN_BIT) as nat
        } else {
            (self.magnitude() % HIDDEN_BIT + HIDDEN_BIT) as nat
        }
    }

    /// Neither an infinity nor a NaN.
    pub open spec fn is_finite_spec(self) -> bool {
        self.magnitude() < INFINITY_BITS
    }

    /// The magnitude of a finite number, counted in steps of the smallest
    /// positive number, which is two to the power of -1074.
    pub open spec fn units(self) -> nat {
        self.significand() * pow2((self.scale() - 1) as nat)
    }

    /// A finite number, counted in steps of the smallest positive number.
    pub open spec fn value(self) -> int {
        if self.sign_is_set() {
            -(self.units() as int)
        } else {
            self.units() as int
        }
    }

    /// `self`, or the bound that it lies beyond: `min` if `self < min`, else
    /// `max` if `self > max`. A NaN lies beyond neither.
    pub open spec fn clamp_spec(self, min: Scalar, max: Scalar) -> Scalar {
        if self.lt_spec(min) {
            min
        } else if self.gt_spec(max) {
            max
        } else {
            self
        }
    }

    /// Where the number stands among all numbers: patterns of one sign are
    /// ordered as their magnitudes, both zeros stand at 0, and the infinities
    /// stand at the two ends. It says nothing of a NaN.
    pub open spec fn rank(self) -> int {
        if self.sign_is_set() {
            -(self.magnitude() as int)
        } else {
            self.magnitude() as int
        }
    }

    /// `self < other` as binary64 defines it: false as soon as one is a NaN.
    pub open spec fn lt_spec(self, other: Scalar) -> bool {
        !self.is_nan_spec() && !other.is_nan_spec() && self.rank() < other.rank()
    }

    /// `self <= other` as binary64 defines it.
    pub open spec fn le_spec(self, other: Scalar) -> bool {
        !self.is_nan_spec() && !other.is_nan_spec() && self.rank() <= other.rank()
    }

    /// `self > other` as binary64 defines it.
    pub open spec fn gt_spec(self, other: Scalar) -> bool {
        other.lt_spec(self)
    }

    /// `self >= other` as binary64 defines it.
    pub open spec fn ge_spec(self, other: Scalar) -> bool {
        other.le_spec(self)
    }

    /// `self == other` as binary64 defines it: a NaN equals nothing, and the
    /// two zeros equal each other.
    pub open spec fn same_number(self, other: Scalar) -> bool {
        !self.is_nan_spec() && !other.is_nan_spec() && self.rank() == other.rank()
    }

    /// The pattern with its sign bit flipped.
    pub open spec fn neg_spec(self) -> Scalar {
        if self.bits >= SIGN_BIT {
            Scalar { bits: (self.bits - SIGN_BIT) as u64 }
        } else {
            Scalar { bits: (self.bits + SIGN_BIT) as u64 }
        }
    }

    /// The pattern with its sign bit cleared.
    pub open spec fn abs_spec(self) -> Scalar {
        Scalar { bits: self.magnitude() }
    }

    pub fn from_bits(bits: u64) -> (s: Scalar)
        ensures
            s == Scalar::of(bits),
    {
        Scalar { bits }
    }

    pub fn to_bits(self) -> (bits: u64)
        ensures
            bits == self.bits,
    {
        self.bits
    }

    /// `0.0`.
    pub fn zero() -> (s: Scalar)
        ensures
            s == Scalar::of(0),
    {
        Scalar { bits: 0 }
    }

    /// `1.0`.
    pub fn one() -> (s: Scalar)
        ensures
            s == Scalar::of(ONE_BITS),
    {
        Scalar { bits: ONE_BITS }
    }

    /// Positive infinity.
    pub fn infinity() -> (s: Scalar)
        ensures
            s == Scalar::of(INFINITY_BITS),
    {
        Scalar { bits: INFINITY_BITS }
    }

    pub fn is_nan(self) -> (r: bool)
        ensures
            r == self.is_nan_spec(),
    {
        self.abs().bits > INFINITY_BITS
    }

    pub fn is_zero(self) -> (r: bool)
        ensures
            r == self.is_zero_spec(),
    {
        self.abs().bits == 0
    }

    /// Negation. It flips the sign bit and nothing else, of a NaN too.
    pub fn neg(self) -> (r: Scalar)
        ensures
            r == self.neg_spec(),
    {
        if self.bits >= SIGN_BIT {
            Scalar { bits: self.bits - SIGN_BIT }
        } else {
            Scalar { bits: self.bits + SIGN_BIT }
        }
    }

    /// Absolute value. It clears the sign bit and nothing else.
    pub fn abs(self) -> (r: Scalar)
        ensures
            r == self.abs_spec(),
    {
        if self.bits >= SIGN_BIT {
            Scalar { bits: self.bits - SIGN_BIT }
        } else {
            self
        }
    }
}

/// `==` and `!=` are those of the numbers: `same_number`.
impl PartialEq for Scalar {
    fn eq(&self, other: &Scalar) -> (r: bool) {
        let a = self.abs().bits;
        let b = other.abs().bits;
        a <= INFINITY_BITS && b <= INFINITY_BITS && (self.bits == other.bits || (a == 0 && b == 0))
    }
}

impl PartialEqSpecImpl for Scalar {
    open spec fn obeys_eq_spec() -> bool {
        true
    }

    open spec fn eq_spec(&self, other: &Scalar) -> bool {
        self.same_number(*other)
    }
}

/// `<`, `<=`, `>` and `>=` are those of the numbers: `lt_spec`, `le_spec`,
/// `gt_spec` and `ge_spec`. Two numbers of which one is a NaN have no order.
impl PartialOrd for Scalar {
    fn partial_cmp(&self, other: &Scalar) -> (r: Option<Ordering>) {
        let a = self.abs().bits;
        let b = other.abs().bits;
        if a > INFINITY_BITS || b > INFINITY_BITS {
            None
        } else if self.bits >= SIGN_BIT {
            if other.bits >= SIGN_BIT {
                if a > b {
                    Some(Ordering::Less)
                } else if a == b {
                    Some(Ordering::Equal)
                } else {
                    Some(Ordering::Greater)
                }
            } else if a == 0 && b == 0 {
                Some(Ordering::Equal)
            } else {
                Some(Ordering::Less)
            }
        } else if other.bits >= SIGN_BIT {
            if a == 0 && b == 0 {
                Some(Ordering::Equal)
            } else {
                Some(Ordering::Greater)
            }
        } else if a < b {
            Some(Ordering::Less)
        } else if a == b {
            Some(Ordering::Equal)
        } else {
            Some(Ordering::Greater)
        }
    }
}

impl PartialOrdSpecImpl for Scalar {
    open spec fn obeys_partial_cmp_spec() -> bool {
        true
    }

    open spec fn partial_cmp_spec(&self, other: &Scalar) -> Option<Ordering> {
        if self.is_nan_spec() || other.is_nan_spec() {
            None
        } else if self.rank() < other.rank() {
            Some(Ordering::Less)
        } else if self.rank() == other.rank() {
            Some(Ordering::Equal)
        } else {
            Some(Ordering::Greater)
        }
    }
}

/// A larger magnitude counts more units.
proof fn lemma_units_increase(a: Scalar, b: Scalar)
    requires
        a.magnitude() < b.magnitude(),
    ensures
        a.units() < b.units(),
{
    let h = HIDDEN_BIT as int;
    let ea = a.exponent_field();
    let eb = b.exponent_field();
    let pa = pow2((a.scale() - 1) as nat) as int;
    let pb = pow2((b.scale() - 1) as nat) as int;
    let sa = a.significand() as int;
    let sb = b.significand() as int;
    lemma_pow2_pos((a.scale() - 1) as nat);
    lemma_pow2_pos((b.scale() - 1) as nat);
    if ea == eb {
        assert(sa < sb);
        assert(sa * pa < sb * pb) by (nonlinear_arith)
            requires
                sa < sb,
                pa == pb,
                pa > 0,
        ;
    } else {
        assert(ea < eb);
        let top = pow2(ea) as int;
        lemma_pow2_pos(ea);
        assert(sa * pa < h * top) by {
            if ea == 0 {
                assert(pow2(0) == 1) by {
                    vstd::arithmetic::power2::lemma2_to64();
                }
                assert(sa * pa < h * top) by (nonlinear_arith)
                    requires
                        0 <= sa < h,
                        pa == 1,
                        top == 1,
                ;
            } else {
                lemma_pow2_unfold(ea);
                assert(sa * pa < h * top) by (nonlinear_arith)
                    requires
                        0 <= sa < 2 * h,
                        pa > 0,
                        top == 2 * pa,
                ;
            }
        }
        assert(top <= pb) by {
            if ea < (eb - 1) as nat {
                lemma_pow2_strictly_increases(ea, (eb - 1) as nat);
            }
        }
        assert(h * top <= sb * pb) by (nonlinear_arith)
            requires
                h <= sb,
                0 < top <= pb,
                h > 0,
        ;
    }
}

/// Patterns are ordered as the numbers that they stand for: of two finite
/// numbers, one is less than, at most, or equal to the other exactly when its
/// value is.
pub proof fn lemma_order_is_that_of_values(a: Scalar, b: Scalar)
    requires
        a.is_finite_spec(),
        b.is_finite_spec(),
    ensures
        a.lt_spec(b) == (a.value() < b.value()),
        a.le_spec(b) == (a.value() <= b.value()),
        a.same_number(b) == (a.value() == b.value()),
{
    let zero = Scalar::of(0);
    assert(zero.units() == 0) by (nonlinear_arith)
        requires
            zero.significand() == 0,
            zero.units() == zero.significand() * pow2((zero.scale() - 1) as nat),
    ;
    if a.magnitude() < b.magnitude() {
        lemma_units_increase(a, b);
    }
    if b.magnitude() < a.magnitude() {
        lemma_units_increase(b, a);
    }
    if 0 < a.magnitude() {
        lemma_units_increase(zero, a);
    }
    if 0 < b.magnitude() {
        lemma_units_increase(zero, b);
    }
    if a.magnitude() == b.magnitude() {
        assert(a.units() == b.units());
    }
    if a.magnitude() == 0 {
        assert(a.units() == zero.units());
    }
    if b.magnitude() == 0 {
        assert(b.units() == zero.units());
    }
}

} // verus!
