//! Single-precision numbers as IEEE-754 binary32 bit patterns.

use vstd::prelude::*;

verus! {

/// First bit pattern of the negative half of the encoding: the sign bit alone.
pub const SIGN_BIT: u32 = 0x8000_0000;

/// Magnitude bits of positive infinity; every larger magnitude is a NaN.
pub const INFINITY_MAGNITUDE: u32 = 0x7f80_0000;

/// A single-precision number, held as its binary32 bit pattern.
///
/// `==` on two scalars compares the patterns: `-0.0` and `0.0` differ, and a
/// NaN equals itself. The numeric order is [`Scalar::lt`].
#[derive(Clone, Copy, PartialEq, Eq, Structural, Debug)]
pub struct Scalar {
    pub bits: u32,
}

impl Scalar {
    /// The pattern without its sign bit.
    pub open spec fn magnitude(self) -> int {
        self.bits as int % 0x8000_0000
    }

    /// Whether the sign bit is set.
    pub open spec fn is_negative(self) -> bool {
        self.bits >= SIGN_BIT
    }

    /// Whether the pattern encodes a NaN.
    pub open spec fn is_nan(self) -> bool {
        self.magnitude() > INFINITY_MAGNITUDE as int
    }

    /// An integer that grows with the encoded number: for patterns that are
    /// no NaN, `a` encodes a smaller number than `b` exactly when
    /// `a.rank() < b.rank()`. Both zeros have rank 0.
    pub open spec fn rank(self) -> int {
        if self.is_negative() {
            -self.magnitude()
        } else {
            self.magnitude()
        }
    }

    /// The numeric `<` of binary32: false whenever either side is a NaN.
    pub open spec fn spec_lt(self, other: Scalar) -> bool {
        !self.is_nan() && !other.is_nan() && self.rank() < other.rank()
    }

    /// The numeric `<=` of binary32: false whenever either side is a NaN.
    pub open spec fn spec_le(self, other: Scalar) -> bool {
        !self.is_nan() && !other.is_nan() && self.rank() <= other.rank()
    }

    /// The first of two numbers unless the second is smaller or one of them
    /// is a NaN: `a` where `a <= b`, else `b`.
    pub open spec fn spec_min2(a: Scalar, b: Scalar) -> Scalar {
        if a.spec_le(b) {
            a
        } else {
            b
        }
    }

    /// The first of two numbers unless the second is larger or one of them
    /// is a NaN: `a` where `a >= b`, else `b`.
    pub open spec fn spec_max2(a: Scalar, b: Scalar) -> Scalar {
        if b.spec_le(a) {
            a
        } else {
            b
        }
    }

    /// On numbers, `<=` is a total order up to the sign of zero: every
    /// number is `<=` itself, any two are comparable, and `<=` carries over
    /// a middle term.
    pub proof fn lemma_le_orders(a: Scalar, b: Scalar, c: Scalar)
        requires
            !a.is_nan(),
            !b.is_nan(),
            !c.is_nan(),
        ensures
            a.spec_le(a),
            a.spec_le(b) || b.spec_le(a),
            a.spec_le(b) && b.spec_le(c) ==> a.spec_le(c),
            a.spec_le(b) && b.spec_le(a) ==> a.rank() == b.rank(),
    {
    }

    /// Of two numbers, `spec_min2` is one of them and `<=` both, and
    /// `spec_max2` is one of them and both are `<=` it.
    pub proof fn lemma_min2_max2(a: Scalar, b: Scalar)
        requires
            !a.is_nan(),
            !b.is_nan(),
        ensures
            Scalar::spec_min2(a, b) == a || Scalar::spec_min2(a, b) == b,
            Scalar::spec_min2(a, b).spec_le(a),
            Scalar::spec_min2(a, b).spec_le(b),
            Scalar::spec_max2(a, b) == a || Scalar::spec_max2(a, b) == b,
            a.spec_le(Scalar::spec_max2(a, b)),
            b.spec_le(Scalar::spec_max2(a, b)),
    {
    }

    /// The scalar with the given pattern.
    pub fn from_bits(bits: u32) -> (s: Scalar)
        ensures
            s.bits == bits,
    {
        Scalar { bits }
    }

    /// The pattern of the scalar.
    pub fn to_bits(self) -> (bits: u32)
        ensures
            bits == self.bits,
    {
        self.bits
    }

    /// The pattern of `0.0`.
    pub fn zero() -> (s: Scalar)
        ensures
            s.bits == 0,
    {
        Scalar { bits: 0 }
    }

    /// The pattern of `1.0`.
    pub fn one() -> (s: Scalar)
        ensures
            s.bits == 0x3f80_0000,
    {
        Scalar { bits: 0x3f80_0000 }
    }

    /// Whether the pattern encodes a NaN.
    pub fn is_nan_pattern(self) -> (b: bool)
        ensures
            b == self.is_nan(),
    {
        self.bits % SIGN_BIT > INFINITY_MAGNITUDE
    }

    /// Numeric `<=` on two patterns.
    pub fn le(self, other: Scalar) -> (b: bool)
        ensures
            b == self.spec_le(other),
    {
        if self.is_nan_pattern() || other.is_nan_pattern() {
            return false;
        }
        let a: u32 = self.bits % SIGN_BIT;
        let c: u32 = other.bits % SIGN_BIT;
        let a_neg: bool = self.bits >= SIGN_BIT;
        let c_neg: bool = other.bits >= SIGN_BIT;
        if a_neg {
            if c_neg {
                c <= a
            } else {
                true
            }
        } else {
            if c_neg {
                a == 0 && c == 0
            } else {
                a <= c
            }
        }
    }

    /// `a` where `a <= b`, else `b`.
    pub fn min2(a: Scalar, b: Scalar) -> (m: Scalar)
        ensures
            m == Scalar::spec_min2(a, b),
    {
        if a.le(b) {
            a
        } else {
            b
        }
    }

    /// `a` where `a >= b`, else `b`.
    pub fn max2(a: Scalar, b: Scalar) -> (m: Scalar)
        ensures
            m == Scalar::spec_max2(a, b),
    {
        if b.le(a) {
            a
        } else {
            b
        }
    }

    /// Numeric `<` on two patterns.
    pub fn lt(self, other: Scalar) -> (b: bool)
        ensures
            b == self.spec_lt(other),
    {
        if self.is_nan_pattern() || other.is_nan_pattern() {
            return false;
        }
        let a: u32 = self.bits % SIGN_BIT;
        let c: u32 = other.bits % SIGN_BIT;
        let a_neg: bool = self.bits >= SIGN_BIT;
        let c_neg: bool = other.bits >= SIGN_BIT;
        if a_neg {
            if c_neg {
                c < a
            } else {
                a > 0 || c > 0
            }
        } else {
            if c_neg {
                false
            } else {
                a < c
            }
        }
    }
}

} // verus!
