//! Small vectors and the 4x4 matrix of the camera, component by component.

use vstd::prelude::*;
use crate::layout::word_bytes;
use crate::layout::push_word;
use crate::layout::lemma_word_round_trip;
use crate::layout::lemma_append_assoc;
use crate::scalar::Scalar;

verus! {

/// Two components: a screen size.
#[derive(Clone, Copy, PartialEq, Eq, Structural, Debug)]
pub struct Vec2 {
    pub x: Scalar,
    pub y: Scalar,
}

/// Three components: a position, a direction, or three angles.
#[derive(Clone, Copy, PartialEq, Eq, Structural, Debug)]
pub struct Vec3 {
    pub x: Scalar,
    pub y: Scalar,
    pub z: Scalar,
}

/// Four components: a colour with its fourth channel.
#[derive(Clone, Copy, PartialEq, Eq, Structural, Debug)]
pub struct Vec4 {
    pub x: Scalar,
    pub y: Scalar,
    pub z: Scalar,
    pub w: Scalar,
}

/// A 4x4 matrix held by its columns.
#[derive(Clone, Copy, PartialEq, Eq, Structural, Debug)]
pub struct Mat4 {
    pub c0: Vec4,
    pub c1: Vec4,
    pub c2: Vec4,
    pub c3: Vec4,
}

impl Vec2 {
    pub open spec fn spec_zeros() -> Vec2 {
        Vec2 { x: Scalar { bits: 0 }, y: Scalar { bits: 0 } }
    }

    /// The bytes of both components, in order, with no padding.
    pub open spec fn bytes(self) -> Seq<u8> {
        word_bytes(self.x.bits) + word_bytes(self.y.bits)
    }

    /// Two components fill 8 bytes.
    pub proof fn lemma_bytes_len(self)
        ensures
            self.bytes().len() == 8,
    {
        lemma_word_round_trip(self.x.bits);
        lemma_word_round_trip(self.y.bits);
    }

    pub fn new(x: Scalar, y: Scalar) -> (v: Vec2)
        ensures
            v == (Vec2 { x, y }),
    {
        Vec2 { x, y }
    }

    pub fn zeros() -> (v: Vec2)
        ensures
            v == Vec2::spec_zeros(),
    {
        Vec2 { x: Scalar::zero(), y: Scalar::zero() }
    }

    /// Appends [`Vec2::bytes`] to `out`.
    pub fn encode(&self, out: &mut Vec<u8>)
        ensures
            final(out)@ == old(out)@ + self.bytes(),
    {
        push_word(out, self.x.bits);
        push_word(out, self.y.bits);
        proof {
            let b = old(out)@;
            lemma_append_assoc(b, word_bytes(self.x.bits), word_bytes(self.y.bits));
        }
    }
}

impl Vec3 {
    pub open spec fn spec_zeros() -> Vec3 {
        Vec3 { x: Scalar { bits: 0 }, y: Scalar { bits: 0 }, z: Scalar { bits: 0 } }
    }

    /// The bytes of the three components, in order, with no padding: 12 bytes.
    pub open spec fn bytes(self) -> Seq<u8> {
        word_bytes(self.x.bits) + word_bytes(self.y.bits) + word_bytes(self.z.bits)
    }

    /// The smaller of each pair of components, as [`Scalar::spec_min2`]
    /// picks it.
    pub open spec fn spec_min2(a: Vec3, b: Vec3) -> Vec3 {
        Vec3 {
            x: Scalar::spec_min2(a.x, b.x),
            y: Scalar::spec_min2(a.y, b.y),
            z: Scalar::spec_min2(a.z, b.z),
        }
    }

    /// The larger of each pair of components, as [`Scalar::spec_max2`]
    /// picks it.
    pub open spec fn spec_max2(a: Vec3, b: Vec3) -> Vec3 {
        Vec3 {
            x: Scalar::spec_max2(a.x, b.x),
            y: Scalar::spec_max2(a.y, b.y),
            z: Scalar::spec_max2(a.z, b.z),
        }
    }

    /// Component-wise minimum.
    pub fn min2(a: Vec3, b: Vec3) -> (m: Vec3)
        ensures
            m == Vec3::spec_min2(a, b),
    {
        Vec3 {
            x: Scalar::min2(a.x, b.x),
            y: Scalar::min2(a.y, b.y),
            z: Scalar::min2(a.z, b.z),
        }
    }

    /// Component-wise maximum.
    pub fn max2(a: Vec3, b: Vec3) -> (m: Vec3)
        ensures
            m == Vec3::spec_max2(a, b),
    {
        Vec3 {
            x: Scalar::max2(a.x, b.x),
            y: Scalar::max2(a.y, b.y),
            z: Scalar::max2(a.z, b.z),
        }
    }

    /// Three components fill 12 bytes.
    pub proof fn lemma_bytes_len(self)
        ensures
            self.bytes().len() == 12,
    {
        lemma_word_round_trip(self.x.bits);
        lemma_word_round_trip(self.y.bits);
        lemma_word_round_trip(self.z.bits);
    }

    pub fn new(x: Scalar, y: Scalar, z: Scalar) -> (v: Vec3)
        ensures
            v == (Vec3 { x, y, z }),
    {
        Vec3 { x, y, z }
    }

    pub fn zeros() -> (v: Vec3)
        ensures
            v == Vec3::spec_zeros(),
    {
        Vec3 { x: Scalar::zero(), y: Scalar::zero(), z: Scalar::zero() }
    }

    /// Appends [`Vec3::bytes`] to `out`.
    pub fn encode(&self, out: &mut Vec<u8>)
        ensures
            final(out)@ == old(out)@ + self.bytes(),
    {
        push_word(out, self.x.bits);
        push_word(out, self.y.bits);
        push_word(out, self.z.bits);
        proof {
            let b = old(out)@;
            lemma_append_assoc(b, word_bytes(self.x.bits), word_bytes(self.y.bits));
            let e0 = word_bytes(self.x.bits) + word_bytes(self.y.bits);
            lemma_append_assoc(b, e0, word_bytes(self.z.bits));
        }
    }
}

impl Vec4 {
    pub open spec fn spec_zeros() -> Vec4 {
        Vec4 {
            x: Scalar { bits: 0 },
            y: Scalar { bits: 0 },
            z: Scalar { bits: 0 },
            w: Scalar { bits: 0 },
        }
    }

    /// The bytes of the four components, in order: 16 bytes.
    pub open spec fn bytes(self) -> Seq<u8> {
        word_bytes(self.x.bits) + word_bytes(self.y.bits) + word_bytes(self.z.bits) + word_bytes(
            self.w.bits,
        )
    }

    /// The first three components.
    pub open spec fn spec_xyz(self) -> Vec3 {
        Vec3 { x: self.x, y: self.y, z: self.z }
    }

    /// The first three components.
    pub fn xyz(self) -> (v: Vec3)
        ensures
            v == self.spec_xyz(),
    {
        Vec3 { x: self.x, y: self.y, z: self.z }
    }

    /// Four components fill 16 bytes.
    pub proof fn lemma_bytes_len(self)
        ensures
            self.bytes().len() == 16,
    {
        lemma_word_round_trip(self.x.bits);
        lemma_word_round_trip(self.y.bits);
        lemma_word_round_trip(self.z.bits);
        lemma_word_round_trip(self.w.bits);
    }

    pub fn new(x: Scalar, y: Scalar, z: Scalar, w: Scalar) -> (v: Vec4)
        ensures
            v == (Vec4 { x, y, z, w }),
    {
        Vec4 { x, y, z, w }
    }

    pub fn zeros() -> (v: Vec4)
        ensures
            v == Vec4::spec_zeros(),
    {
        Vec4 { x: Scalar::zero(), y: Scalar::zero(), z: Scalar::zero(), w: Scalar::zero() }
    }

    /// Appends [`Vec4::bytes`] to `out`.
    pub fn encode(&self, out: &mut Vec<u8>)
        ensures
            final(out)@ == old(out)@ + self.bytes(),
    {
        push_word(out, self.x.bits);
        push_word(out, self.y.bits);
        push_word(out, self.z.bits);
        push_word(out, self.w.bits);
        proof {
            let b = old(out)@;
            lemma_append_assoc(b, word_bytes(self.x.bits), word_bytes(self.y.bits));
            let e0 = word_bytes(self.x.bits) + word_bytes(self.y.bits);
            lemma_append_assoc(b, e0, word_bytes(self.z.bits));
            let e1 = e0 + word_bytes(self.z.bits);
            lemma_append_assoc(b, e1, word_bytes(self.w.bits));
        }
    }
}

impl Mat4 {
    /// The identity: ones on the diagonal, zeros elsewhere.
    pub open spec fn spec_identity() -> Mat4 {
        let o = Scalar { bits: 0 };
        let i = Scalar { bits: 0x3f80_0000 };
        Mat4 {
            c0: Vec4 { x: i, y: o, z: o, w: o },
            c1: Vec4 { x: o, y: i, z: o, w: o },
            c2: Vec4 { x: o, y: o, z: i, w: o },
            c3: Vec4 { x: o, y: o, z: o, w: i },
        }
    }

    /// The bytes of the four columns, in order: 64 bytes.
    pub open spec fn bytes(self) -> Seq<u8> {
        self.c0.bytes() + self.c1.bytes() + self.c2.bytes() + self.c3.bytes()
    }

    /// A matrix fills 64 bytes.
    pub proof fn lemma_bytes_len(self)
        ensures
            self.bytes().len() == 64,
    {
        self.c0.lemma_bytes_len();
        self.c1.lemma_bytes_len();
        self.c2.lemma_bytes_len();
        self.c3.lemma_bytes_len();
    }

    pub fn from_columns(c0: Vec4, c1: Vec4, c2: Vec4, c3: Vec4) -> (m: Mat4)
        ensures
            m == (Mat4 { c0, c1, c2, c3 }),
    {
        Mat4 { c0, c1, c2, c3 }
    }

    pub fn identity() -> (m: Mat4)
        ensures
            m == Mat4::spec_identity(),
    {
        let o = Scalar::zero();
        let i = Scalar::one();
        Mat4 {
            c0: Vec4 { x: i, y: o, z: o, w: o },
            c1: Vec4 { x: o, y: i, z: o, w: o },
            c2: Vec4 { x: o, y: o, z: i, w: o },
            c3: Vec4 { x: o, y: o, z: o, w: i },
        }
    }

    /// Appends [`Mat4::bytes`] to `out`.
    pub fn encode(&self, out: &mut Vec<u8>)
        ensures
            final(out)@ == old(out)@ + self.bytes(),
    {
        self.c0.encode(out);
        self.c1.encode(out);
        self.c2.encode(out);
        self.c3.encode(out);
        proof {
            let b = old(out)@;
            lemma_append_assoc(b, self.c0.bytes(), self.c1.bytes());
            let e0 = self.c0.bytes() + self.c1.bytes();
            lemma_append_assoc(b, e0, self.c2.bytes());
            let e1 = e0 + self.c2.bytes();
            lemma_append_assoc(b, e1, self.c3.bytes());
        }
    }
}

} // verus!
