//! The records that the raytracing shader reads, with their storage-block
//! layout.
//!
//! A three-component vector has 12 bytes of data but occupies 16 in a storage
//! block. Every such field is a [`Vec3a16`], whose encoding carries the four
//! bytes of padding, and every record is padded to a multiple of 16 bytes.

use vstd::prelude::*;
use crate::layout::word_bytes;
use crate::layout::padding;
use crate::layout::push_word;
use crate::layout::push_padding;
use crate::layout::GpuRecord;
use crate::layout::lemma_append_assoc;
use crate::layout::lemma_word_round_trip;
use crate::scalar::Scalar;
use crate::vector::Vec2;
use crate::vector::Vec3;
use crate::vector::Vec4;
use crate::vector::Mat4;

verus! {

/// A three-component vector that fills 16 bytes of a storage block.
#[derive(Clone, Copy, PartialEq, Eq, Structural, Debug)]
pub struct Vec3a16 {
    pub x: Scalar,
    pub y: Scalar,
    pub z: Scalar,
}

/// Settings of the raytracer.
#[derive(Clone, Copy, PartialEq, Eq, Structural, Debug)]
pub struct RTSettings {
    pub max_bounces: u32,
    pub rays_per_frag: u32,
    pub diverge_strength: Scalar,
}

/// Surface properties of a scene object.
#[derive(Clone, Copy, PartialEq, Eq, Structural, Debug)]
pub struct RTMaterial {
    pub color: Vec4,
    pub emission_color: Vec4,
    pub specular_color: Vec4,
    pub smoothness: Scalar,
}

/// A sphere of the scene.
#[derive(Clone, Copy, PartialEq, Eq, Structural, Debug)]
pub struct RTSphere {
    pub radius: Scalar,
    pub center: Vec3a16,
    pub material: RTMaterial,
}

/// A triangle of the scene, with a normal at each corner.
#[derive(Clone, Copy, PartialEq, Eq, Structural, Debug)]
pub struct RTTriangle {
    pub p0: Vec3a16,
    pub p1: Vec3a16,
    pub p2: Vec3a16,
    pub normal0: Vec3a16,
    pub normal1: Vec3a16,
    pub normal2: Vec3a16,
    pub material: RTMaterial,
}

/// Where the triangles of one mesh stand among all triangles, and the box
/// around its corners.
#[derive(Clone, Copy, PartialEq, Eq, Structural, Debug)]
pub struct RTMeshInfo {
    pub start_index: u32,
    pub count: u32,
    pub boundingbox_min: Vec3a16,
    pub boundingbox_max: Vec3a16,
}

/// What the shader needs of the camera.
#[derive(Clone, Copy, PartialEq, Eq, Structural, Debug)]
pub struct RTCamera {
    pub screen_size: Vec2,
    pub fov: Scalar,
    pub focus_distance: Scalar,
    pub pos: Vec3a16,
    pub local_to_world: Mat4,
}

impl Vec3a16 {
    pub open spec fn spec_from_vec3(v: Vec3) -> Vec3a16 {
        Vec3a16 { x: v.x, y: v.y, z: v.z }
    }

    pub open spec fn spec_to_vec3(self) -> Vec3 {
        Vec3 { x: self.x, y: self.y, z: self.z }
    }

    pub fn new(x: Scalar, y: Scalar, z: Scalar) -> (v: Vec3a16)
        ensures
            v == (Vec3a16 { x, y, z }),
    {
        Vec3a16 { x, y, z }
    }

    /// The same three components in a padded vector.
    pub fn from_vec3(v: Vec3) -> (r: Vec3a16)
        ensures
            r == Vec3a16::spec_from_vec3(v),
    {
        Vec3a16 { x: v.x, y: v.y, z: v.z }
    }

    /// The same three components without the padding.
    pub fn to_vec3(self) -> (r: Vec3)
        ensures
            r == self.spec_to_vec3(),
    {
        Vec3 { x: self.x, y: self.y, z: self.z }
    }
}

impl Vec3a16 {
    /// Where the shader finds each component of an encoded vector.
    pub proof fn lemma_field_offsets(&self)
        ensures
            self.encoding().len() == 16,
            self.encoding().subrange(0, 4) == word_bytes(self.x.bits),
            self.encoding().subrange(4, 8) == word_bytes(self.y.bits),
            self.encoding().subrange(8, 12) == word_bytes(self.z.bits),
            self.encoding().subrange(12, 16) == padding(4),
    {
        let e = self.encoding();
        self.lemma_layout();
        assert(e.subrange(0, 4) =~= word_bytes(self.x.bits));
        assert(e.subrange(4, 8) =~= word_bytes(self.y.bits));
        assert(e.subrange(8, 12) =~= word_bytes(self.z.bits));
        assert(e.subrange(12, 16) =~= padding(4));
    }
}

impl From<Vec3> for Vec3a16 {
    fn from(v: Vec3) -> (r: Vec3a16) {
        Vec3a16 { x: v.x, y: v.y, z: v.z }
    }
}

impl vstd::std_specs::convert::FromSpecImpl<Vec3> for Vec3a16 {
    open spec fn obeys_from_spec() -> bool {
        true
    }

    open spec fn from_spec(v: Vec3) -> Vec3a16 {
        Vec3a16::spec_from_vec3(v)
    }
}

impl From<Vec3a16> for Vec3 {
    fn from(v: Vec3a16) -> (r: Vec3) {
        Vec3 { x: v.x, y: v.y, z: v.z }
    }
}

impl vstd::std_specs::convert::FromSpecImpl<Vec3a16> for Vec3 {
    open spec fn obeys_from_spec() -> bool {
        true
    }

    open spec fn from_spec(v: Vec3a16) -> Vec3 {
        v.spec_to_vec3()
    }
}

impl GpuRecord for Vec3a16 {
    open spec fn stride() -> nat {
        16
    }

    /// The three components, then four bytes of padding.
    open spec fn encoding(&self) -> Seq<u8> {
        self.spec_to_vec3().bytes() + padding(4)
    }

    proof fn lemma_stride() {
    }

    proof fn lemma_layout(&self) {
        self.spec_to_vec3().lemma_bytes_len();
    }

    fn byte_size() -> (n: usize) {
        16
    }

    fn encode(&self, out: &mut Vec<u8>) {
        push_word(out, self.x.bits);
        push_word(out, self.y.bits);
        push_word(out, self.z.bits);
        push_padding(out, 4);
        proof {
            let b = old(out)@;
            lemma_append_assoc(b, word_bytes(self.x.bits), word_bytes(self.y.bits));
            let e0 = word_bytes(self.x.bits) + word_bytes(self.y.bits);
            lemma_append_assoc(b, e0, word_bytes(self.z.bits));
            let e1 = e0 + word_bytes(self.z.bits);
            lemma_append_assoc(b, e1, padding(4));
        }
    }
}

impl RTSettings {
    /// Where the shader finds each field of the encoded settings.
    pub proof fn lemma_field_offsets(&self)
        ensures
            self.encoding().len() == 16,
            self.encoding().subrange(0, 4) == word_bytes(self.max_bounces),
            self.encoding().subrange(4, 8) == word_bytes(self.rays_per_frag),
            self.encoding().subrange(8, 12) == word_bytes(self.diverge_strength.bits),
    {
        let e = self.encoding();
        self.lemma_layout();
        assert(e.subrange(0, 4) =~= word_bytes(self.max_bounces));
        assert(e.subrange(4, 8) =~= word_bytes(self.rays_per_frag));
        assert(e.subrange(8, 12) =~= word_bytes(self.diverge_strength.bits));
    }
}

impl GpuRecord for RTSettings {
    open spec fn stride() -> nat {
        16
    }

    /// The two counts and the strength, then four bytes of padding.
    open spec fn encoding(&self) -> Seq<u8> {
        word_bytes(self.max_bounces) + word_bytes(self.rays_per_frag) + word_bytes(
            self.diverge_strength.bits,
        ) + padding(4)
    }

    proof fn lemma_stride() {
    }

    proof fn lemma_layout(&self) {
        lemma_word_round_trip(self.max_bounces);
        lemma_word_round_trip(self.rays_per_frag);
        lemma_word_round_trip(self.diverge_strength.bits);
    }

    fn byte_size() -> (n: usize) {
        16
    }

    fn encode(&self, out: &mut Vec<u8>) {
        push_word(out, self.max_bounces);
        push_word(out, self.rays_per_frag);
        push_word(out, self.diverge_strength.bits);
        push_padding(out, 4);
        proof {
            let b = old(out)@;
            lemma_append_assoc(b, word_bytes(self.max_bounces), word_bytes(self.rays_per_frag));
            let e0 = word_bytes(self.max_bounces) + word_bytes(self.rays_per_frag);
            lemma_append_assoc(b, e0, word_bytes(self.diverge_strength.bits));
            let e1 = e0 + word_bytes(self.diverge_strength.bits);
            lemma_append_assoc(b, e1, padding(4));
        }
    }
}

impl RTMaterial {
    pub open spec fn spec_blank() -> RTMaterial {
        RTMaterial {
            color: Vec4::spec_zeros(),
            emission_color: Vec4::spec_zeros(),
            specular_color: Vec4::spec_zeros(),
            smoothness: Scalar { bits: 0 },
        }
    }

    /// A material with every component zero.
    pub fn new() -> (m: RTMaterial)
        ensures
            m == RTMaterial::spec_blank(),
    {
        RTMaterial {
            color: Vec4::zeros(),
            emission_color: Vec4::zeros(),
            specular_color: Vec4::zeros(),
            smoothness: Scalar::zero(),
        }
    }
}

impl RTMaterial {
    /// Where the shader finds each field of an encoded material.
    pub proof fn lemma_field_offsets(&self)
        ensures
            self.encoding().len() == 64,
            self.encoding().subrange(0, 16) == self.color.bytes(),
            self.encoding().subrange(16, 32) == self.emission_color.bytes(),
            self.encoding().subrange(32, 48) == self.specular_color.bytes(),
            self.encoding().subrange(48, 52) == word_bytes(self.smoothness.bits),
    {
        let e = self.encoding();
        self.lemma_layout();
        self.color.lemma_bytes_len();
        self.emission_color.lemma_bytes_len();
        self.specular_color.lemma_bytes_len();
        lemma_word_round_trip(self.smoothness.bits);
        assert(e.subrange(0, 16) =~= self.color.bytes());
        assert(e.subrange(16, 32) =~= self.emission_color.bytes());
        assert(e.subrange(32, 48) =~= self.specular_color.bytes());
        assert(e.subrange(48, 52) =~= word_bytes(self.smoothness.bits));
    }
}

impl GpuRecord for RTMaterial {
    open spec fn stride() -> nat {
        64
    }

    /// The three colours at bytes 0, 16 and 32, the smoothness at 48, then
    /// twelve bytes of padding.
    open spec fn encoding(&self) -> Seq<u8> {
        self.color.bytes() + self.emission_color.bytes() + self.specular_color.bytes() + word_bytes(
            self.smoothness.bits,
        ) + padding(12)
    }

    proof fn lemma_stride() {
    }

    proof fn lemma_layout(&self) {
        self.color.lemma_bytes_len();
        self.emission_color.lemma_bytes_len();
        self.specular_color.lemma_bytes_len();
        lemma_word_round_trip(self.smoothness.bits);
    }

    fn byte_size() -> (n: usize) {
        64
    }

    fn encode(&self, out: &mut Vec<u8>) {
        self.color.encode(out);
        self.emission_color.encode(out);
        self.specular_color.encode(out);
        push_word(out, self.smoothness.bits);
        push_padding(out, 12);
        proof {
            let b = old(out)@;
            lemma_append_assoc(b, self.color.bytes(), self.emission_color.bytes());
            let e0 = self.color.bytes() + self.emission_color.bytes();
            lemma_append_assoc(b, e0, self.specular_color.bytes());
            let e1 = e0 + self.specular_color.bytes();
            lemma_append_assoc(b, e1, word_bytes(self.smoothness.bits));
            let e2 = e1 + word_bytes(self.smoothness.bits);
            lemma_append_assoc(b, e2, padding(12));
        }
    }
}

impl RTSphere {
    pub open spec fn spec_blank() -> RTSphere {
        RTSphere {
            radius: Scalar { bits: 0 },
            center: Vec3a16::spec_from_vec3(Vec3::spec_zeros()),
            material: RTMaterial::spec_blank(),
        }
    }

    /// A sphere with every component zero.
    pub fn new() -> (s: RTSphere)
        ensures
            s == RTSphere::spec_blank(),
    {
        RTSphere {
            radius: Scalar::zero(),
            center: Vec3a16::from_vec3(Vec3::zeros()),
            material: RTMaterial::new(),
        }
    }

    /// Where the shader finds each field of an encoded sphere.
    pub proof fn lemma_field_offsets(&self)
        ensures
            self.encoding().len() == 96,
            self.encoding().subrange(0, 4) == word_bytes(self.radius.bits),
            self.encoding().subrange(16, 32) == self.center.encoding(),
            self.encoding().subrange(32, 96) == self.material.encoding(),
    {
        let e = self.encoding();
        self.lemma_layout();
        lemma_word_round_trip(self.radius.bits);
        self.center.lemma_layout();
        self.material.lemma_layout();
        assert(e.subrange(0, 4) =~= word_bytes(self.radius.bits));
        assert(e.subrange(16, 32) =~= self.center.encoding());
        assert(e.subrange(32, 96) =~= self.material.encoding());
    }
}

impl GpuRecord for RTSphere {
    open spec fn stride() -> nat {
        96
    }

    /// The radius at byte 0, the centre at 16, the material at 32.
    open spec fn encoding(&self) -> Seq<u8> {
        word_bytes(self.radius.bits) + padding(12) + self.center.encoding()
            + self.material.encoding()
    }

    proof fn lemma_stride() {
    }

    proof fn lemma_layout(&self) {
        lemma_word_round_trip(self.radius.bits);
        self.center.lemma_layout();
        self.material.lemma_layout();
    }

    fn byte_size() -> (n: usize) {
        96
    }

    fn encode(&self, out: &mut Vec<u8>) {
        push_word(out, self.radius.bits);
        push_padding(out, 12);
        self.center.encode(out);
        self.material.encode(out);
        proof {
            let b = old(out)@;
            lemma_append_assoc(b, word_bytes(self.radius.bits), padding(12));
            let e0 = word_bytes(self.radius.bits) + padding(12);
            lemma_append_assoc(b, e0, self.center.encoding());
            let e1 = e0 + self.center.encoding();
            lemma_append_assoc(b, e1, self.material.encoding());
        }
    }
}

impl RTTriangle {
    pub open spec fn spec_blank() -> RTTriangle {
        let o = Vec3a16::spec_from_vec3(Vec3::spec_zeros());
        RTTriangle {
            p0: o,
            p1: o,
            p2: o,
            normal0: o,
            normal1: o,
            normal2: o,
            material: RTMaterial::spec_blank(),
        }
    }

    /// A triangle with every component zero.
    pub fn new() -> (t: RTTriangle)
        ensures
            t == RTTriangle::spec_blank(),
    {
        RTTriangle {
            p0: Vec3a16::from_vec3(Vec3::zeros()),
            p1: Vec3a16::from_vec3(Vec3::zeros()),
            p2: Vec3a16::from_vec3(Vec3::zeros()),
            normal0: Vec3a16::from_vec3(Vec3::zeros()),
            normal1: Vec3a16::from_vec3(Vec3::zeros()),
            normal2: Vec3a16::from_vec3(Vec3::zeros()),
            material: RTMaterial::new(),
        }
    }

    /// Where the shader finds each field of an encoded triangle.
    pub proof fn lemma_field_offsets(&self)
        ensures
            self.encoding().len() == 160,
            self.encoding().subrange(0, 16) == self.p0.encoding(),
            self.encoding().subrange(16, 32) == self.p1.encoding(),
            self.encoding().subrange(32, 48) == self.p2.encoding(),
            self.encoding().subrange(48, 64) == self.normal0.encoding(),
            self.encoding().subrange(64, 80) == self.normal1.encoding(),
            self.encoding().subrange(80, 96) == self.normal2.encoding(),
            self.encoding().subrange(96, 160) == self.material.encoding(),
    {
        let e = self.encoding();
        self.lemma_layout();
        self.p0.lemma_layout();
        self.p1.lemma_layout();
        self.p2.lemma_layout();
        self.normal0.lemma_layout();
        self.normal1.lemma_layout();
        self.normal2.lemma_layout();
        self.material.lemma_layout();
        assert(e.subrange(0, 16) =~= self.p0.encoding());
        assert(e.subrange(16, 32) =~= self.p1.encoding());
        assert(e.subrange(32, 48) =~= self.p2.encoding());
        assert(e.subrange(48, 64) =~= self.normal0.encoding());
        assert(e.subrange(64, 80) =~= self.normal1.encoding());
        assert(e.subrange(80, 96) =~= self.normal2.encoding());
        assert(e.subrange(96, 160) =~= self.material.encoding());
    }
}

impl GpuRecord for RTTriangle {
    open spec fn stride() -> nat {
        160
    }

    /// The corners at bytes 0, 16 and 32, their normals at 48, 64 and 80, the
    /// material at 96.
    open spec fn encoding(&self) -> Seq<u8> {
        self.p0.encoding() + self.p1.encoding() + self.p2.encoding() + self.normal0.encoding()
            + self.normal1.encoding() + self.normal2.encoding() + self.material.encoding()
    }

    proof fn lemma_stride() {
    }

    proof fn lemma_layout(&self) {
        self.p0.lemma_layout();
        self.p1.lemma_layout();
        self.p2.lemma_layout();
        self.normal0.lemma_layout();
        self.normal1.lemma_layout();
        self.normal2.lemma_layout();
        self.material.lemma_layout();
    }

    fn byte_size() -> (n: usize) {
        160
    }

    fn encode(&self, out: &mut Vec<u8>) {
        self.p0.encode(out);
        self.p1.encode(out);
        self.p2.encode(out);
        self.normal0.encode(out);
        self.normal1.encode(out);
        self.normal2.encode(out);
        self.material.encode(out);
        proof {
            let b = old(out)@;
            let e1 = self.p0.encoding() + self.p1.encoding();
            let e2 = e1 + self.p2.encoding();
            let e3 = e2 + self.normal0.encoding();
            let e4 = e3 + self.normal1.encoding();
            let e5 = e4 + self.normal2.encoding();
            lemma_append_assoc(b, self.p0.encoding(), self.p1.encoding());
            lemma_append_assoc(b, e1, self.p2.encoding());
            lemma_append_assoc(b, e2, self.normal0.encoding());
            lemma_append_assoc(b, e3, self.normal1.encoding());
            lemma_append_assoc(b, e4, self.normal2.encoding());
            lemma_append_assoc(b, e5, self.material.encoding());
        }
    }
}

impl RTMeshInfo {
    /// Where the shader finds each field of an encoded mesh record.
    pub proof fn lemma_field_offsets(&self)
        ensures
            self.encoding().len() == 48,
            self.encoding().subrange(0, 4) == word_bytes(self.start_index),
            self.encoding().subrange(4, 8) == word_bytes(self.count),
            self.encoding().subrange(16, 32) == self.boundingbox_min.encoding(),
            self.encoding().subrange(32, 48) == self.boundingbox_max.encoding(),
    {
        let e = self.encoding();
        self.lemma_layout();
        lemma_word_round_trip(self.start_index);
        lemma_word_round_trip(self.count);
        self.boundingbox_min.lemma_layout();
        self.boundingbox_max.lemma_layout();
        assert(e.subrange(0, 4) =~= word_bytes(self.start_index));
        assert(e.subrange(4, 8) =~= word_bytes(self.count));
        assert(e.subrange(16, 32) =~= self.boundingbox_min.encoding());
        assert(e.subrange(32, 48) =~= self.boundingbox_max.encoding());
    }
}

impl GpuRecord for RTMeshInfo {
    open spec fn stride() -> nat {
        48
    }

    /// The start and the count at bytes 0 and 4, eight bytes of padding, the
    /// corners of the box at 16 and 32.
    open spec fn encoding(&self) -> Seq<u8> {
        word_bytes(self.start_index) + word_bytes(self.count) + padding(8)
            + self.boundingbox_min.encoding() + self.boundingbox_max.encoding()
    }

    proof fn lemma_stride() {
    }

    proof fn lemma_layout(&self) {
        lemma_word_round_trip(self.start_index);
        lemma_word_round_trip(self.count);
        self.boundingbox_min.lemma_layout();
        self.boundingbox_max.lemma_layout();
    }

    fn byte_size() -> (n: usize) {
        48
    }

    fn encode(&self, out: &mut Vec<u8>) {
        push_word(out, self.start_index);
        push_word(out, self.count);
        push_padding(out, 8);
        self.boundingbox_min.encode(out);
        self.boundingbox_max.encode(out);
        proof {
            let b = old(out)@;
            lemma_append_assoc(b, word_bytes(self.start_index), word_bytes(self.count));
            let e0 = word_bytes(self.start_index) + word_bytes(self.count);
            lemma_append_assoc(b, e0, padding(8));
            let e1 = e0 + padding(8);
            lemma_append_assoc(b, e1, self.boundingbox_min.encoding());
            let e2 = e1 + self.boundingbox_min.encoding();
            lemma_append_assoc(b, e2, self.boundingbox_max.encoding());
        }
    }
}

impl RTCamera {
    /// Where the shader finds each field of an encoded camera.
    pub proof fn lemma_field_offsets(&self)
        ensures
            self.encoding().len() == 96,
            self.encoding().subrange(0, 8) == self.screen_size.bytes(),
            self.encoding().subrange(8, 12) == word_bytes(self.fov.bits),
            self.encoding().subrange(12, 16) == word_bytes(self.focus_distance.bits),
            self.encoding().subrange(16, 32) == self.pos.encoding(),
            self.encoding().subrange(32, 96) == self.local_to_world.bytes(),
    {
        let e = self.encoding();
        self.lemma_layout();
        self.screen_size.lemma_bytes_len();
        lemma_word_round_trip(self.fov.bits);
        lemma_word_round_trip(self.focus_distance.bits);
        self.pos.lemma_layout();
        self.local_to_world.lemma_bytes_len();
        assert(e.subrange(0, 8) =~= self.screen_size.bytes());
        assert(e.subrange(8, 12) =~= word_bytes(self.fov.bits));
        assert(e.subrange(12, 16) =~= word_bytes(self.focus_distance.bits));
        assert(e.subrange(16, 32) =~= self.pos.encoding());
        assert(e.subrange(32, 96) =~= self.local_to_world.bytes());
    }
}

impl GpuRecord for RTCamera {
    open spec fn stride() -> nat {
        96
    }

    /// The screen size at byte 0, the field of view at 8, the focus distance
    /// at 12, the position at 16, the matrix at 32.
    open spec fn encoding(&self) -> Seq<u8> {
        self.screen_size.bytes() + word_bytes(self.fov.bits) + word_bytes(self.focus_distance.bits)
            + self.pos.encoding() + self.local_to_world.bytes()
    }

    proof fn lemma_stride() {
    }

    proof fn lemma_layout(&self) {
        self.screen_size.lemma_bytes_len();
        lemma_word_round_trip(self.fov.bits);
        lemma_word_round_trip(self.focus_distance.bits);
        self.pos.lemma_layout();
        self.local_to_world.lemma_bytes_len();
    }

    fn byte_size() -> (n: usize) {
        96
    }

    fn encode(&self, out: &mut Vec<u8>) {
        self.screen_size.encode(out);
        push_word(out, self.fov.bits);
        push_word(out, self.focus_distance.bits);
        self.pos.encode(out);
        self.local_to_world.encode(out);
        proof {
            let b = old(out)@;
            lemma_append_assoc(b, self.screen_size.bytes(), word_bytes(self.fov.bits));
            let e0 = self.screen_size.bytes() + word_bytes(self.fov.bits);
            lemma_append_assoc(b, e0, word_bytes(self.focus_distance.bits));
            let e1 = e0 + word_bytes(self.focus_distance.bits);
            lemma_append_assoc(b, e1, self.pos.encoding());
            let e2 = e1 + self.pos.encoding();
            lemma_append_assoc(b, e2, self.local_to_world.bytes());
        }
    }
}

} // verus!
