//! The uniform variables through which the shader receives the settings and
//! the camera: for each a block name, and under it one named field per
//! value.

use vstd::prelude::*;
use vstd::string::StringExecFns;
use crate::raytracing::RTCamera;
use crate::raytracing::RTSettings;
use crate::scalar::Scalar;
use crate::vector::Mat4;
use crate::vector::Vec2;
use crate::vector::Vec3;

verus! {

/// A value that a uniform variable can take.
#[derive(Clone, Copy, PartialEq, Eq, Structural, Debug)]
pub enum UniformValue {
    /// One unsigned integer.
    UInt(u32),
    /// One number.
    Float(Scalar),
    /// Two numbers.
    Float2(Vec2),
    /// Three numbers.
    Float3(Vec3),
    /// A 4x4 matrix, column by column.
    Matrix4(Mat4),
}

/// A uniform variable to set: its full name and its value.
#[derive(Debug)]
pub struct Uniform {
    pub name: String,
    pub value: UniformValue,
}

/// The full name of a field of a uniform block: the block's name, a dot, the
/// field's name.
pub open spec fn field_name(block: Seq<char>, field: Seq<char>) -> Seq<char> {
    block + seq!['.'] + field
}

/// Builds the full name of `field` in the uniform block `block`.
pub fn uniform_field_name(block: &str, field: &str) -> (name: String)
    ensures
        name@ == field_name(block@, field@),
{
    proof {
        reveal_strlit(".");
    }
    let name = String::from_str(block).concat(".").concat(field);
    assert("."@ =~= seq!['.']);
    name
}

/// One uniform of the block `block`.
fn uniform(block: &str, field: &str, value: UniformValue) -> (u: Uniform)
    ensures
        u.name@ == field_name(block@, field@),
        u.value == value,
{
    Uniform { name: uniform_field_name(block, field), value }
}

impl RTSettings {
    /// The uniforms that carry the settings to the block `uniform_name`, in
    /// the order they are to be set: the bounce limit, the rays per fragment,
    /// the divergence of the rays.
    pub fn uniforms(&self, uniform_name: &str) -> (list: Vec<Uniform>)
        ensures
            list@.len() == 3,
            list@[0].name@ == field_name(uniform_name@, "maxBounces"@),
            list@[0].value == UniformValue::UInt(self.max_bounces),
            list@[1].name@ == field_name(uniform_name@, "raysPerFrag"@),
            list@[1].value == UniformValue::UInt(self.rays_per_frag),
            list@[2].name@ == field_name(uniform_name@, "divergeStrength"@),
            list@[2].value == UniformValue::Float(self.diverge_strength),
    {
        let mut list: Vec<Uniform> = Vec::new();
        list.push(uniform(uniform_name, "maxBounces", UniformValue::UInt(self.max_bounces)));
        list.push(uniform(uniform_name, "raysPerFrag", UniformValue::UInt(self.rays_per_frag)));
        list.push(
            uniform(uniform_name, "divergeStrength", UniformValue::Float(self.diverge_strength)),
        );
        list
    }
}

impl RTCamera {
    /// The uniforms that carry the camera to the block `uniform_name`, in the
    /// order they are to be set: the screen size, the field of view, the
    /// focus distance, the position, the local-to-world matrix.
    pub fn uniforms(&self, uniform_name: &str) -> (list: Vec<Uniform>)
        ensures
            list@.len() == 5,
            list@[0].name@ == field_name(uniform_name@, "screenSize"@),
            list@[0].value == UniformValue::Float2(self.screen_size),
            list@[1].name@ == field_name(uniform_name@, "fov"@),
            list@[1].value == UniformValue::Float(self.fov),
            list@[2].name@ == field_name(uniform_name@, "focusDistance"@),
            list@[2].value == UniformValue::Float(self.focus_distance),
            list@[3].name@ == field_name(uniform_name@, "pos"@),
            list@[3].value == UniformValue::Float3(self.pos.spec_to_vec3()),
            list@[4].name@ == field_name(uniform_name@, "localToWorld"@),
            list@[4].value == UniformValue::Matrix4(self.local_to_world),
    {
        let mut list: Vec<Uniform> = Vec::new();
        list.push(uniform(uniform_name, "screenSize", UniformValue::Float2(self.screen_size)));
        list.push(uniform(uniform_name, "fov", UniformValue::Float(self.fov)));
        list.push(uniform(uniform_name, "focusDistance", UniformValue::Float(self.focus_distance)));
        list.push(uniform(uniform_name, "pos", UniformValue::Float3(self.pos.to_vec3())));
        list.push(uniform(uniform_name, "localToWorld", UniformValue::Matrix4(self.local_to_world)));
        list
    }
}

} // verus!
