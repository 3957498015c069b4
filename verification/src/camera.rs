//! The camera: the properties that are set, and the transform and basis
//! vectors that are worked out from them.
//!
//! Working out the transform is arithmetic on single-precision numbers and
//! is the caller's: every setter takes the derivation to use, applies it to
//! the properties as they stand after the call, and stores what it returns.
//! A renderer that rasterises hands in a view-projection derivation, one that
//! traces rays a local-to-world derivation.
//!
//! A new camera stands at the origin, unturned. Its transform is the
//! identity and its basis vectors are the world's axes, so that transform
//! and basis agree from the start.

use vstd::prelude::*;
use crate::scalar::Scalar;
use crate::vector::Mat4;
use crate::vector::Vec3;

verus! {

/// The properties of a camera that are set from outside.
#[derive(Clone, Copy, PartialEq, Eq, Structural, Debug)]
pub struct Pose {
    /// Where the camera is.
    pub pos: Vec3,
    /// Pitch, yaw and roll, in radians.
    pub ang: Vec3,
    /// The field of view.
    pub fov: Scalar,
    /// The distance of the near clipping plane.
    pub z_near: Scalar,
    /// The distance of the far clipping plane.
    pub z_far: Scalar,
}

/// The properties of a camera that are worked out from its pose.
#[derive(Clone, Copy, PartialEq, Eq, Structural, Debug)]
pub struct Frame {
    /// The camera's transform.
    pub rts: Mat4,
    /// The unit vector to the camera's left.
    pub left: Vec3,
    /// The unit vector upwards of the camera.
    pub up: Vec3,
    /// The unit vector the camera looks along.
    pub front: Vec3,
}

/// A camera: a pose and the frame last derived for it.
#[derive(Clone, Copy, Debug)]
pub struct Camera {
    pose: Pose,
    frame: Frame,
}

/// The bit pattern of `90.0`.
pub const DEFAULT_FOV: u32 = 0x42b4_0000;

/// The bit pattern of `1.0`.
pub const DEFAULT_Z_NEAR: u32 = 0x3f80_0000;

/// The bit pattern of `1000.0`.
pub const DEFAULT_Z_FAR: u32 = 0x447a_0000;

impl Pose {
    /// The pose of a new camera: at the origin, unturned, with a field of
    /// view of 90 and clipping planes at 1 and 1000.
    pub open spec fn spec_default() -> Pose {
        Pose {
            pos: Vec3::spec_zeros(),
            ang: Vec3::spec_zeros(),
            fov: Scalar { bits: DEFAULT_FOV },
            z_near: Scalar { bits: DEFAULT_Z_NEAR },
            z_far: Scalar { bits: DEFAULT_Z_FAR },
        }
    }

    /// This pose with every property that is given put in place of the old
    /// one, and every other property as it was.
    pub open spec fn overwritten(
        self,
        position: Option<Vec3>,
        angle: Option<Vec3>,
        field_of_view: Option<Scalar>,
        near_clipping_plane: Option<Scalar>,
        far_clipping_plane: Option<Scalar>,
    ) -> Pose {
        Pose {
            pos: if let Some(p) = position { p } else { self.pos },
            ang: if let Some(a) = angle { a } else { self.ang },
            fov: if let Some(f) = field_of_view { f } else { self.fov },
            z_near: if let Some(n) = near_clipping_plane { n } else { self.z_near },
            z_far: if let Some(f) = far_clipping_plane { f } else { self.z_far },
        }
    }

    /// Whether two poses differ in nothing but the position.
    pub open spec fn same_but_position(self, other: Pose) -> bool {
        other == (Pose { pos: other.pos, ..self })
    }
}

impl Frame {
    /// The frame of a camera at the origin that is not turned: the identity
    /// transform, and the world's axes for left, up and front.
    pub open spec fn spec_at_rest() -> Frame {
        let o = Scalar { bits: 0 };
        let i = Scalar { bits: 0x3f80_0000 };
        Frame {
            rts: Mat4::spec_identity(),
            left: Vec3 { x: i, y: o, z: o },
            up: Vec3 { x: o, y: i, z: o },
            front: Vec3 { x: o, y: o, z: i },
        }
    }

    /// Whether left, up and front are the first three columns of the
    /// transform as they stand. Basis vectors are those columns brought to
    /// unit length, so this holds of a frame whose columns have unit length
    /// already.
    pub open spec fn basis_is_columns(self) -> bool {
        &&& self.left == self.rts.c0.spec_xyz()
        &&& self.up == self.rts.c1.spec_xyz()
        &&& self.front == self.rts.c2.spec_xyz()
    }
}

/// Whether `derive` accepts every pose.
pub open spec fn total<F: Fn(Pose) -> Frame>(derive: F) -> bool {
    forall|pose: Pose| call_requires(derive, (pose,))
}

/// Whether `derive` gives one frame for one pose.
pub open spec fn single_valued<F: Fn(Pose) -> Frame>(derive: F) -> bool {
    forall|pose: Pose, a: Frame, b: Frame|
        call_ensures(derive, (pose,), a) && call_ensures(derive, (pose,), b) ==> a == b
}

/// Whether what `observe` reads off a frame is the same for any two poses
/// that differ in the position only: whether it is derived from the
/// orientation and the optics alone.
pub open spec fn ignores_position<F: Fn(Pose) -> Frame, T>(
    derive: F,
    observe: spec_fn(Frame) -> T,
) -> bool {
    forall|p: Pose, q: Pose, a: Frame, b: Frame|
        p.same_but_position(q) && call_ensures(derive, (p,), a) && call_ensures(derive, (q,), b)
            ==> observe(a) == observe(b)
}

/// Whether the basis vectors that `derive` gives are the same for any two
/// poses that differ in the position only.
pub open spec fn basis_ignores_position<F: Fn(Pose) -> Frame>(derive: F) -> bool {
    forall|p: Pose, q: Pose, a: Frame, b: Frame|
        p.same_but_position(q) && call_ensures(derive, (p,), a) && call_ensures(derive, (q,), b)
            ==> a.left == b.left && a.up == b.up && a.front == b.front
}

/// Deriving again from what a camera stores gives what it stores: where the
/// stored frame was derived by a single-valued `derive`, as every setter
/// leaves it, any frame that `derive` gives for the stored pose is the stored
/// frame, basis vectors and transform alike.
pub proof fn lemma_rederivation<F: Fn(Pose) -> Frame>(camera: Camera, derive: F, again: Frame)
    requires
        camera.derived_by(derive),
        single_valued(derive),
        call_ensures(derive, (camera.pose(),), again),
    ensures
        again == camera.frame(),
        again.left == camera.frame().left,
        again.up == camera.frame().up,
        again.front == camera.frame().front,
{
}

/// Setting the position alone changes nothing that does not come from the
/// position. `after` is a camera as `set_vars` leaves `before` when it is
/// given `position` and nothing else: orientation, field of view and both
/// clipping planes are bit for bit what they were, and so is whatever
/// `observe` reads off the frame, where that is derived from them alone.
pub proof fn lemma_position_only<F: Fn(Pose) -> Frame, T>(
    before: Camera,
    after: Camera,
    derive: F,
    position: Vec3,
    observe: spec_fn(Frame) -> T,
)
    requires
        before.derived_by(derive),
        after.derived_by(derive),
        after.pose() == before.pose().overwritten(
            Some(position),
            None::<Vec3>,
            None::<Scalar>,
            None::<Scalar>,
            None::<Scalar>,
        ),
        ignores_position(derive, observe),
    ensures
        after.pose().pos == position,
        after.pose().ang == before.pose().ang,
        after.pose().fov == before.pose().fov,
        after.pose().z_near == before.pose().z_near,
        after.pose().z_far == before.pose().z_far,
        observe(after.frame()) == observe(before.frame()),
{
    assert(before.pose().same_but_position(after.pose()));
}

impl Camera {
    /// The properties that were set.
    pub closed spec fn pose(&self) -> Pose {
        self.pose
    }

    /// The properties that were derived.
    pub closed spec fn frame(&self) -> Frame {
        self.frame
    }

    /// Whether the stored frame is one that `derive` gives for the stored
    /// pose.
    pub open spec fn derived_by<F: Fn(Pose) -> Frame>(&self, derive: F) -> bool {
        call_ensures(derive, (self.pose(),), self.frame())
    }

    /// A camera with the default pose and the frame that belongs to it: the
    /// identity transform, whose columns are the basis vectors.
    pub fn new() -> (camera: Camera)
        ensures
            camera.pose() == Pose::spec_default(),
            camera.frame() == Frame::spec_at_rest(),
            camera.frame().basis_is_columns(),
    {
        Camera {
            pose: Pose {
                pos: Vec3::zeros(),
                ang: Vec3::zeros(),
                fov: Scalar::from_bits(DEFAULT_FOV),
                z_near: Scalar::from_bits(DEFAULT_Z_NEAR),
                z_far: Scalar::from_bits(DEFAULT_Z_FAR),
            },
            frame: Frame {
                rts: Mat4::identity(),
                left: Vec3::new(Scalar::one(), Scalar::zero(), Scalar::zero()),
                up: Vec3::new(Scalar::zero(), Scalar::one(), Scalar::zero()),
                front: Vec3::new(Scalar::zero(), Scalar::zero(), Scalar::one()),
            },
        }
    }

    /// Derives the frame anew from the pose as it stands.
    fn calculate_rts<F: Fn(Pose) -> Frame>(&mut self, derive: F) -> (frame: Frame)
        requires
            call_requires(derive, (old(self).pose(),)),
        ensures
            final(self).pose() == old(self).pose(),
            final(self).derived_by(derive),
            frame == final(self).frame(),
    {
        let frame = derive(self.pose);
        self.frame = frame;
        frame
    }

    /// Sets the properties that are given, leaves the others, and derives the
    /// frame anew, whether or not anything was given.
    ///
    /// Returns the new frame. Where the call leaves the pose as it was, and
    /// the old frame was derived by the same single-valued derivation, the
    /// new frame is the old one bit for bit. Where the call changes the
    /// position at most, and the derivation takes the basis vectors from
    /// orientation and optics alone, left, up and front are the old ones bit
    /// for bit.
    pub fn set_vars<F: Fn(Pose) -> Frame>(
        &mut self,
        position: Option<Vec3>,
        angle: Option<Vec3>,
        field_of_view: Option<Scalar>,
        near_clipping_plane: Option<Scalar>,
        far_clipping_plane: Option<Scalar>,
        derive: F,
    ) -> (frame: Frame)
        requires
            call_requires(
                derive,
                (
                    old(self).pose().overwritten(
                        position,
                        angle,
                        field_of_view,
                        near_clipping_plane,
                        far_clipping_plane,
                    ),
                ),
            ),
        ensures
            final(self).pose() == old(self).pose().overwritten(
                position,
                angle,
                field_of_view,
                near_clipping_plane,
                far_clipping_plane,
            ),
            final(self).derived_by(derive),
            frame == final(self).frame(),
            single_valued(derive) && old(self).derived_by(derive) && final(self).pose() == old(
                self,
            ).pose() ==> final(self).frame() == old(self).frame(),
            basis_ignores_position(derive) && old(self).derived_by(derive) && old(
                self,
            ).pose().same_but_position(final(self).pose()) ==> {
                &&& final(self).frame().left == old(self).frame().left
                &&& final(self).frame().up == old(self).frame().up
                &&& final(self).frame().front == old(self).frame().front
            },
    {
        if let Some(position_defined) = position {
            self.pose.pos = position_defined;
        }
        if let Some(angle_defined) = angle {
            self.pose.ang = angle_defined;
        }
        if let Some(field_of_view_defined) = field_of_view {
            self.pose.fov = field_of_view_defined;
        }
        if let Some(near_clipping_plane_defined) = near_clipping_plane {
            self.pose.z_near = near_clipping_plane_defined;
        }
        if let Some(far_clipping_plane_defined) = far_clipping_plane {
            self.pose.z_far = far_clipping_plane_defined;
        }
        self.calculate_rts(derive)
    }

    /// Sets every property and derives the frame anew.
    ///
    /// Returns the new frame. Where the call leaves the pose as it was, and
    /// the old frame was derived by the same single-valued derivation, the
    /// new frame is the old one bit for bit. Where the call changes the
    /// position at most, and the derivation takes the basis vectors from
    /// orientation and optics alone, left, up and front are the old ones bit
    /// for bit.
    pub fn set_view_params<F: Fn(Pose) -> Frame>(
        &mut self,
        position: Vec3,
        angle: Vec3,
        field_of_view: Scalar,
        near_clipping_plane: Scalar,
        far_clipping_plane: Scalar,
        derive: F,
    ) -> (frame: Frame)
        requires
            call_requires(
                derive,
                (
                    Pose {
                        pos: position,
                        ang: angle,
                        fov: field_of_view,
                        z_near: near_clipping_plane,
                        z_far: far_clipping_plane,
                    },
                ),
            ),
        ensures
            final(self).pose() == (Pose {
                pos: position,
                ang: angle,
                fov: field_of_view,
                z_near: near_clipping_plane,
                z_far: far_clipping_plane,
            }),
            final(self).derived_by(derive),
            frame == final(self).frame(),
            single_valued(derive) && old(self).derived_by(derive) && final(self).pose() == old(
                self,
            ).pose() ==> final(self).frame() == old(self).frame(),
            basis_ignores_position(derive) && old(self).derived_by(derive) && old(
                self,
            ).pose().same_but_position(final(self).pose()) ==> {
                &&& final(self).frame().left == old(self).frame().left
                &&& final(self).frame().up == old(self).frame().up
                &&& final(self).frame().front == old(self).frame().front
            },
    {
        self.pose = Pose {
            pos: position,
            ang: angle,
            fov: field_of_view,
            z_near: near_clipping_plane,
            z_far: far_clipping_plane,
        };
        self.calculate_rts(derive)
    }

    pub fn pos(&self) -> (v: Vec3)
        ensures
            v == self.pose().pos,
    {
        self.pose.pos
    }

    pub fn ang(&self) -> (v: Vec3)
        ensures
            v == self.pose().ang,
    {
        self.pose.ang
    }

    pub fn fov(&self) -> (s: Scalar)
        ensures
            s == self.pose().fov,
    {
        self.pose.fov
    }

    pub fn z_near(&self) -> (s: Scalar)
        ensures
            s == self.pose().z_near,
    {
        self.pose.z_near
    }

    pub fn z_far(&self) -> (s: Scalar)
        ensures
            s == self.pose().z_far,
    {
        self.pose.z_far
    }

    pub fn rts(&self) -> (m: Mat4)
        ensures
            m == self.frame().rts,
    {
        self.frame.rts
    }

    pub fn left(&self) -> (v: Vec3)
        ensures
            v == self.frame().left,
    {
        self.frame.left
    }

    pub fn front(&self) -> (v: Vec3)
        ensures
            v == self.frame().front,
    {
        self.frame.front
    }

    pub fn up(&self) -> (v: Vec3)
        ensures
            v == self.frame().up,
    {
        self.frame.up
    }
}

} // verus!
