//! The camera's pose and lens, and the frame derived from them.

use crate::scalar::Scalar;
use crate::vec::Point;
use crate::vec::Vec3;
use vstd::prelude::*;

verus! {

/// The pattern of `90.0`: the field of view, in degrees, stays below it in
/// magnitude.
pub const FOV_LIMIT_BITS: u64 = 0x4056_8000_0000_0000;

/// Where the camera stands, what it looks at, and which way is up.
#[derive(Clone, Copy, Debug)]
pub struct Pose {
    pub origin: Point,
    pub target: Point,
    /// Of unit length.
    pub up: Vec3,
}

/// The thin lens: the vertical field of view in degrees, the radius of the
/// lens, and the distance at which the image is sharp.
#[derive(Clone, Copy, Debug)]
pub struct Lens {
    pub fov: Scalar,
    pub lens_radius: Scalar,
    pub focus_dist: Scalar,
}

/// What a pose and a lens determine: the camera's basis, with `w` pointing
/// from the target to the origin, and the viewport in the plane of focus.
#[derive(Clone, Copy, Debug)]
pub struct Frame {
    pub u: Vec3,
    pub v: Vec3,
    pub w: Vec3,
    pub horizontal: Vec3,
    pub vertical: Vec3,
    pub lower_left: Point,
}

/// A camera. It never stands on its target, and its field of view is below 90
/// degrees in magnitude.
#[derive(Debug)]
pub struct Camera {
    pose: Pose,
    lens: Lens,
    frame: Frame,
}

impl Camera {
    /// What a camera asks of its pose and its field of view.
    pub open spec fn admits(origin: Point, target: Point, fov: Scalar) -> bool {
        !origin.same_vector(target) && fov.abs_spec().lt_spec(Scalar::of(FOV_LIMIT_BITS))
    }

    #[verifier::type_invariant]
    spec fn well_formed(self) -> bool {
        Self::admits(self.pose.origin, self.pose.target, self.lens.fov)
    }

    pub closed spec fn pose_spec(&self) -> Pose {
        self.pose
    }

    pub closed spec fn lens_spec(&self) -> Lens {
        self.lens
    }

    pub closed spec fn frame_spec(&self) -> Frame {
        self.frame
    }

    /// Whether `new` accepts this pose and this field of view.
    pub fn accepts(origin: &Point, target: &Point, fov: Scalar) -> (ok: bool)
        ensures
            ok == Self::admits(*origin, *target, fov),
    {
        *origin != *target && fov.abs() < Scalar::from_bits(FOV_LIMIT_BITS)
    }

    /// The camera with this pose and lens, and the frame derived from them.
    pub fn new(
        origin: Point,
        target: Point,
        up: Vec3,
        fov: Scalar,
        lens_radius: Scalar,
        focus_dist: Scalar,
        frame: Frame,
    ) -> (camera: Self)
        requires
            Self::admits(origin, target, fov),
        ensures
            camera.pose_spec() == (Pose { origin, target, up }),
            camera.lens_spec() == (Lens { fov, lens_radius, focus_dist }),
            camera.frame_spec() == frame,
    {
        Self { pose: Pose { origin, target, up }, lens: Lens { fov, lens_radius, focus_dist }, frame }
    }

    /// Turns the camera to a new target, with the frame derived from the new
    /// pose. The origin, the up direction and the lens stay.
    pub fn set_facing(&mut self, target: Point, frame: Frame)
        requires
            !old(self).pose_spec().origin.same_vector(target),
        ensures
            final(self).pose_spec() == (Pose { target, ..old(self).pose_spec() }),
            final(self).lens_spec() == old(self).lens_spec(),
            final(self).frame_spec() == frame,
    {
        proof {
            use_type_invariant(&*self);
        }
        self.pose.target = target;
        self.frame = frame;
    }

    /// Moves the camera to a new origin, with the frame derived from the new
    /// pose. The target, the up direction and the lens stay.
    pub fn set_origin(&mut self, origin: Point, frame: Frame)
        requires
            !old(self).pose_spec().target.same_vector(origin),
        ensures
            final(self).pose_spec() == (Pose { origin, ..old(self).pose_spec() }),
            final(self).lens_spec() == old(self).lens_spec(),
            final(self).frame_spec() == frame,
    {
        proof {
            use_type_invariant(&*self);
        }
        self.pose.origin = origin;
        self.frame = frame;
    }

    /// The pose, whose origin is not its target.
    pub fn pose(&self) -> (pose: Pose)
        ensures
            pose == self.pose_spec(),
            !pose.origin.same_vector(pose.target),
    {
        proof {
            use_type_invariant(self);
        }
        self.pose
    }

    /// The lens, whose field of view is below 90 degrees in magnitude.
    pub fn lens(&self) -> (lens: Lens)
        ensures
            lens == self.lens_spec(),
            lens.fov.abs_spec().lt_spec(Scalar::of(FOV_LIMIT_BITS)),
    {
        proof {
            use_type_invariant(self);
        }
        self.lens
    }

    pub fn frame(&self) -> (frame: Frame)
        ensures
            frame == self.frame_spec(),
    {
        self.frame
    }
}

} // verus!
