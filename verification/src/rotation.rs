//! Symbolic camera orientation.
//!
//! The globe sits at the origin with radius 1; the camera looks down the X
//! axis. An orientation is a finite composition of primitive rotations. The
//! crate never evaluates the trigonometry: it records each primitive
//! rotation exactly (axis in fixed-point, angle in microradians) and the
//! rendering layer outside the crate turns the list into a matrix. In the
//! composed product the step with the highest index is applied last, i.e.
//! it is the leftmost factor.

use vstd::prelude::*;

verus! {

/// One primitive rotation of the globe.
///
/// `AboutY` tilts north-south (pitch), `AboutZ` turns east-west about the
/// polar axis (yaw), `AboutAxis` rotates about an arbitrary axis given as a
/// fixed-point direction vector (only the direction matters, not the
/// length). Angles are in microradians.
#[derive(Clone, Copy, PartialEq, Eq, Structural, Debug)]
pub enum RotStep {
    AboutY { angle_urad: i64 },
    AboutZ { angle_urad: i64 },
    AboutAxis { axis_x: i64, axis_y: i64, axis_z: i64, angle_urad: i64 },
}

/// The angle of a primitive rotation, in microradians.
pub open spec fn step_angle_urad(s: RotStep) -> int {
    match s {
        RotStep::AboutY { angle_urad } => angle_urad as int,
        RotStep::AboutZ { angle_urad } => angle_urad as int,
        RotStep::AboutAxis { angle_urad, .. } => angle_urad as int,
    }
}

/// A primitive rotation is well formed when its axis is an actual direction.
pub open spec fn step_wf(s: RotStep) -> bool {
    match s {
        RotStep::AboutY { .. } => true,
        RotStep::AboutZ { .. } => true,
        RotStep::AboutAxis { axis_x, axis_y, axis_z, .. } =>
            !(axis_x == 0 && axis_y == 0 && axis_z == 0),
    }
}

/// Every recorded rotation has a usable axis.
pub open spec fn steps_wf(steps: Seq<RotStep>) -> bool {
    forall|i: int| 0 <= i < steps.len() ==> step_wf(#[trigger] steps[i])
}

/// An orientation is the identity when every factor has angle zero.
pub open spec fn is_identity(steps: Seq<RotStep>) -> bool {
    forall|i: int| 0 <= i < steps.len() ==> step_angle_urad(#[trigger] steps[i]) == 0
}

/// The identity orientation, written as the empty composition.
pub fn identity_orientation() -> (r: Vec<RotStep>)
    ensures
        r@.len() == 0,
        is_identity(r@),
        steps_wf(r@),
{
    Vec::new()
}

/// Decides whether a recorded orientation is the identity rotation.
pub fn orientation_is_identity(steps: &Vec<RotStep>) -> (r: bool)
    ensures
        r == is_identity(steps@),
{
    let mut i: usize = 0;
    while i < steps.len()
        invariant
            0 <= i <= steps@.len(),
            forall|j: int| 0 <= j < i ==> step_angle_urad(#[trigger] steps@[j]) == 0,
        decreases steps@.len() - i,
    {
        let angle: i64 = match steps[i] {
            RotStep::AboutY { angle_urad } => angle_urad,
            RotStep::AboutZ { angle_urad } => angle_urad,
            RotStep::AboutAxis { angle_urad, .. } => angle_urad,
        };
        if angle != 0 {
            assert(step_angle_urad(steps@[i as int]) != 0);
            return false;
        }
        i = i + 1;
    }
    true
}

} // verus!
