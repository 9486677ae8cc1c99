//! What the runtime says about where something is.

use crate::float_bits::FloatBits;
use vstd::prelude::*;

verus! {

/// The flag of a location whose orientation is valid.
pub const ORIENTATION_VALID: u64 = 1;

/// The flag of a location whose position is valid.
pub const POSITION_VALID: u64 = 2;

/// Three coordinates.
#[derive(Clone, Copy, Debug, PartialEq, Eq, Structural)]
pub struct Vec3 {
    pub x: FloatBits,
    pub y: FloatBits,
    pub z: FloatBits,
}

/// A rotation, by its columns.
#[derive(Clone, Copy, Debug, PartialEq, Eq, Structural)]
pub struct Mat3 {
    pub x_axis: Vec3,
    pub y_axis: Vec3,
    pub z_axis: Vec3,
}

/// A rotation and a position.
#[derive(Clone, Copy, Debug, PartialEq, Eq, Structural)]
pub struct Pose {
    pub matrix3: Mat3,
    pub translation: Vec3,
}

/// A pose as reported, and as smoothed over time.
#[derive(Clone, Copy, Debug, PartialEq, Eq, Structural)]
pub struct SmoothedPose {
    pub raw_pose: Pose,
    pub pose: Pose,
}

/// A located space: the flags of the location, and the pose for the case that they
/// call it valid.
#[derive(Clone, Copy, Debug, PartialEq, Eq, Structural)]
pub struct PoseRead {
    pub location_flags: u64,
    pub located: SmoothedPose,
}

/// Whether all bits of `wanted` are set in `flags`.
pub open spec fn has_flags(flags: u64, wanted: u64) -> bool {
    flags & wanted == wanted
}

/// Calls `openxr::SpaceLocationFlags::contains` on the flags with these bits: it
/// answers whether every bit of `wanted` is set in `flags`. `from_raw` wraps the bits
/// as they are.
#[verifier::external_body]
pub(crate) fn flags_contain(flags: u64, wanted: u64) -> (answer: bool)
    ensures
        answer == has_flags(flags, wanted),
{
    openxr::SpaceLocationFlags::from_raw(flags).contains(
        openxr::SpaceLocationFlags::from_raw(wanted),
    )
}

impl PoseRead {
    /// Whether the orientation can be used.
    pub open spec fn oriented(self) -> bool {
        has_flags(self.location_flags, ORIENTATION_VALID)
    }
}

/// Takes over a located head: rotation and position each where they are valid. Answers
/// whether both were.
pub fn follow_head(hmd: &mut Pose, location_flags: u64, located: Pose) -> (both: bool)
    ensures
        final(hmd).matrix3 == (if has_flags(location_flags, ORIENTATION_VALID) {
            located.matrix3
        } else {
            old(hmd).matrix3
        }),
        final(hmd).translation == (if has_flags(location_flags, POSITION_VALID) {
            located.translation
        } else {
            old(hmd).translation
        }),
        both == (has_flags(location_flags, ORIENTATION_VALID) && has_flags(
            location_flags,
            POSITION_VALID,
        )),
{
    let mut both: bool = true;
    if flags_contain(location_flags, ORIENTATION_VALID) {
        hmd.matrix3 = located.matrix3;
    } else {
        both = false;
    }
    if flags_contain(location_flags, POSITION_VALID) {
        hmd.translation = located.translation;
    } else {
        both = false;
    }
    both
}

} // verus!
