//! The joints of a hand, and the decisions on what is measured between them.

use crate::click::ReadError;
use crate::float_bits::{FloatBits, ONE, ZERO};
use crate::location::{flags_contain, has_flags, Vec3, POSITION_VALID};
use vstd::prelude::*;

verus! {

/// 0.20, below which a hand counts as open enough to show its palm.
pub const PALM_GRAB_LIMIT: u32 = 0x3e4c_cccd;

/// 0.0001, the squared length below which a direction is none.
pub const SHORTEST_DIRECTION: u32 = 0x38d1_b717;

/// How many joints a hand has.
pub const JOINT_COUNT: usize = 26;

/// The joints that are needed of a hand.
#[derive(Clone, Copy, Debug, PartialEq, Eq, Structural)]
pub enum HandJoint {
    Wrist,
    Palm,
    ThumbTip,
    IndexTip,
    MiddleTip,
    RingTip,
    LittleTip,
    IndexProximal,
    LittleProximal,
}

impl HandJoint {
    /// The place of the joint among all of a hand.
    pub open spec fn place(self) -> int {
        match self {
            HandJoint::Wrist => 1,
            HandJoint::Palm => 0,
            HandJoint::ThumbTip => 5,
            HandJoint::IndexTip => 10,
            HandJoint::MiddleTip => 15,
            HandJoint::RingTip => 20,
            HandJoint::LittleTip => 25,
            HandJoint::IndexProximal => 7,
            HandJoint::LittleProximal => 22,
        }
    }

    /// The place of the joint among all of a hand.
    pub fn index(self) -> (index: usize)
        ensures
            index == self.place(),
            index < JOINT_COUNT,
    {
        match self {
            HandJoint::Wrist => 1,
            HandJoint::Palm => 0,
            HandJoint::ThumbTip => 5,
            HandJoint::IndexTip => 10,
            HandJoint::MiddleTip => 15,
            HandJoint::RingTip => 20,
            HandJoint::LittleTip => 25,
            HandJoint::IndexProximal => 7,
            HandJoint::LittleProximal => 22,
        }
    }
}

/// Where a joint is.
#[derive(Clone, Copy, Debug, PartialEq, Eq, Structural)]
pub struct JointLocation {
    pub location_flags: u64,
    pub position: Vec3,
}

/// The position of a joint, where it is valid.
pub open spec fn position_of(joints: Seq<JointLocation>, joint: HandJoint) -> Option<Vec3> {
    if has_flags(joints[joint.place()].location_flags, POSITION_VALID) {
        Some(joints[joint.place()].position)
    } else {
        None
    }
}

/// The position of a joint, where it is valid.
pub fn joint_position(joints: &[JointLocation; 26], joint: HandJoint) -> (position: Option<Vec3>)
    ensures
        position == position_of(joints@, joint),
{
    let joint: JointLocation = joints[joint.index()];
    if !flags_contain(joint.location_flags, POSITION_VALID) {
        return None;
    }
    Some(joint.position)
}

/// The positions that are needed of a hand.
#[derive(Clone, Copy, Debug, PartialEq, Eq, Structural)]
pub struct HandPoints {
    pub wrist: Vec3,
    pub palm: Vec3,
    pub thumb_tip: Vec3,
    pub index_tip: Vec3,
    pub middle_tip: Vec3,
    pub ring_tip: Vec3,
    pub little_tip: Vec3,
    pub index_proximal: Vec3,
    pub little_proximal: Vec3,
}

/// Whether all joints that are needed have a valid position.
pub open spec fn complete(joints: Seq<JointLocation>) -> bool {
    forall|joint: HandJoint| (#[trigger] position_of(joints, joint)) is Some
}

/// The positions that are needed, as they are located.
pub open spec fn points_of(joints: Seq<JointLocation>) -> HandPoints {
    HandPoints {
        wrist: joints[HandJoint::Wrist.place()].position,
        palm: joints[HandJoint::Palm.place()].position,
        thumb_tip: joints[HandJoint::ThumbTip.place()].position,
        index_tip: joints[HandJoint::IndexTip.place()].position,
        middle_tip: joints[HandJoint::MiddleTip.place()].position,
        ring_tip: joints[HandJoint::RingTip.place()].position,
        little_tip: joints[HandJoint::LittleTip.place()].position,
        index_proximal: joints[HandJoint::IndexProximal.place()].position,
        little_proximal: joints[HandJoint::LittleProximal.place()].position,
    }
}

/// The positions that are needed of a hand, where all of them are valid.
pub fn hand_points_from_joints(joints: &[JointLocation; 26]) -> (points: Option<HandPoints>)
    ensures
        points == (if complete(joints@) {
            Some(points_of(joints@))
        } else {
            None
        }),
{
    let wrist: Vec3 = match joint_position(joints, HandJoint::Wrist) {
        Some(position) => position,
        None => return None,
    };
    let palm: Vec3 = match joint_position(joints, HandJoint::Palm) {
        Some(position) => position,
        None => return None,
    };
    let thumb_tip: Vec3 = match joint_position(joints, HandJoint::ThumbTip) {
        Some(position) => position,
        None => return None,
    };
    let index_tip: Vec3 = match joint_position(joints, HandJoint::IndexTip) {
        Some(position) => position,
        None => return None,
    };
    let middle_tip: Vec3 = match joint_position(joints, HandJoint::MiddleTip) {
        Some(position) => position,
        None => return None,
    };
    let ring_tip: Vec3 = match joint_position(joints, HandJoint::RingTip) {
        Some(position) => position,
        None => return None,
    };
    let little_tip: Vec3 = match joint_position(joints, HandJoint::LittleTip) {
        Some(position) => position,
        None => return None,
    };
    let index_proximal: Vec3 = match joint_position(joints, HandJoint::IndexProximal) {
        Some(position) => position,
        None => return None,
    };
    let little_proximal: Vec3 = match joint_position(joints, HandJoint::LittleProximal) {
        Some(position) => position,
        None => return None,
    };
    Some(
        HandPoints {
            wrist,
            palm,
            thumb_tip,
            index_tip,
            middle_tip,
            ring_tip,
            little_tip,
            index_proximal,
            little_proximal,
        },
    )
}

/// What came of locating the joints of a hand.
#[derive(Clone, Copy, Debug, PartialEq, Eq, Structural)]
pub enum HandReading {
    Points(HandPoints),
    /// There are joints, but not all of those that are needed.
    Lacking,
    /// There are no joints.
    Missing,
    Failed(ReadError),
}

/// Sorts out what came of locating the joints of a hand.
pub fn read_hand(located: &Result<Option<[JointLocation; 26]>, ReadError>) -> (reading: HandReading)
    ensures
        reading == (match *located {
            Err(e) => HandReading::Failed(e),
            Ok(None) => HandReading::Missing,
            Ok(Some(joints)) => if complete(joints@) {
                HandReading::Points(points_of(joints@))
            } else {
                HandReading::Lacking
            },
        }),
{
    match located {
        Err(e) => HandReading::Failed(*e),
        Ok(None) => HandReading::Missing,
        Ok(Some(joints)) => match hand_points_from_joints(joints) {
            Some(points) => HandReading::Points(points),
            None => HandReading::Lacking,
        },
    }
}

/// Whether a palm is up: the palm above the wrist and the fingertips above the palm by
/// more than it takes, and the hand open.
pub fn palm_is_up(
    palm_rise: FloatBits,
    palm_rise_needed: FloatBits,
    fingertip_rise: FloatBits,
    fingertip_rise_needed: FloatBits,
    grab_strength: FloatBits,
) -> (answer: bool)
    ensures
        answer == (palm_rise_needed.lt(palm_rise) && fingertip_rise_needed.lt(fingertip_rise)
            && grab_strength.lt((FloatBits { bits: PALM_GRAB_LIMIT }))),
{
    palm_rise_needed.less(palm_rise) && fingertip_rise_needed.less(fingertip_rise)
        && grab_strength.less(FloatBits::new(PALM_GRAB_LIMIT))
}

/// The strength of a gesture whose raw strength is `raw`, 1 at the closed distance and 0
/// at the open one: kept between 0 and 1, and 0 where the distances leave no room.
pub open spec fn strength(raw: FloatBits, closed: FloatBits, open: FloatBits) -> FloatBits {
    if open.le(closed) {
        FloatBits { bits: ZERO }
    } else {
        raw.clamped(FloatBits { bits: ZERO }, FloatBits { bits: ONE })
    }
}

/// The strength of a gesture.
pub fn normalized_strength(
    raw: FloatBits,
    closed_distance: FloatBits,
    open_distance: FloatBits,
) -> (result: FloatBits)
    ensures
        result == strength(raw, closed_distance, open_distance),
{
    if closed_distance.at_least(open_distance) {
        return FloatBits::new(ZERO);
    }
    raw.clamp_to(FloatBits::new(ZERO), FloatBits::new(ONE))
}

/// A strength is between 0 and 1, or no number where the raw one is none.
pub proof fn strength_is_a_fraction(raw: FloatBits, closed: FloatBits, open: FloatBits)
    ensures
        !raw.nan() ==> (FloatBits { bits: ZERO }).le(strength(raw, closed, open)),
        !raw.nan() ==> strength(raw, closed, open).le((FloatBits { bits: ONE })),
        strength(raw, closed, open).nan() ==> raw.nan(),
{
}

/// A stronger raw strength never makes a weaker gesture.
pub proof fn strength_is_monotonic(
    raw: FloatBits,
    stronger: FloatBits,
    closed: FloatBits,
    open: FloatBits,
)
    requires
        raw.le(stronger),
    ensures
        strength(raw, closed, open).le(strength(stronger, closed, open)),
{
}

/// A direction, or the one to fall back on where it has no length.
pub fn direction_or(direction: Vec3, length_squared: FloatBits, fallback: Vec3) -> (chosen: Vec3)
    ensures
        chosen == (if length_squared.lt((FloatBits { bits: SHORTEST_DIRECTION })) {
            fallback
        } else {
            direction
        }),
{
    if length_squared.less(FloatBits::new(SHORTEST_DIRECTION)) {
        fallback
    } else {
        direction
    }
}

} // verus!
