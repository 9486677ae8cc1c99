use glam::{Affine3A, Mat3A, Vec3, Vec3A};
use xr_input::click::ReadError;
use xr_input::float_bits::FloatBits;
use xr_input::joints::{
    direction_or, hand_points_from_joints, joint_position, normalized_strength, palm_is_up,
    read_hand, HandJoint, HandReading, JointLocation, JOINT_COUNT, PALM_GRAB_LIMIT,
    SHORTEST_DIRECTION,
};
use xr_input::location::{Vec3 as BitVec3, ORIENTATION_VALID, POSITION_VALID};

fn bits(value: f32) -> FloatBits {
    FloatBits::new(value.to_bits())
}

fn number(value: FloatBits) -> f32 {
    f32::from_bits(value.bits)
}

fn point(value: f32) -> BitVec3 {
    BitVec3 { x: bits(value), y: bits(value + 0.25), z: bits(value + 0.5) }
}

fn valid_joints() -> [JointLocation; 26] {
    std::array::from_fn(|i| JointLocation {
        location_flags: POSITION_VALID,
        position: point(i as f32),
    })
}

fn needed() -> Vec<HandJoint> {
    vec![
        HandJoint::Wrist,
        HandJoint::Palm,
        HandJoint::ThumbTip,
        HandJoint::IndexTip,
        HandJoint::MiddleTip,
        HandJoint::RingTip,
        HandJoint::LittleTip,
        HandJoint::IndexProximal,
        HandJoint::LittleProximal,
    ]
}

// The distances are floating-point numbers; what becomes of them is asked of the library.
fn strength(distance: f32, closed: f32, open: f32) -> f32 {
    let raw: f32 = 1.0 - (distance - closed) / (open - closed);
    number(normalized_strength(bits(raw), bits(closed), bits(open)))
}

fn pinch_strength(thumb_tip: Vec3, index_tip: Vec3, hand_scale: f32) -> f32 {
    strength(thumb_tip.distance(index_tip) / hand_scale.max(0.001), 0.25, 1.2)
}

fn grab_strength(palm: Vec3, fingertips: [Vec3; 4], hand_scale: f32) -> f32 {
    let curled: f32 = fingertips
        .into_iter()
        .map(|tip| strength(tip.distance(palm) / hand_scale.max(0.001), 0.55, 1.45))
        .sum::<f32>();
    (curled / 4.0).clamp(0.0, 1.0)
}

fn chosen(direction: Vec3A, fallback: Vec3A) -> Vec3A {
    let to_bits = |v: Vec3A| BitVec3 { x: bits(v.x), y: bits(v.y), z: bits(v.z) };
    let answer = direction_or(
        to_bits(direction),
        bits(direction.length_squared()),
        to_bits(fallback),
    );
    Vec3A::new(number(answer.x), number(answer.y), number(answer.z))
}

#[test]
fn joints_have_the_numbers_of_the_runtime() {
    assert_eq!(JOINT_COUNT, openxr::HAND_JOINT_COUNT);
    let numbers: Vec<usize> = needed().into_iter().map(|joint| joint.index()).collect();
    assert_eq!(
        numbers,
        vec![
            openxr::HandJoint::WRIST.into_raw() as usize,
            openxr::HandJoint::PALM.into_raw() as usize,
            openxr::HandJoint::THUMB_TIP.into_raw() as usize,
            openxr::HandJoint::INDEX_TIP.into_raw() as usize,
            openxr::HandJoint::MIDDLE_TIP.into_raw() as usize,
            openxr::HandJoint::RING_TIP.into_raw() as usize,
            openxr::HandJoint::LITTLE_TIP.into_raw() as usize,
            openxr::HandJoint::INDEX_PROXIMAL.into_raw() as usize,
            openxr::HandJoint::LITTLE_PROXIMAL.into_raw() as usize,
        ]
    );
}

#[test]
fn position_of_a_valid_joint_is_given() {
    let joints = valid_joints();
    assert_eq!(joint_position(&joints, HandJoint::Wrist), Some(point(1.0)));
    assert_eq!(joint_position(&joints, HandJoint::IndexTip), Some(point(10.0)));
}

#[test]
fn position_needs_its_flag() {
    let mut joints = valid_joints();
    joints[1].location_flags = ORIENTATION_VALID;
    assert_eq!(joint_position(&joints, HandJoint::Wrist), None);
    joints[1].location_flags = 0;
    assert_eq!(joint_position(&joints, HandJoint::Wrist), None);
    joints[1].location_flags = ORIENTATION_VALID | POSITION_VALID;
    assert_eq!(joint_position(&joints, HandJoint::Wrist), Some(point(1.0)));
}

#[test]
fn hand_points_are_the_nine_joints() {
    let points = hand_points_from_joints(&valid_joints()).unwrap();
    assert_eq!(points.wrist, point(1.0));
    assert_eq!(points.palm, point(0.0));
    assert_eq!(points.thumb_tip, point(5.0));
    assert_eq!(points.index_tip, point(10.0));
    assert_eq!(points.middle_tip, point(15.0));
    assert_eq!(points.ring_tip, point(20.0));
    assert_eq!(points.little_tip, point(25.0));
    assert_eq!(points.index_proximal, point(7.0));
    assert_eq!(points.little_proximal, point(22.0));
}

#[test]
fn each_needed_joint_is_needed() {
    for joint in needed() {
        let mut joints = valid_joints();
        joints[joint.index()].location_flags = 0;
        assert!(hand_points_from_joints(&joints).is_none());
    }
}

#[test]
fn other_joints_are_not_needed() {
    let needed: Vec<usize> = needed().into_iter().map(|joint| joint.index()).collect();
    let mut joints = valid_joints();
    for i in 0..JOINT_COUNT {
        if !needed.contains(&i) {
            joints[i].location_flags = 0;
        }
    }
    assert!(hand_points_from_joints(&joints).is_some());
}

#[test]
fn hand_readings_tell_the_cases_apart() {
    let failed = ReadError { code: -12 };
    assert_eq!(read_hand(&Err(failed)), HandReading::Failed(failed));
    assert_eq!(read_hand(&Ok(None)), HandReading::Missing);
    let mut joints = valid_joints();
    assert_eq!(
        read_hand(&Ok(Some(joints))),
        HandReading::Points(hand_points_from_joints(&joints).unwrap())
    );
    joints[0].location_flags = 0;
    assert_eq!(read_hand(&Ok(Some(joints))), HandReading::Lacking);
}

#[test]
fn limits_are_the_bits_of_their_numbers() {
    assert_eq!(PALM_GRAB_LIMIT, 0.20f32.to_bits());
    assert_eq!(SHORTEST_DIRECTION, 0.0001f32.to_bits());
}

#[test]
fn palm_is_up_where_all_three_hold() {
    let up = |palm: f32, tips: f32, grab: f32| {
        palm_is_up(bits(palm), bits(0.018), bits(tips), bits(0.002), bits(grab))
    };
    assert!(up(0.02, 0.01, 0.0));
    assert!(!up(0.018, 0.01, 0.0));
    assert!(!up(0.02, 0.002, 0.0));
    assert!(!up(0.02, 0.01, 0.2));
    assert!(up(0.02, 0.01, 0.19));
    assert!(!up(f32::NAN, 0.01, 0.0));
    assert!(!up(0.02, f32::NAN, 0.0));
    assert!(!up(0.02, 0.01, f32::NAN));
}

#[test]
fn strength_is_kept_between_zero_and_one() {
    assert_eq!(strength(0.25, 0.25, 1.2), 1.0);
    assert_eq!(strength(0.1, 0.25, 1.2), 1.0);
    assert_eq!(strength(1.2, 0.25, 1.2), 0.0);
    assert_eq!(strength(5.0, 0.25, 1.2), 0.0);
    let half = strength(1.0, 0.55, 1.45);
    assert_eq!(half.to_bits(), (1.0f32 - (1.0f32 - 0.55) / (1.45f32 - 0.55)).to_bits());
}

#[test]
fn strength_without_a_range_is_zero() {
    assert_eq!(normalized_strength(bits(0.7), bits(1.0), bits(1.0)), bits(0.0));
    assert_eq!(normalized_strength(bits(0.7), bits(1.5), bits(1.0)), bits(0.0));
    assert_eq!(normalized_strength(bits(0.7), bits(0.5), bits(1.0)), bits(0.7));
}

#[test]
fn strength_of_nan_is_nan() {
    assert!(number(normalized_strength(bits(f32::NAN), bits(0.5), bits(1.0))).is_nan());
    assert!(!number(normalized_strength(bits(0.5), bits(f32::NAN), bits(1.0))).is_nan());
}

#[test]
fn strength_grows_with_its_raw_value() {
    let mut last: f32 = 0.0;
    for i in -10..30 {
        let raw: f32 = i as f32 / 20.0;
        let now: f32 = number(normalized_strength(bits(raw), bits(0.25), bits(1.2)));
        assert!(now >= last);
        last = now;
    }
    assert_eq!(last, 1.0);
}

#[test]
fn short_direction_gives_way() {
    assert_eq!(chosen(Vec3A::Z, Vec3A::X), Vec3A::Z);
    assert_eq!(chosen(Vec3A::ZERO, Vec3A::X), Vec3A::X);
    let direction = point(3.0);
    let fallback = point(4.0);
    assert_eq!(direction_or(direction, bits(0.0001), fallback), direction);
    assert_eq!(direction_or(direction, bits(0.000_099), fallback), fallback);
    assert_eq!(direction_or(direction, bits(f32::NAN), fallback), direction);
}

#[test]
fn pinch_strength_increases_as_thumb_and_index_move_together() {
    let far = pinch_strength(Vec3::new(0.0, 0.0, 0.0), Vec3::new(0.08, 0.0, 0.0), 0.04);
    let near = pinch_strength(Vec3::new(0.0, 0.0, 0.0), Vec3::new(0.01, 0.0, 0.0), 0.04);

    assert!(near > 0.7, "near pinch should register strongly: {near}");
    assert!(far < 0.2, "far pinch should remain weak: {far}");
}

#[test]
fn grab_strength_detects_closed_hand() {
    let open = grab_strength(
        Vec3::ZERO,
        [
            Vec3::new(0.07, 0.0, -0.02),
            Vec3::new(0.02, 0.0, -0.08),
            Vec3::new(-0.01, 0.0, -0.085),
            Vec3::new(-0.04, 0.0, -0.07),
        ],
        0.05,
    );
    let closed = grab_strength(
        Vec3::ZERO,
        [
            Vec3::new(0.03, 0.0, -0.015),
            Vec3::new(0.02, -0.005, -0.02),
            Vec3::new(0.0, -0.004, -0.018),
            Vec3::new(-0.02, -0.004, -0.016),
        ],
        0.05,
    );

    assert!(closed > 0.7, "closed hand should read as grab: {closed}");
    assert!(open < 0.35, "open hand should not read as grab: {open}");
}

#[test]
fn pose_from_hand_points_points_ray_toward_index_tip() {
    let wrist = Vec3A::new(0.0, 0.0, 0.0);
    let palm = Vec3A::new(0.0, 0.0, -0.03);
    let index_tip = Vec3A::new(0.0, 0.0, -0.2);
    let middle_tip = Vec3A::new(0.0, 0.0, -0.18);
    let ring_tip = Vec3A::new(-0.01, 0.0, -0.16);
    let little_tip = Vec3A::new(-0.02, 0.0, -0.14);
    let little_proximal = Vec3A::new(-0.05, 0.0, -0.05);
    let index_proximal = Vec3A::new(0.03, 0.0, -0.04);

    let right = chosen((index_proximal - little_proximal).normalize_or_zero(), Vec3A::X);
    let stable = ((middle_tip + ring_tip + little_tip) / 3.0 - palm).normalize_or_zero();
    let index = (index_tip - palm).normalize_or_zero();
    let forward = chosen(
        stable.lerp(index, 0.12).normalize_or_zero(),
        chosen((index_tip - wrist).normalize_or_zero(), Vec3A::NEG_Z),
    );
    let up = chosen(right.cross(forward).normalize_or_zero(), Vec3A::Y);
    let right = chosen(forward.cross(up).normalize_or_zero(), Vec3A::X);
    let up = chosen(right.cross(forward).normalize_or_zero(), Vec3A::Y);
    let pose = Affine3A {
        matrix3: Mat3A::from_cols(right, up, -forward),
        translation: wrist.lerp(palm, 0.7),
    };

    let forward = pose.transform_vector3a(Vec3A::NEG_Z).normalize();
    assert!(
        forward.dot(Vec3A::new(0.0, 0.0, -1.0)) > 0.95,
        "forward was {forward:?}"
    );
    assert!((pose.translation - Vec3A::new(0.0, 0.0, -0.021)).length() < 0.0001);
}
