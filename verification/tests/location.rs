use xr_input::float_bits::FloatBits;
use xr_input::location::{follow_head, Mat3, Pose, Vec3, ORIENTATION_VALID, POSITION_VALID};

fn bits(value: f32) -> FloatBits {
    FloatBits::new(value.to_bits())
}

fn vec3(value: f32) -> Vec3 {
    Vec3 { x: bits(value), y: bits(value + 0.5), z: bits(-value) }
}

fn pose(value: f32) -> Pose {
    Pose {
        matrix3: Mat3 { x_axis: vec3(value), y_axis: vec3(value * 2.0), z_axis: vec3(value * 3.0) },
        translation: vec3(value * 4.0),
    }
}

#[test]
fn flags_are_those_of_the_runtime() {
    assert_eq!(ORIENTATION_VALID, openxr::SpaceLocationFlags::ORIENTATION_VALID.into_raw());
    assert_eq!(POSITION_VALID, openxr::SpaceLocationFlags::POSITION_VALID.into_raw());
}

#[test]
fn head_follows_a_fully_valid_location() {
    let mut hmd: Pose = pose(1.0);
    assert!(follow_head(&mut hmd, ORIENTATION_VALID | POSITION_VALID, pose(2.0)));
    assert_eq!(hmd, pose(2.0));
}

#[test]
fn head_keeps_what_is_not_valid() {
    let mut hmd: Pose = pose(1.0);
    assert!(!follow_head(&mut hmd, ORIENTATION_VALID, pose(2.0)));
    assert_eq!(hmd.matrix3, pose(2.0).matrix3);
    assert_eq!(hmd.translation, pose(1.0).translation);

    let mut hmd: Pose = pose(1.0);
    assert!(!follow_head(&mut hmd, POSITION_VALID, pose(2.0)));
    assert_eq!(hmd.matrix3, pose(1.0).matrix3);
    assert_eq!(hmd.translation, pose(2.0).translation);

    let mut hmd: Pose = pose(1.0);
    assert!(!follow_head(&mut hmd, 0, pose(2.0)));
    assert_eq!(hmd, pose(1.0));
}

#[test]
fn other_flags_do_not_count() {
    let others: u64 = openxr::SpaceLocationFlags::ORIENTATION_TRACKED.into_raw()
        | openxr::SpaceLocationFlags::POSITION_TRACKED.into_raw();
    let mut hmd: Pose = pose(1.0);
    assert!(!follow_head(&mut hmd, others, pose(2.0)));
    assert_eq!(hmd, pose(1.0));
    assert!(follow_head(&mut hmd, u64::MAX, pose(2.0)));
    assert_eq!(hmd, pose(2.0));
}
