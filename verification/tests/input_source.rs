use xr_input::click::{
    BoolRead, ClickReads, ClickSensitivity, FloatRead, HandlerReads, ReadError,
};
use xr_input::float_bits::FloatBits;
use xr_input::hand_source::{
    HandReads, HandsfreePointer, HandsfreeReads, PointerReads, ScrollRead,
};
use xr_input::hand_tracking::{DerivedHandInput, HandEvent, HandLog, Toast};
use xr_input::input_source::{
    FrameReads, HeadRead, InputSettings, InputState, OpenXrInputSource,
};
use xr_input::location::{
    Mat3, Pose, PoseRead, SmoothedPose, Vec3, ORIENTATION_VALID, POSITION_VALID,
};
use xr_input::moment::Moment;
use xr_input::pointer::{Pointer, PointerState};

fn bits(value: f32) -> FloatBits {
    FloatBits::new(value.to_bits())
}

fn at(millis: i64) -> Moment {
    Moment::new(millis * 1_000_000)
}

fn pose(value: f32) -> Pose {
    let v = Vec3 { x: bits(value), y: bits(value), z: bits(value) };
    Pose { matrix3: Mat3 { x_axis: v, y_axis: v, z_axis: v }, translation: v }
}

fn off() -> PointerState {
    PointerState {
        click: false,
        grab: false,
        alt_click: false,
        show_hide: false,
        toggle_dashboard: false,
        space_drag: false,
        space_rotate: false,
        space_reset: false,
        click_modifier_right: false,
        click_modifier_middle: false,
        move_mouse: false,
        scroll_x: bits(0.0),
        scroll_y: bits(0.0),
    }
}

fn pointer() -> Pointer {
    Pointer {
        raw_pose: pose(0.0),
        pose: pose(0.0),
        is_tracked: false,
        handsfree: false,
        interaction_enabled: false,
        now: off(),
        before: off(),
    }
}

fn state() -> InputState {
    InputState { hmd: pose(0.0), pointers: [pointer(), pointer()], devices: Vec::new() }
}

fn click(pressed: bool) -> ClickReads {
    let handler = |pressed: bool| HandlerReads {
        action_bool: Ok(BoolRead { is_active: true, current_state: pressed }),
        action_f32: Ok(FloatRead { is_active: false, current_state: bits(0.0) }),
    };
    ClickReads { single: handler(pressed), double: handler(false), triple: handler(false) }
}

fn hand(clicked: bool) -> HandReads {
    HandReads {
        click: click(clicked),
        grab: click(false),
        alt_click: click(false),
        show_hide: click(false),
        toggle_dashboard: click(false),
        space_drag: click(false),
        space_rotate: click(false),
        space_reset: click(false),
        modifier_right: click(false),
        modifier_middle: click(false),
        move_mouse: click(false),
        scroll: Ok(ScrollRead { x: bits(0.0), y: bits(0.0) }),
    }
}

fn located(flags: u64, value: f32) -> Result<PoseRead, ReadError> {
    Ok(PoseRead {
        location_flags: flags,
        located: SmoothedPose { raw_pose: pose(value), pose: pose(value) },
    })
}

fn frame(hand_flags: u64) -> FrameReads {
    FrameReads {
        head: HeadRead { location_flags: ORIENTATION_VALID | POSITION_VALID, pose: pose(1.0) },
        hands: [
            PointerReads { pose: located(hand_flags, 2.0), actions: hand(true) },
            PointerReads { pose: located(hand_flags, 3.0), actions: hand(false) },
        ],
        joints: [HandEvent::Missing, HandEvent::Missing],
        handsfree: HandsfreeReads {
            hmd: SmoothedPose { raw_pose: pose(4.0), pose: pose(4.0) },
            eye: located(ORIENTATION_VALID, 5.0),
            actions: hand(true),
        },
    }
}

fn derived(pinch: f32) -> HandEvent {
    HandEvent::Derived(DerivedHandInput {
        pose: pose(6.0),
        pinch_strength: bits(pinch),
        grab_strength: bits(0.0),
        palm_up: false,
    })
}

fn settings(handsfree_pointer: HandsfreePointer) -> InputSettings {
    InputSettings {
        sensitivity: ClickSensitivity { press: bits(0.7), release: bits(0.5) },
        handsfree_pointer,
    }
}

fn run(
    source: &mut OpenXrInputSource,
    state: &mut InputState,
    frame: &FrameReads,
    mode: HandsfreePointer,
) -> Result<(), ReadError> {
    let mut toasts: Vec<Toast> = Vec::new();
    let mut logs: Vec<HandLog> = Vec::new();
    source.update(state, frame, settings(mode), at(5000), &mut toasts, &mut logs)
}

#[test]
fn sources_are_named_by_side() {
    let source = OpenXrInputSource::new(true, true, at(0));
    assert_eq!(source.hand(0).pose().name, "left_hand");
    assert_eq!(source.hand(1).pose().name, "right_hand");
    assert_eq!(source.handsfree().pose().name, "handsfree_hand");
    assert_eq!(source.haptics(0).name, "left_haptics");
    assert_eq!(source.haptics(1).localized, "right hand haptics");
}

#[test]
fn hands_that_are_located_move_their_pointers() {
    let mut source = OpenXrInputSource::new(false, false, at(0));
    let mut s = state();
    assert_eq!(
        run(&mut source, &mut s, &frame(ORIENTATION_VALID), HandsfreePointer::Hmd),
        Ok(())
    );
    assert_eq!(s.hmd, pose(1.0));
    assert_eq!(s.pointers[0].pose, pose(2.0));
    assert_eq!(s.pointers[1].pose, pose(3.0));
    assert!(s.pointers[0].now.click && !s.pointers[1].now.click);
    assert!(!s.pointers[0].handsfree);
}

#[test]
fn handsfree_pointer_takes_over_without_hands() {
    let mut source = OpenXrInputSource::new(false, false, at(0));
    let mut s = state();
    assert_eq!(run(&mut source, &mut s, &frame(0), HandsfreePointer::HmdOnly), Ok(()));
    assert_eq!(s.pointers[0].pose, pose(4.0));
    assert!(s.pointers[0].is_tracked && s.pointers[0].handsfree);
    assert!(!s.pointers[1].is_tracked);

    let mut s = state();
    assert_eq!(run(&mut source, &mut s, &frame(0), HandsfreePointer::EyeTracking), Ok(()));
    assert_eq!(s.pointers[0].pose, pose(5.0));

    let mut s = state();
    assert_eq!(run(&mut source, &mut s, &frame(0), HandsfreePointer::Off), Ok(()));
    assert_eq!(s.pointers[0].pose, pose(0.0));
    assert!(s.pointers[0].interaction_enabled && !s.pointers[0].is_tracked);
    assert!(s.pointers[0].now.click);
}

#[test]
fn one_located_hand_is_enough_to_stay_with_hands() {
    let mut source = OpenXrInputSource::new(false, false, at(0));
    let mut s = state();
    let mut f = frame(0);
    f.hands[1].pose = located(ORIENTATION_VALID, 3.0);
    assert_eq!(run(&mut source, &mut s, &f, HandsfreePointer::Hmd), Ok(()));
    assert_eq!(s.pointers[0].pose, pose(0.0));
    assert!(!s.pointers[0].handsfree);
}

#[test]
fn bare_hand_is_enough_to_stay_with_hands() {
    let mut source = OpenXrInputSource::new(true, true, at(0));
    let mut s = state();
    let mut f = frame(0);
    f.joints[1] = derived(1.0);
    let mut toasts: Vec<Toast> = Vec::new();
    let mut logs: Vec<HandLog> = Vec::new();
    assert_eq!(
        source.update(
            &mut s,
            &f,
            settings(HandsfreePointer::Hmd),
            at(100),
            &mut toasts,
            &mut logs,
        ),
        Ok(())
    );
    assert!(!s.pointers[0].is_tracked && !s.pointers[0].handsfree);
    assert!(s.pointers[1].is_tracked && s.pointers[1].now.click);
    assert_eq!(s.pointers[1].pose, pose(6.0));
    assert!(toasts.is_empty());
    assert_eq!(logs.len(), 1);
}

#[test]
fn joints_do_not_matter_without_trackers() {
    let mut source = OpenXrInputSource::new(true, false, at(0));
    let mut s = state();
    let mut f = frame(0);
    f.joints = [derived(1.0), derived(1.0)];
    assert_eq!(run(&mut source, &mut s, &f, HandsfreePointer::HmdOnly), Ok(()));
    assert!(s.pointers[0].handsfree);
    assert!(!s.pointers[1].is_tracked);
}

#[test]
fn head_that_is_not_valid_moves_the_pointer_without_tracking_it() {
    let mut source = OpenXrInputSource::new(false, false, at(0));
    let mut s = state();
    let mut f = frame(0);
    f.head.location_flags = ORIENTATION_VALID;
    assert_eq!(run(&mut source, &mut s, &f, HandsfreePointer::Hmd), Ok(()));
    assert_eq!(s.hmd.matrix3, pose(1.0).matrix3);
    assert_eq!(s.hmd.translation, pose(0.0).translation);
    assert_eq!(s.pointers[0].pose, pose(4.0));
    assert!(!s.pointers[0].is_tracked && !s.pointers[0].handsfree);
}

#[test]
fn failing_hand_ends_the_frame() {
    let mut source = OpenXrInputSource::new(true, true, at(0));
    let mut s = state();
    let mut f = frame(ORIENTATION_VALID);
    f.hands[0].pose = Err(ReadError { code: -3 });
    assert_eq!(
        run(&mut source, &mut s, &f, HandsfreePointer::Hmd),
        Err(ReadError { code: -3 })
    );
    assert_eq!(s.hmd, pose(1.0));
    assert_eq!(s.pointers[1], pointer());

    let mut s = state();
    let mut f = frame(ORIENTATION_VALID);
    f.hands[1].actions.scroll = Err(ReadError { code: -4 });
    assert_eq!(
        run(&mut source, &mut s, &f, HandsfreePointer::Hmd),
        Err(ReadError { code: -4 })
    );
    assert_eq!(s.pointers[0].pose, pose(2.0));
    assert_eq!(s.pointers[1].pose, pose(3.0));
}

#[test]
fn failing_handsfree_pointer_ends_the_frame() {
    let mut source = OpenXrInputSource::new(true, true, at(0));
    let mut s = state();
    let mut f = frame(0);
    f.handsfree.eye = Err(ReadError { code: -5 });
    assert_eq!(
        run(&mut source, &mut s, &f, HandsfreePointer::EyeTrackingOnly),
        Err(ReadError { code: -5 })
    );
    let mut s = state();
    let mut f = frame(ORIENTATION_VALID);
    f.handsfree.eye = Err(ReadError { code: -5 });
    assert_eq!(
        run(&mut source, &mut s, &f, HandsfreePointer::EyeTrackingOnly),
        Ok(())
    );
}

#[test]
fn each_pointer_keeps_its_own_clicks() {
    let mut source = OpenXrInputSource::new(false, false, at(0));
    let mut s = state();
    let mut f = frame(ORIENTATION_VALID);
    let double = |pressed: bool| {
        let mut reads = click(false);
        reads.double = click(pressed).single;
        reads
    };
    let mut toasts: Vec<Toast> = Vec::new();
    let mut logs: Vec<HandLog> = Vec::new();
    let mut answers: Vec<(bool, bool)> = Vec::new();
    for (millis, left, right) in [
        (5000, true, false),
        (5050, false, true),
        (5100, true, false),
        (5150, false, true),
    ] {
        f.hands[0].actions.click = double(left);
        f.hands[1].actions.click = double(right);
        let done = source.update(
            &mut s,
            &f,
            settings(HandsfreePointer::Off),
            at(millis),
            &mut toasts,
            &mut logs,
        );
        assert_eq!(done, Ok(()));
        answers.push((s.pointers[0].now.click, s.pointers[1].now.click));
    }
    assert_eq!(answers, vec![(false, false), (false, false), (true, false), (false, true)]);
}

#[test]
fn frame_leaves_the_last_one_alone() {
    let mut source = OpenXrInputSource::new(true, true, at(0));
    let mut s = state();
    s.pointers[0].before.click = true;
    s.pointers[1].before.grab = true;
    let expected = [s.pointers[0].before, s.pointers[1].before];
    for flags in [0, ORIENTATION_VALID] {
        let mut f = frame(flags);
        f.joints[0] = derived(1.0);
        assert_eq!(run(&mut source, &mut s, &f, HandsfreePointer::Hmd), Ok(()));
        assert_eq!([s.pointers[0].before, s.pointers[1].before], expected);
    }
    let mut f = frame(0);
    f.hands[1].pose = Err(ReadError { code: -1 });
    assert!(run(&mut source, &mut s, &f, HandsfreePointer::Hmd).is_err());
    assert_eq!([s.pointers[0].before, s.pointers[1].before], expected);
}
