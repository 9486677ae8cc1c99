use xr_input::click::{
    BoolRead, ClickReads, ClickSensitivity, FloatRead, HandlerReads, ReadError,
};
use xr_input::float_bits::FloatBits;
use xr_input::hand_source::{
    HandReads, HandsfreePointer, HandsfreeReads, OpenXrHandSource, OpenXrPointer, PointerReads,
    ScrollRead,
};
use xr_input::location::{
    Mat3, Pose, PoseRead, SmoothedPose, Vec3, ORIENTATION_VALID, POSITION_VALID,
};
use xr_input::moment::Moment;
use xr_input::names::ClickSlot;
use xr_input::pointer::{Pointer, PointerState};

fn bits(value: f32) -> FloatBits {
    FloatBits::new(value.to_bits())
}

fn at(millis: i64) -> Moment {
    Moment::new(millis * 1_000_000)
}

fn pose(value: f32) -> Pose {
    let v = Vec3 { x: bits(value), y: bits(value), z: bits(value) };
    Pose { matrix3: Mat3 { x_axis: v, y_axis: v, z_axis: v }, translation: v }
}

fn smoothed(value: f32) -> SmoothedPose {
    SmoothedPose { raw_pose: pose(value), pose: pose(value + 0.5) }
}

fn off() -> PointerState {
    PointerState {
        click: false,
        grab: false,
        alt_click: false,
        show_hide: false,
        toggle_dashboard: false,
        space_drag: false,
        space_rotate: false,
        space_reset: false,
        click_modifier_right: false,
        click_modifier_middle: false,
        move_mouse: false,
        scroll_x: bits(0.0),
        scroll_y: bits(0.0),
    }
}

fn pointer() -> Pointer {
    Pointer {
        raw_pose: pose(0.0),
        pose: pose(0.0),
        is_tracked: false,
        handsfree: false,
        interaction_enabled: false,
        now: off(),
        before: off(),
    }
}

fn handler(pressed: bool) -> HandlerReads {
    HandlerReads {
        action_bool: Ok(BoolRead { is_active: true, current_state: pressed }),
        action_f32: Ok(FloatRead { is_active: false, current_state: bits(0.0) }),
    }
}

fn failing(code: i32) -> ClickReads {
    let reads = HandlerReads {
        action_bool: Err(ReadError { code }),
        action_f32: Err(ReadError { code }),
    };
    ClickReads { single: reads, double: reads, triple: reads }
}

fn click(pressed: bool) -> ClickReads {
    ClickReads { single: handler(pressed), double: handler(false), triple: handler(false) }
}

fn hand(pressed: bool) -> HandReads {
    HandReads {
        click: click(pressed),
        grab: click(pressed),
        alt_click: click(pressed),
        show_hide: click(pressed),
        toggle_dashboard: click(pressed),
        space_drag: click(pressed),
        space_rotate: click(pressed),
        space_reset: click(pressed),
        modifier_right: click(pressed),
        modifier_middle: click(pressed),
        move_mouse: click(pressed),
        scroll: Ok(ScrollRead { x: bits(0.25), y: bits(-0.5) }),
    }
}

fn all_failing() -> HandReads {
    HandReads {
        click: failing(-1),
        grab: failing(-2),
        scroll: Err(ReadError { code: -3 }),
        alt_click: failing(-4),
        show_hide: failing(-5),
        modifier_right: failing(-6),
        toggle_dashboard: failing(-7),
        modifier_middle: failing(-8),
        move_mouse: failing(-9),
        space_drag: failing(-10),
        space_rotate: failing(-11),
        space_reset: failing(-12),
    }
}

// The first `count` actions, in the order in which they are read, are pressed; the rest fail.
fn failing_from(count: usize) -> HandReads {
    let mut reads = all_failing();
    let good = hand(true);
    for i in 0..count {
        match i {
            0 => reads.click = good.click,
            1 => reads.grab = good.grab,
            2 => reads.scroll = good.scroll,
            3 => reads.alt_click = good.alt_click,
            4 => reads.show_hide = good.show_hide,
            5 => reads.modifier_right = good.modifier_right,
            6 => reads.toggle_dashboard = good.toggle_dashboard,
            7 => reads.modifier_middle = good.modifier_middle,
            8 => reads.move_mouse = good.move_mouse,
            9 => reads.space_drag = good.space_drag,
            10 => reads.space_rotate = good.space_rotate,
            _ => reads.space_reset = good.space_reset,
        }
    }
    reads
}

fn loaded(count: usize) -> PointerState {
    let mut state = off();
    state.click = count > 0;
    state.grab = count > 1;
    if count > 2 {
        state.scroll_x = bits(0.25);
        state.scroll_y = bits(-0.5);
    }
    state.alt_click = count > 3;
    state.show_hide = count > 4;
    state.click_modifier_right = count > 5;
    state.toggle_dashboard = count > 6;
    state.click_modifier_middle = count > 7;
    state.move_mouse = count > 8;
    state.space_drag = count > 9;
    state.space_rotate = count > 10;
    state.space_reset = count > 11;
    state
}

fn sensitivity() -> ClickSensitivity {
    ClickSensitivity { press: bits(0.7), release: bits(0.5) }
}

fn xr_pointer() -> OpenXrPointer {
    OpenXrPointer::new(OpenXrHandSource::new("left", at(0)))
}

fn located(flags: u64, value: f32) -> Result<PoseRead, ReadError> {
    Ok(PoseRead { location_flags: flags, located: smoothed(value) })
}

#[test]
fn source_names_its_actions_by_side() {
    let source = OpenXrHandSource::new("right", at(0));
    assert_eq!(source.pose().name, "right_hand");
    assert_eq!(source.pose().localized, "right hand pose");
    assert_eq!(source.scroll().name, "right_scroll");
    assert_eq!(source.scroll().localized, "right hand scroll");
    assert_eq!(source.haptics().name, "right_haptics");
    assert_eq!(source.haptics().localized, "right hand haptics");
}

#[test]
fn source_has_the_eleven_click_actions() {
    let source = OpenXrHandSource::new("left", at(0));
    let expected = [
        (ClickSlot::Click, "left_0-click"),
        (ClickSlot::Grab, "left_0-grab"),
        (ClickSlot::AltClick, "left_0-alt_click"),
        (ClickSlot::ShowHide, "left_0-show_hide"),
        (ClickSlot::ToggleDashboard, "left_0-toggle_dashboard"),
        (ClickSlot::SpaceDrag, "left_0-space_drag"),
        (ClickSlot::SpaceRotate, "left_0-space_rotate"),
        (ClickSlot::SpaceReset, "left_0-space_reset"),
        (ClickSlot::ModifierRight, "left_0-click_modifier_right"),
        (ClickSlot::ModifierMiddle, "left_0-click_modifier_middle"),
        (ClickSlot::MoveMouse, "left_0-move_mouse"),
    ];
    for (slot, name) in expected {
        assert_eq!(source.click_action(slot).single().name(), name);
    }
    assert_eq!(
        source.click_action(ClickSlot::MoveMouse).triple().numeric_name(),
        "left_2-move_mouse_value"
    );
}

#[test]
fn pointer_state_is_switched_by_slot() {
    let mut state = off();
    state.switch(ClickSlot::ModifierRight, true);
    assert!(state.click_modifier_right);
    assert!(state.is_on(ClickSlot::ModifierRight));
    assert!(!state.is_on(ClickSlot::ModifierMiddle));
    state.switch(ClickSlot::ModifierRight, false);
    assert_eq!(state, off());
}

#[test]
fn readable_frame_is_loaded_whole() {
    let mut xr = xr_pointer();
    let mut p = pointer();
    assert_eq!(xr.pointer_load_actions(&mut p, &hand(true), sensitivity(), at(5000)), Ok(()));
    assert_eq!(p.now, loaded(12));
    assert_eq!(p.before, off());
    assert_eq!(xr.pointer_load_actions(&mut p, &hand(false), sensitivity(), at(5010)), Ok(()));
    let mut scrolled = off();
    scrolled.scroll_x = bits(0.25);
    scrolled.scroll_y = bits(-0.5);
    assert_eq!(p.now, scrolled);
}

#[test]
fn loading_stops_at_the_first_failure() {
    for count in 0..12usize {
        let mut xr = xr_pointer();
        let mut p = pointer();
        assert_eq!(
            xr.pointer_load_actions(&mut p, &failing_from(count), sensitivity(), at(5000)),
            Err(ReadError { code: -(count as i32) - 1 })
        );
        assert_eq!(p.now, loaded(count));
    }
}

#[test]
fn loading_keeps_the_pose_of_the_pointer() {
    let mut xr = xr_pointer();
    let mut p = pointer();
    p.is_tracked = true;
    p.handsfree = true;
    p.pose = pose(3.0);
    let expected = Pointer { now: loaded(12), ..p };
    assert_eq!(xr.pointer_load_actions(&mut p, &hand(true), sensitivity(), at(5000)), Ok(()));
    assert_eq!(p, expected);
}

#[test]
fn each_input_is_held_by_its_own_past() {
    let half = ClickReads {
        single: HandlerReads {
            action_bool: Ok(BoolRead { is_active: false, current_state: false }),
            action_f32: Ok(FloatRead { is_active: true, current_state: bits(0.6) }),
        },
        double: handler(false),
        triple: handler(false),
    };
    let mut reads = hand(false);
    reads.click = half;
    reads.grab = half;
    let mut xr = xr_pointer();
    let mut p = pointer();
    p.before.grab = true;
    assert_eq!(xr.pointer_load_actions(&mut p, &reads, sensitivity(), at(5000)), Ok(()));
    assert!(!p.now.click);
    assert!(p.now.grab);
}

#[test]
fn pose_needs_a_valid_orientation() {
    let mut p = pointer();
    assert_eq!(
        OpenXrPointer::pointer_load_pose(&mut p, &located(ORIENTATION_VALID, 2.0)),
        Ok(())
    );
    assert!(p.is_tracked);
    assert_eq!(p.raw_pose, pose(2.0));
    assert_eq!(p.pose, pose(2.5));

    assert_eq!(
        OpenXrPointer::pointer_load_pose(&mut p, &located(POSITION_VALID, 3.0)),
        Ok(())
    );
    assert!(!p.is_tracked);
    assert_eq!(p.raw_pose, pose(2.0));
    assert_eq!(p.pose, pose(2.5));
}

#[test]
fn failed_pose_changes_nothing() {
    let mut p = pointer();
    p.is_tracked = true;
    let before = p;
    let failure = ReadError { code: -50 };
    assert_eq!(OpenXrPointer::pointer_load_pose(&mut p, &Err(failure)), Err(failure));
    assert_eq!(p, before);
}

#[test]
fn update_loads_pose_and_actions() {
    let mut xr = xr_pointer();
    let mut p = pointer();
    p.handsfree = true;
    let reads = PointerReads { pose: located(ORIENTATION_VALID, 1.0), actions: hand(true) };
    assert_eq!(xr.update(&mut p, &reads, sensitivity(), at(5000)), Ok(()));
    assert!(p.interaction_enabled);
    assert!(!p.handsfree);
    assert!(p.is_tracked);
    assert_eq!(p.pose, pose(1.5));
    assert_eq!(p.now, loaded(12));
}

#[test]
fn update_without_a_pose_loads_no_actions() {
    let mut xr = xr_pointer();
    let mut p = pointer();
    p.handsfree = true;
    let reads = PointerReads { pose: Err(ReadError { code: -6 }), actions: hand(true) };
    assert_eq!(
        xr.update(&mut p, &reads, sensitivity(), at(5000)),
        Err(ReadError { code: -6 })
    );
    assert!(p.interaction_enabled);
    assert!(!p.handsfree);
    assert_eq!(p.now, off());
}

fn handsfree_reads() -> HandsfreeReads {
    HandsfreeReads {
        hmd: smoothed(7.0),
        eye: located(ORIENTATION_VALID, 8.0),
        actions: hand(true),
    }
}

fn handsfree(mode: HandsfreePointer, reads: &HandsfreeReads) -> (Pointer, Result<(), ReadError>) {
    let mut xr = xr_pointer();
    let mut p = pointer();
    let done = xr.update_handsfree(&mut p, mode, true, reads, sensitivity(), at(5000));
    (p, done)
}

#[test]
fn no_handsfree_pointer_means_no_change() {
    let (p, done) = handsfree(HandsfreePointer::Off, &handsfree_reads());
    assert_eq!(done, Ok(()));
    assert_eq!(p, pointer());
}

#[test]
fn head_moves_the_pointer() {
    let (p, done) = handsfree(HandsfreePointer::Hmd, &handsfree_reads());
    assert_eq!(done, Ok(()));
    assert_eq!(p.raw_pose, pose(7.0));
    assert_eq!(p.pose, pose(7.5));
    assert!(p.is_tracked && p.handsfree && p.interaction_enabled);
    assert_eq!(p.now, loaded(12));
}

#[test]
fn head_only_skips_the_actions() {
    let (p, done) = handsfree(HandsfreePointer::HmdOnly, &handsfree_reads());
    assert_eq!(done, Ok(()));
    assert_eq!(p.pose, pose(7.5));
    assert!(p.is_tracked && p.handsfree);
    assert_eq!(p.now, off());
}

#[test]
fn invalid_head_is_not_handsfree() {
    let mut xr = xr_pointer();
    let mut p = pointer();
    let done = xr.update_handsfree(
        &mut p,
        HandsfreePointer::Hmd,
        false,
        &handsfree_reads(),
        sensitivity(),
        at(5000),
    );
    assert_eq!(done, Ok(()));
    assert!(!p.is_tracked && !p.handsfree && p.interaction_enabled);
    assert_eq!(p.pose, pose(7.5));
}

#[test]
fn eyes_move_the_pointer() {
    let (p, done) = handsfree(HandsfreePointer::EyeTracking, &handsfree_reads());
    assert_eq!(done, Ok(()));
    assert_eq!(p.raw_pose, pose(8.0));
    assert_eq!(p.pose, pose(8.5));
    assert!(p.is_tracked && p.handsfree);
    assert_eq!(p.now, loaded(12));
    let (p, done) = handsfree(HandsfreePointer::EyeTrackingOnly, &handsfree_reads());
    assert_eq!(done, Ok(()));
    assert_eq!(p.pose, pose(8.5));
    assert_eq!(p.now, off());
}

#[test]
fn eyes_that_are_not_located_are_not_handsfree() {
    let mut reads = handsfree_reads();
    reads.eye = located(0, 8.0);
    let (p, done) = handsfree(HandsfreePointer::EyeTracking, &reads);
    assert_eq!(done, Ok(()));
    assert_eq!(p.pose, pose(0.0));
    assert!(!p.is_tracked && !p.handsfree && p.interaction_enabled);
    assert_eq!(p.now, loaded(12));
}

#[test]
fn eyes_that_fail_end_the_frame() {
    let mut reads = handsfree_reads();
    reads.eye = Err(ReadError { code: -9 });
    let (p, done) = handsfree(HandsfreePointer::EyeTracking, &reads);
    assert_eq!(done, Err(ReadError { code: -9 }));
    assert_eq!(p, pointer());
    let (p, done) = handsfree(HandsfreePointer::Hmd, &reads);
    assert_eq!(done, Ok(()));
    assert_eq!(p.now, loaded(12));
}

#[test]
fn failing_actions_fail_the_handsfree_pointer() {
    let mut reads = handsfree_reads();
    reads.actions = failing_from(3);
    let (p, done) = handsfree(HandsfreePointer::Hmd, &reads);
    assert_eq!(done, Err(ReadError { code: -4 }));
    assert_eq!(p.now, loaded(3));
    assert!(p.handsfree);
    let (_, done) = handsfree(HandsfreePointer::HmdOnly, &reads);
    assert_eq!(done, Ok(()));
}
