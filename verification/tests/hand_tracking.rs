use xr_input::click::ReadError;
use xr_input::float_bits::FloatBits;
use xr_input::hand_tracking::{
    apply_derived_hand_input, hand_name, DerivedHandInput, HandEvent, HandLog,
    OpenXrHandTracking, Toast, ToastTopic, CLICK_GRAB_LIMIT, GRAB_PRESS, GRAB_RELEASE, HOLD_NANOS,
    LOG_INTERVAL_NANOS, OPEN_HAND_LIMIT, PINCH_PRESS, PINCH_RELEASE, PROGRESS_TIMEOUT,
    STAGE_MILLIS, TOGGLE_INTERVAL_NANOS,
};
use xr_input::location::{Mat3, Pose, Vec3};
use xr_input::moment::Moment;
use xr_input::pointer::{Pointer, PointerState};

fn bits(value: f32) -> FloatBits {
    FloatBits::new(value.to_bits())
}

fn at(millis: i64) -> Moment {
    Moment::new(millis * 1_000_000)
}

fn pose(value: f32) -> Pose {
    let v = Vec3 { x: bits(value), y: bits(value), z: bits(value) };
    Pose { matrix3: Mat3 { x_axis: v, y_axis: v, z_axis: v }, translation: v }
}

fn state(on: bool) -> PointerState {
    PointerState {
        click: on,
        grab: on,
        alt_click: on,
        show_hide: on,
        toggle_dashboard: on,
        space_drag: on,
        space_rotate: on,
        space_reset: on,
        click_modifier_right: on,
        click_modifier_middle: on,
        move_mouse: on,
        scroll_x: bits(if on { 1.0 } else { 0.0 }),
        scroll_y: bits(if on { -1.0 } else { 0.0 }),
    }
}

fn pointer() -> Pointer {
    Pointer {
        raw_pose: pose(0.0),
        pose: pose(0.5),
        is_tracked: false,
        handsfree: true,
        interaction_enabled: true,
        now: state(true),
        before: state(false),
    }
}

fn derived(pinch: f32, grab: f32, palm_up: bool) -> DerivedHandInput {
    DerivedHandInput {
        pose: pose(9.0),
        pinch_strength: bits(pinch),
        grab_strength: bits(grab),
        palm_up,
    }
}

fn palm() -> DerivedHandInput {
    derived(0.0, 0.0, true)
}

fn applied(pinch: f32, grab: f32, before: bool, enabled: bool) -> Pointer {
    let mut p = pointer();
    p.before = state(before);
    apply_derived_hand_input(&mut p, &derived(pinch, grab, false), false, enabled);
    p
}

fn tracking() -> OpenXrHandTracking {
    OpenXrHandTracking::new(true, true, at(0)).unwrap()
}

struct Gesture {
    tracking: OpenXrHandTracking,
    pointers: [Pointer; 2],
    toasts: Vec<Toast>,
}

impl Gesture {
    fn new() -> Gesture {
        Gesture { tracking: tracking(), pointers: [pointer(), pointer()], toasts: Vec::new() }
    }

    fn frame(&mut self, millis: i64, hands: [DerivedHandInput; 2]) {
        self.tracking.update_interaction_toggle(
            &mut self.pointers,
            &[Some((false, hands[0])), Some((true, hands[1]))],
            at(millis),
            &mut self.toasts,
        );
    }

    fn titles(&self) -> Vec<String> {
        self.toasts.iter().map(|toast| toast.title.clone()).collect()
    }
}

#[test]
fn hands_have_names() {
    assert_eq!(hand_name(0), "left");
    assert_eq!(hand_name(1), "right");
    assert_eq!(hand_name(2), "unknown");
    assert_eq!(hand_name(usize::MAX), "unknown");
}

#[test]
fn limits_of_the_gestures_are_the_bits_of_their_numbers() {
    assert_eq!(OPEN_HAND_LIMIT, 0.15f32.to_bits());
    assert_eq!(PINCH_PRESS, 0.78f32.to_bits());
    assert_eq!(PINCH_RELEASE, 0.65f32.to_bits());
    assert_eq!(CLICK_GRAB_LIMIT, 0.65f32.to_bits());
    assert_eq!(GRAB_PRESS, 0.72f32.to_bits());
    assert_eq!(GRAB_RELEASE, 0.60f32.to_bits());
    assert_eq!(PROGRESS_TIMEOUT, 0.45f32.to_bits());
    assert_eq!(LOG_INTERVAL_NANOS, 2_000_000_000);
    assert_eq!(HOLD_NANOS, 1_400_000_000);
    assert_eq!(TOGGLE_INTERVAL_NANOS, 2_000_000_000);
    assert_eq!(STAGE_MILLIS, 350);
}

#[test]
fn pinch_clicks_from_its_limits_on() {
    assert!(applied(0.78, 0.0, false, true).now.click);
    assert!(!applied(0.77, 0.0, false, true).now.click);
    assert!(applied(0.65, 0.0, true, true).now.click);
    assert!(!applied(0.64, 0.0, true, true).now.click);
    assert!(!applied(f32::NAN, 0.0, true, true).now.click);
}

#[test]
fn grabbing_hand_does_not_click() {
    assert!(applied(1.0, 0.64, false, true).now.click);
    assert!(!applied(1.0, 0.65, false, true).now.click);
}

#[test]
fn closed_hand_grabs_from_its_limits_on() {
    assert!(applied(0.0, 0.72, false, true).now.grab);
    assert!(!applied(0.0, 0.71, false, true).now.grab);
    assert!(applied(0.0, 0.60, true, true).now.grab);
    assert!(!applied(0.0, 0.59, true, true).now.grab);
}

#[test]
fn click_that_just_began_is_no_grab() {
    for grab in [0.0f32, 0.3, 0.6, 0.64, 0.65, 0.7, 0.72, 0.8, 1.0] {
        let p = applied(1.0, grab, false, true);
        assert!(!(p.now.click && p.now.grab));
    }
    let held = applied(1.0, 0.62, true, true);
    assert!(held.now.click && held.now.grab);
}

#[test]
fn disabled_interaction_turns_everything_off() {
    let p = applied(1.0, 1.0, true, false);
    assert_eq!(p.now, state(false));
    assert!(!p.interaction_enabled);
    assert!(!p.handsfree);
}

#[test]
fn bare_hand_knows_click_and_grab_only() {
    let p = applied(0.0, 1.0, false, true);
    let mut expected = state(false);
    expected.grab = true;
    assert_eq!(p.now, expected);
    assert!(p.interaction_enabled && !p.handsfree);
}

#[test]
fn pose_comes_from_the_joints_only_where_there_is_no_other() {
    let mut p = pointer();
    apply_derived_hand_input(&mut p, &palm(), true, true);
    assert!(p.is_tracked);
    assert_eq!((p.raw_pose, p.pose), (pose(9.0), pose(9.0)));
    let mut p = pointer();
    apply_derived_hand_input(&mut p, &palm(), false, true);
    assert!(!p.is_tracked);
    assert_eq!((p.raw_pose, p.pose), (pose(0.0), pose(0.5)));
}

#[test]
fn both_trackers_are_needed() {
    assert!(OpenXrHandTracking::new(true, false, at(0)).is_none());
    assert!(OpenXrHandTracking::new(false, true, at(0)).is_none());
    assert!(OpenXrHandTracking::new(false, false, at(0)).is_none());
    assert!(OpenXrHandTracking::new(true, true, at(0)).unwrap().interaction_enabled());
}

#[test]
fn held_palms_switch_the_interaction() {
    let mut gesture = Gesture::new();
    gesture.frame(3000, [palm(), palm()]);
    assert_eq!(gesture.titles(), Vec::<String>::new());
    gesture.frame(3349, [palm(), palm()]);
    assert_eq!(gesture.titles(), Vec::<String>::new());
    gesture.frame(3350, [palm(), palm()]);
    gesture.frame(3400, [palm(), palm()]);
    assert_eq!(gesture.titles(), vec!["◔ Hand toggle"]);
    gesture.frame(3700, [palm(), palm()]);
    gesture.frame(4050, [palm(), palm()]);
    gesture.frame(4399, [palm(), palm()]);
    assert_eq!(gesture.titles(), vec!["◔ Hand toggle", "◑ Hand toggle", "◕ Hand toggle"]);
    assert!(gesture.tracking.interaction_enabled());
    assert_eq!(gesture.pointers, [pointer(), pointer()]);
    gesture.frame(4400, [palm(), palm()]);
    assert_eq!(
        gesture.titles(),
        vec!["◔ Hand toggle", "◑ Hand toggle", "◕ Hand toggle", "● Hand toggle", "Hand input"]
    );
    assert!(!gesture.tracking.interaction_enabled());
    for p in gesture.pointers {
        assert!(!p.interaction_enabled);
        assert_eq!(p.now, state(false));
    }
    let progress = &gesture.toasts[0];
    assert_eq!(progress.topic, ToastTopic::DesktopNotification);
    assert_eq!(progress.body, "Hold both palms up");
    assert_eq!(progress.timeout, Some(bits(0.45)));
    let switch = &gesture.toasts[4];
    assert_eq!(switch.topic, ToastTopic::DesktopNotification);
    assert_eq!(switch.body, "Hand interaction disabled");
    assert_eq!(switch.timeout, None);
}

#[test]
fn second_gesture_switches_back() {
    let mut gesture = Gesture::new();
    gesture.frame(3000, [palm(), palm()]);
    gesture.frame(4400, [palm(), palm()]);
    assert!(!gesture.tracking.interaction_enabled());
    gesture.frame(4410, [palm(), palm()]);
    gesture.frame(5900, [palm(), palm()]);
    assert!(!gesture.tracking.interaction_enabled());
    gesture.frame(6399, [palm(), palm()]);
    assert!(!gesture.tracking.interaction_enabled());
    gesture.frame(6400, [palm(), palm()]);
    assert!(gesture.tracking.interaction_enabled());
    assert_eq!(gesture.toasts.last().unwrap().body, "Hand interaction enabled");
}

#[test]
fn switch_is_not_possible_right_after_the_start() {
    let mut gesture = Gesture::new();
    gesture.frame(0, [palm(), palm()]);
    gesture.frame(1999, [palm(), palm()]);
    assert!(gesture.tracking.interaction_enabled());
    assert_eq!(gesture.titles(), vec!["● Hand toggle"]);
    gesture.frame(2000, [palm(), palm()]);
    assert!(!gesture.tracking.interaction_enabled());
}

#[test]
fn lowered_palm_ends_the_gesture() {
    for lowered in [
        derived(0.0, 0.0, false),
        derived(0.15, 0.0, true),
        derived(0.0, 0.15, true),
        derived(f32::NAN, 0.0, true),
    ] {
        let mut gesture = Gesture::new();
        gesture.frame(3000, [palm(), palm()]);
        gesture.frame(4300, [palm(), lowered]);
        gesture.frame(4400, [palm(), palm()]);
        assert!(gesture.tracking.interaction_enabled());
        gesture.frame(5799, [palm(), palm()]);
        assert!(gesture.tracking.interaction_enabled());
        gesture.frame(5800, [palm(), palm()]);
        assert!(!gesture.tracking.interaction_enabled());
    }
}

#[test]
fn one_hand_is_not_enough() {
    let mut t = tracking();
    let mut pointers = [pointer(), pointer()];
    let mut toasts: Vec<Toast> = Vec::new();
    for millis in [3000, 4000, 5000] {
        t.update_interaction_toggle(
            &mut pointers,
            &[Some((false, palm())), None],
            at(millis),
            &mut toasts,
        );
    }
    assert!(t.interaction_enabled());
    assert!(toasts.is_empty());
}

fn update(
    t: &mut OpenXrHandTracking,
    pointers: &mut [Pointer; 2],
    events: [HandEvent; 2],
    millis: i64,
) -> (bool, Vec<HandLog>) {
    let mut toasts: Vec<Toast> = Vec::new();
    let mut logs: Vec<HandLog> = Vec::new();
    let any = t.update(pointers, &events, at(millis), &mut toasts, &mut logs);
    (any, logs)
}

#[test]
fn bare_hand_takes_over_where_there_is_no_pose() {
    let mut t = tracking();
    let mut pointers = [pointer(), pointer()];
    pointers[1].is_tracked = true;
    let events = [
        HandEvent::Derived(derived(0.8, 0.0, false)),
        HandEvent::Derived(derived(0.0, 0.8, false)),
    ];
    let (any, logs) = update(&mut t, &mut pointers, events, 100);
    assert!(any);
    assert_eq!(pointers[0].pose, pose(9.0));
    assert!(pointers[0].is_tracked && pointers[0].now.click && !pointers[0].now.grab);
    assert_eq!(pointers[1].pose, pose(0.5));
    assert!(pointers[1].is_tracked && pointers[1].now.grab && !pointers[1].now.click);
    assert_eq!(
        logs,
        vec![
            HandLog { hand: 0, had_pose: false, event: events[0] },
            HandLog { hand: 1, had_pose: true, event: events[1] },
        ]
    );
}

#[test]
fn hand_without_joints_stays_as_it_is() {
    let mut t = tracking();
    for event in [
        HandEvent::Missing,
        HandEvent::Lacking,
        HandEvent::Failed(ReadError { code: -1 }),
    ] {
        let mut pointers = [pointer(), pointer()];
        let (any, logs) = update(&mut t, &mut pointers, [event, event], 100);
        assert!(!any);
        assert!(logs.is_empty());
        assert_eq!(pointers, [pointer(), pointer()]);
        pointers[1].is_tracked = true;
        let (any, _) = update(&mut t, &mut pointers, [event, event], 110);
        assert!(any);
    }
}

#[test]
fn success_is_logged_once_for_each_hand() {
    let mut t = tracking();
    let mut pointers = [pointer(), pointer()];
    let good = HandEvent::Derived(derived(0.0, 0.0, false));
    let (_, logs) = update(&mut t, &mut pointers, [good, HandEvent::Missing], 100);
    assert_eq!(logs.len(), 1);
    let (_, logs) = update(&mut t, &mut pointers, [good, good], 110);
    assert_eq!(logs, vec![HandLog { hand: 1, had_pose: false, event: good }]);
    let (_, logs) = update(&mut t, &mut pointers, [good, good], 60_000);
    assert!(logs.is_empty());
}

#[test]
fn trouble_is_logged_every_two_seconds() {
    let mut t = tracking();
    let mut pointers = [pointer(), pointer()];
    let failed = HandEvent::Failed(ReadError { code: -1 });
    let events = [HandEvent::Missing, failed];
    let mut counts: Vec<usize> = Vec::new();
    for millis in [0, 1999, 2000, 2001, 3999, 4000] {
        counts.push(update(&mut t, &mut pointers, events, millis).1.len());
    }
    assert_eq!(counts, vec![0, 0, 2, 0, 0, 2]);
}

#[test]
fn missing_and_lacking_joints_share_a_clock() {
    let mut t = tracking();
    let mut pointers = [pointer(), pointer()];
    let failed = HandEvent::Failed(ReadError { code: -1 });
    let good = HandEvent::Derived(derived(0.0, 0.0, false));
    update(&mut t, &mut pointers, [good, good], 10);
    let (_, logs) = update(&mut t, &mut pointers, [HandEvent::Lacking, good], 2000);
    assert_eq!(logs, vec![HandLog { hand: 0, had_pose: true, event: HandEvent::Lacking }]);
    let (_, logs) = update(&mut t, &mut pointers, [HandEvent::Missing, good], 2500);
    assert!(logs.is_empty());
    let (_, logs) = update(&mut t, &mut pointers, [failed, good], 2600);
    assert_eq!(logs, vec![HandLog { hand: 0, had_pose: true, event: failed }]);
}

#[test]
fn switched_off_hands_do_nothing() {
    let mut t = tracking();
    let mut pointers = [pointer(), pointer()];
    let shown = HandEvent::Derived(palm());
    update(&mut t, &mut pointers, [shown, shown], 3000);
    let mut toasts: Vec<Toast> = Vec::new();
    let mut logs: Vec<HandLog> = Vec::new();
    assert!(t.update(&mut pointers, &[shown, shown], at(4400), &mut toasts, &mut logs));
    assert_eq!(toasts.len(), 2);
    assert!(!t.interaction_enabled());
    let pinched = HandEvent::Derived(derived(1.0, 0.0, false));
    update(&mut t, &mut pointers, [pinched, pinched], 4410);
    for p in pointers {
        assert!(!p.interaction_enabled);
        assert_eq!(p.now, state(false));
    }
}
