use xr_input::names::ClickSlot;
use xr_input::profiles::{
    is_bool, keep_resolved, load_action_profiles, suggest_bindings, BindingTarget, ClickCount,
    OneOrMany, OpenXrActionConfAction, OpenXrActionConfProfile, PlannedBinding, ProfileOverrides,
    ResolvedBinding,
};

fn one(path: &str) -> Option<OneOrMany<String>> {
    Some(OneOrMany::One(path.to_string()))
}

fn many(paths: &[&str]) -> Option<OneOrMany<String>> {
    Some(OneOrMany::Many(paths.iter().map(|path| path.to_string()).collect()))
}

fn action(left: Option<OneOrMany<String>>) -> OpenXrActionConfAction {
    OpenXrActionConfAction {
        left,
        right: None,
        handsfree: None,
        threshold: None,
        double_click: None,
        triple_click: None,
    }
}

fn profile(name: &str) -> OpenXrActionConfProfile {
    OpenXrActionConfProfile {
        profile: name.to_string(),
        pose: None,
        click: None,
        grab: None,
        alt_click: None,
        show_hide: None,
        toggle_dashboard: None,
        space_drag: None,
        space_rotate: None,
        space_reset: None,
        click_modifier_right: None,
        click_modifier_middle: None,
        move_mouse: None,
        scroll: None,
        haptic: None,
    }
}

fn with_click(name: &str, path: &str) -> OpenXrActionConfProfile {
    let mut p = profile(name);
    p.click = Some(action(one(path)));
    p
}

fn click_path(p: &OpenXrActionConfProfile) -> String {
    match &p.click {
        Some(OpenXrActionConfAction { left: Some(OneOrMany::One(path)), .. }) => path.clone(),
        _ => String::new(),
    }
}

fn handler(slot: ClickSlot, count: ClickCount, numeric: bool) -> BindingTarget {
    BindingTarget::Handler { slot, count, numeric }
}

fn listed(plan: &[PlannedBinding]) -> Vec<(usize, BindingTarget, String)> {
    plan.iter().map(|b| (b.hand, b.target, b.path.clone())).collect()
}

fn entry(hand: usize, target: BindingTarget, path: &str) -> (usize, BindingTarget, String) {
    (hand, target, path.to_string())
}

#[test]
fn last_segment_tells_a_boolean_path() {
    assert!(is_bool("/user/hand/left/input/a/click"));
    assert!(is_bool("/user/hand/left/input/thumbrest/touch"));
    assert!(is_bool("/user/hand/left/input/thumbstick/dpad_up"));
    assert!(is_bool("/user/hand/left/input/thumbstick/dpad_"));
    assert!(!is_bool("/user/hand/left/input/trigger/value"));
    assert!(!is_bool("/user/hand/left/input/squeeze/force"));
    assert!(!is_bool("/user/hand/left/input/click/"));
    assert!(!is_bool("/user/hand/left/input/click/value"));
    assert!(!is_bool("/user/hand/left/input/dpad"));
    assert!(!is_bool("/user/hand/left/input/xdpad_up"));
    assert!(!is_bool("/user/hand/left/input/clicks"));
    assert!(is_bool("click"));
    assert!(is_bool("touch"));
    assert!(is_bool("dpad_left"));
    assert!(!is_bool(""));
    assert!(!is_bool("/"));
}

#[test]
fn empty_profile_has_no_bindings() {
    assert!(profile("/p").plan_bindings().is_empty());
}

#[test]
fn bindings_come_in_the_order_of_actions_hands_and_paths() {
    let mut p = profile("/p");
    p.move_mouse = Some(action(one("/mm/touch")));
    p.click_modifier_middle = Some(action(one("/middle/value")));
    p.click_modifier_right = Some(action(one("/right/value")));
    p.space_reset = Some(action(one("/sreset/click")));
    p.space_rotate = Some(action(one("/srot/click")));
    p.space_drag = Some(action(one("/sdrag/click")));
    p.toggle_dashboard = Some(action(one("/dash/click")));
    p.show_hide = Some(action(one("/show/click")));
    p.grab = Some(action(one("/grab/value")));
    p.alt_click = Some(action(one("/alt/click")));
    p.click = Some(action(many(&["/t/value", "/t/click"])));
    p.scroll = Some(action(one("/stick")));
    p.haptic = Some(action(one("/haptic")));
    p.pose = Some(OpenXrActionConfAction {
        left: one("/l/pose"),
        right: one("/r/pose"),
        handsfree: many(&["/eyes", "/gaze"]),
        threshold: None,
        double_click: None,
        triple_click: None,
    });
    let single = ClickCount::Single;
    assert_eq!(
        listed(&p.plan_bindings()),
        vec![
            entry(0, BindingTarget::Pose, "/l/pose"),
            entry(1, BindingTarget::Pose, "/r/pose"),
            entry(2, BindingTarget::Pose, "/eyes"),
            entry(2, BindingTarget::Pose, "/gaze"),
            entry(0, BindingTarget::Haptics, "/haptic"),
            entry(0, BindingTarget::Scroll, "/stick"),
            entry(0, handler(ClickSlot::Click, single, true), "/t/value"),
            entry(0, handler(ClickSlot::Click, single, false), "/t/click"),
            entry(0, handler(ClickSlot::AltClick, single, false), "/alt/click"),
            entry(0, handler(ClickSlot::Grab, single, true), "/grab/value"),
            entry(0, handler(ClickSlot::ShowHide, single, false), "/show/click"),
            entry(0, handler(ClickSlot::ToggleDashboard, single, false), "/dash/click"),
            entry(0, handler(ClickSlot::SpaceDrag, single, false), "/sdrag/click"),
            entry(0, handler(ClickSlot::SpaceRotate, single, false), "/srot/click"),
            entry(0, handler(ClickSlot::SpaceReset, single, false), "/sreset/click"),
            entry(0, handler(ClickSlot::ModifierRight, single, true), "/right/value"),
            entry(0, handler(ClickSlot::ModifierMiddle, single, true), "/middle/value"),
            entry(0, handler(ClickSlot::MoveMouse, single, false), "/mm/touch"),
        ]
    );
}

#[test]
fn click_count_follows_the_settings() {
    let cases = [
        (None, None, ClickCount::Single),
        (Some(false), Some(false), ClickCount::Single),
        (Some(true), None, ClickCount::Double),
        (Some(true), Some(false), ClickCount::Double),
        (None, Some(true), ClickCount::Triple),
        (Some(true), Some(true), ClickCount::Triple),
    ];
    for (double_click, triple_click, count) in cases {
        let mut p = profile("/p");
        p.grab = Some(OpenXrActionConfAction {
            left: None,
            right: many(&["/a/click", "/b/value"]),
            handsfree: None,
            threshold: None,
            double_click,
            triple_click,
        });
        assert_eq!(
            listed(&p.plan_bindings()),
            vec![
                entry(1, handler(ClickSlot::Grab, count, false), "/a/click"),
                entry(1, handler(ClickSlot::Grab, count, true), "/b/value"),
            ]
        );
    }
}

#[test]
fn click_count_does_not_matter_to_poses() {
    let mut p = profile("/p");
    p.scroll = Some(OpenXrActionConfAction {
        left: one("/s/click"),
        right: None,
        handsfree: None,
        threshold: None,
        double_click: Some(true),
        triple_click: Some(true),
    });
    assert_eq!(
        listed(&p.plan_bindings()),
        vec![entry(0, BindingTarget::Scroll, "/s/click")]
    );
}

#[test]
fn only_known_paths_are_bound() {
    let mut p = profile("/p");
    p.click = Some(action(many(&["/a/click", "/b/click", "/c/value"])));
    let plan = p.plan_bindings();
    let bound = keep_resolved(&plan, &vec![Some(11), None, Some(13)]);
    assert_eq!(
        bound,
        vec![
            ResolvedBinding {
                hand: 0,
                target: handler(ClickSlot::Click, ClickCount::Single, false),
                path: 11,
            },
            ResolvedBinding {
                hand: 0,
                target: handler(ClickSlot::Click, ClickCount::Single, true),
                path: 13,
            },
        ]
    );
}

#[test]
fn only_known_profiles_get_bindings() {
    let profiles = vec![
        with_click("/one", "/a/click"),
        with_click("/two", "/b/click"),
        profile("/three"),
    ];
    let list = suggest_bindings(&profiles, &vec![Some(5), None, Some(7)]);
    assert_eq!(list.len(), 2);
    assert_eq!((list[0].profile, list[0].profile_path), (0, 5));
    assert_eq!(
        listed(&list[0].plan),
        vec![entry(0, handler(ClickSlot::Click, ClickCount::Single, false), "/a/click")]
    );
    assert_eq!((list[1].profile, list[1].profile_path), (2, 7));
    assert!(list[1].plan.is_empty());
}

#[test]
fn defaults_stand_without_overrides() {
    let names = |profiles: Vec<OpenXrActionConfProfile>| -> Vec<String> {
        profiles.into_iter().map(|p| p.profile).collect()
    };
    let defaults = || vec![profile("/a"), profile("/b")];
    assert_eq!(
        names(load_action_profiles(defaults(), ProfileOverrides::Absent)),
        vec!["/a", "/b"]
    );
    assert_eq!(
        names(load_action_profiles(defaults(), ProfileOverrides::Invalid)),
        vec!["/a", "/b"]
    );
    assert_eq!(
        names(load_action_profiles(defaults(), ProfileOverrides::Profiles(vec![]))),
        vec!["/a", "/b"]
    );
}

#[test]
fn overrides_replace_or_follow_the_defaults() {
    let profiles = load_action_profiles(
        vec![with_click("/a", "/old/a"), with_click("/b", "/old/b"), with_click("/a", "/old/a2")],
        ProfileOverrides::Profiles(vec![
            with_click("/c", "/new/c"),
            with_click("/a", "/new/a"),
            with_click("/c", "/newer/c"),
        ]),
    );
    let seen: Vec<(String, String)> = profiles
        .iter()
        .map(|p| (p.profile.clone(), click_path(p)))
        .collect();
    let expected: Vec<(String, String)> = vec![
        ("/a".to_string(), "/new/a".to_string()),
        ("/b".to_string(), "/old/b".to_string()),
        ("/a".to_string(), "/old/a2".to_string()),
        ("/c".to_string(), "/newer/c".to_string()),
    ];
    assert_eq!(seen, expected);
}
