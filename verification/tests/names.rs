use xr_input::names::{
    compose_handler_name, compose_value_name, decimal_text, slot_text, ClickSlot,
};

fn slots() -> Vec<ClickSlot> {
    vec![
        ClickSlot::Click,
        ClickSlot::Grab,
        ClickSlot::AltClick,
        ClickSlot::ShowHide,
        ClickSlot::ToggleDashboard,
        ClickSlot::SpaceDrag,
        ClickSlot::SpaceRotate,
        ClickSlot::SpaceReset,
        ClickSlot::ModifierRight,
        ClickSlot::ModifierMiddle,
        ClickSlot::MoveMouse,
    ]
}

#[test]
fn slots_are_named_after_their_actions() {
    let names: Vec<&str> = slots().into_iter().map(slot_text).collect();
    assert_eq!(
        names,
        vec![
            "click",
            "grab",
            "alt_click",
            "show_hide",
            "toggle_dashboard",
            "space_drag",
            "space_rotate",
            "space_reset",
            "click_modifier_right",
            "click_modifier_middle",
            "move_mouse",
        ]
    );
}

#[test]
fn numbers_are_written_in_decimal() {
    for n in [0usize, 1, 2, 9, 10, 42, 99, 100, 1_000_000, usize::MAX] {
        assert_eq!(decimal_text(n), format!("{n}"));
    }
}

#[test]
fn handler_names_have_side_count_and_action() {
    assert_eq!(compose_handler_name("left", 0, "click"), "left_0-click");
    assert_eq!(
        compose_handler_name("handsfree", 2, "space_drag"),
        "handsfree_2-space_drag"
    );
    assert_eq!(compose_value_name("left_0-click"), "left_0-click_value");
}

#[test]
fn no_two_actions_share_a_name() {
    let mut names: Vec<String> = Vec::new();
    for side in ["left", "right", "handsfree"] {
        for slot in slots() {
            for count in 0..3usize {
                let name: String = compose_handler_name(side, count, slot_text(slot));
                names.push(compose_value_name(&name));
                names.push(name);
            }
        }
    }
    let all: usize = names.len();
    names.sort();
    names.dedup();
    assert_eq!(names.len(), all);
    assert_eq!(all, 3 * 11 * 3 * 2);
}
