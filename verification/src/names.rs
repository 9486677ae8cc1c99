//! The names under which actions are registered with the runtime.

use vstd::prelude::*;

verus! {

/// The click-like actions of one hand.
#[derive(Clone, Copy, Debug, PartialEq, Eq, Structural)]
pub enum ClickSlot {
    Click,
    Grab,
    AltClick,
    ShowHide,
    ToggleDashboard,
    SpaceDrag,
    SpaceRotate,
    SpaceReset,
    ModifierRight,
    ModifierMiddle,
    MoveMouse,
}

/// The part of an action's name that tells the slots apart.
pub open spec fn slot_label(slot: ClickSlot) -> Seq<char> {
    match slot {
        ClickSlot::Click => "click"@,
        ClickSlot::Grab => "grab"@,
        ClickSlot::AltClick => "alt_click"@,
        ClickSlot::ShowHide => "show_hide"@,
        ClickSlot::ToggleDashboard => "toggle_dashboard"@,
        ClickSlot::SpaceDrag => "space_drag"@,
        ClickSlot::SpaceRotate => "space_rotate"@,
        ClickSlot::SpaceReset => "space_reset"@,
        ClickSlot::ModifierRight => "click_modifier_right"@,
        ClickSlot::ModifierMiddle => "click_modifier_middle"@,
        ClickSlot::MoveMouse => "move_mouse"@,
    }
}

/// The character of a decimal digit.
pub open spec fn digit(n: nat) -> char {
    if n == 0 {
        '0'
    } else if n == 1 {
        '1'
    } else if n == 2 {
        '2'
    } else if n == 3 {
        '3'
    } else if n == 4 {
        '4'
    } else if n == 5 {
        '5'
    } else if n == 6 {
        '6'
    } else if n == 7 {
        '7'
    } else if n == 8 {
        '8'
    } else {
        '9'
    }
}

/// The decimal notation of a number, without leading zeros.
pub open spec fn decimal(n: nat) -> Seq<char>
    decreases n,
{
    if n < 10 {
        seq![digit(n)]
    } else {
        decimal(n / 10).push(digit(n % 10))
    }
}

/// The name of the boolean action of a multi-click handler.
pub open spec fn handler_name(side: Seq<char>, count: nat, action: Seq<char>) -> Seq<char> {
    side + "_"@ + decimal(count) + "-"@ + action
}

/// The name of the action that reports the same input as a number.
pub open spec fn value_name(name: Seq<char>) -> Seq<char> {
    name + "_value"@
}

fn digit_text(n: usize) -> (text: &'static str)
    requires
        n < 10,
    ensures
        text@ == seq![digit(n as nat)],
{
    proof {
        reveal_strlit("0");
        reveal_strlit("1");
        reveal_strlit("2");
        reveal_strlit("3");
        reveal_strlit("4");
        reveal_strlit("5");
        reveal_strlit("6");
        reveal_strlit("7");
        reveal_strlit("8");
        reveal_strlit("9");
    }
    match n {
        0 => "0",
        1 => "1",
        2 => "2",
        3 => "3",
        4 => "4",
        5 => "5",
        6 => "6",
        7 => "7",
        8 => "8",
        _ => "9",
    }
}

/// Writes a number in decimal notation.
pub fn decimal_text(n: usize) -> (text: String)
    ensures
        text@ == decimal(n as nat),
    decreases n,
{
    if n < 10 {
        digit_text(n).to_owned()
    } else {
        let mut text: String = decimal_text(n / 10);
        text.append(digit_text(n % 10));
        text
    }
}

/// The label of a slot.
pub fn slot_text(slot: ClickSlot) -> (text: &'static str)
    ensures
        text@ == slot_label(slot),
{
    match slot {
        ClickSlot::Click => "click",
        ClickSlot::Grab => "grab",
        ClickSlot::AltClick => "alt_click",
        ClickSlot::ShowHide => "show_hide",
        ClickSlot::ToggleDashboard => "toggle_dashboard",
        ClickSlot::SpaceDrag => "space_drag",
        ClickSlot::SpaceRotate => "space_rotate",
        ClickSlot::SpaceReset => "space_reset",
        ClickSlot::ModifierRight => "click_modifier_right",
        ClickSlot::ModifierMiddle => "click_modifier_middle",
        ClickSlot::MoveMouse => "move_mouse",
    }
}

/// Composes the name of a handler's boolean action.
pub fn compose_handler_name(side: &str, count: usize, action: &str) -> (name: String)
    ensures
        name@ == handler_name(side@, count as nat, action@),
{
    let mut name: String = side.to_owned();
    name.append("_");
    name.append(decimal_text(count).as_str());
    name.append("-");
    name.append(action);
    name
}

/// Composes the name of a handler's numeric action.
pub fn compose_value_name(name: &str) -> (full: String)
    ensures
        full@ == value_name(name@),
{
    let mut full: String = name.to_owned();
    full.append("_value");
    full
}

/// An action of one side.
pub ghost enum SideAction {
    Pose,
    Scroll,
    Haptics,
    /// A handler of a click-like action: its numeric action, or its boolean one.
    Handler { slot: ClickSlot, count: nat, numeric: bool },
}

/// The name of an action of one side.
pub open spec fn action_name(side: Seq<char>, action: SideAction) -> Seq<char> {
    match action {
        SideAction::Pose => side + "_hand"@,
        SideAction::Scroll => side + "_scroll"@,
        SideAction::Haptics => side + "_haptics"@,
        SideAction::Handler { slot, count, numeric } => {
            let name = handler_name(side, count, slot_label(slot));
            if numeric {
                value_name(name)
            } else {
                name
            }
        },
    }
}

spec fn label_len(slot: ClickSlot) -> int {
    match slot {
        ClickSlot::Click => 5,
        ClickSlot::Grab => 4,
        ClickSlot::AltClick => 9,
        ClickSlot::ShowHide => 9,
        ClickSlot::ToggleDashboard => 16,
        ClickSlot::SpaceDrag => 10,
        ClickSlot::SpaceRotate => 12,
        ClickSlot::SpaceReset => 11,
        ClickSlot::ModifierRight => 20,
        ClickSlot::ModifierMiddle => 21,
        ClickSlot::MoveMouse => 10,
    }
}

spec fn label_initial(slot: ClickSlot) -> char {
    match slot {
        ClickSlot::Click => 'c',
        ClickSlot::Grab => 'g',
        ClickSlot::AltClick => 'a',
        ClickSlot::ShowHide => 's',
        ClickSlot::ToggleDashboard => 't',
        ClickSlot::SpaceDrag => 's',
        ClickSlot::SpaceRotate => 's',
        ClickSlot::SpaceReset => 's',
        ClickSlot::ModifierRight => 'c',
        ClickSlot::ModifierMiddle => 'c',
        ClickSlot::MoveMouse => 'm',
    }
}

proof fn lemma_label(slot: ClickSlot)
    ensures
        slot_label(slot).len() == label_len(slot),
        slot_label(slot)[0] == label_initial(slot),
{
    reveal_strlit("click");
    reveal_strlit("grab");
    reveal_strlit("alt_click");
    reveal_strlit("show_hide");
    reveal_strlit("toggle_dashboard");
    reveal_strlit("space_drag");
    reveal_strlit("space_rotate");
    reveal_strlit("space_reset");
    reveal_strlit("click_modifier_right");
    reveal_strlit("click_modifier_middle");
    reveal_strlit("move_mouse");
}

/// A label, with or without the ending of numeric actions.
spec fn labelled(slot: ClickSlot, numeric: bool) -> Seq<char> {
    if numeric {
        slot_label(slot) + "_value"@
    } else {
        slot_label(slot)
    }
}

proof fn lemma_labelled_distinct(a: ClickSlot, a_numeric: bool, b: ClickSlot, b_numeric: bool)
    requires
        labelled(a, a_numeric) == labelled(b, b_numeric),
    ensures
        a == b,
        a_numeric == b_numeric,
{
    lemma_label(a);
    lemma_label(b);
    reveal_strlit("_value");
    assert(labelled(a, a_numeric)[0] == label_initial(a));
    assert(labelled(b, b_numeric)[0] == label_initial(b));
    assert(labelled(a, a_numeric).len() == label_len(a) + (if a_numeric { 6int } else { 0 }));
    assert(labelled(b, b_numeric).len() == label_len(b) + (if b_numeric { 6int } else { 0 }));
}

/// What follows the side in the name of an action.
spec fn ending(action: SideAction) -> Seq<char> {
    match action {
        SideAction::Pose => "_hand"@,
        SideAction::Scroll => "_scroll"@,
        SideAction::Haptics => "_haptics"@,
        SideAction::Handler { slot, count, numeric } => seq!['_', digit(count), '-'] + labelled(
            slot,
            numeric,
        ),
    }
}

proof fn lemma_ending(side: Seq<char>, action: SideAction)
    requires
        action matches SideAction::Handler { count, .. } ==> count <= 2,
    ensures
        action_name(side, action) == side + ending(action),
{
    reveal_strlit("_");
    reveal_strlit("-");
    if let SideAction::Handler { slot, count, numeric } = action {
        assert(decimal(count) == seq![digit(count)]);
        assert(action_name(side, action) =~= side + ending(action));
    }
}

/// The actions of one side all have different names.
pub proof fn names_of_a_side_are_distinct(side: Seq<char>, a: SideAction, b: SideAction)
    requires
        a matches SideAction::Handler { count, .. } ==> count <= 2,
        b matches SideAction::Handler { count, .. } ==> count <= 2,
        action_name(side, a) == action_name(side, b),
    ensures
        a == b,
{
    lemma_ending(side, a);
    lemma_ending(side, b);
    let n = side.len() as int;
    assert((side + ending(a)).skip(n) =~= ending(a));
    assert((side + ending(b)).skip(n) =~= ending(b));
    reveal_strlit("_hand");
    reveal_strlit("_scroll");
    reveal_strlit("_haptics");
    match (a, b) {
        (
            SideAction::Handler { slot: a_slot, count: a_count, numeric: a_numeric },
            SideAction::Handler { slot: b_slot, count: b_count, numeric: b_numeric },
        ) => {
            assert(ending(a)[1] == digit(a_count));
            assert(ending(b)[1] == digit(b_count));
            assert(ending(a).skip(3) =~= labelled(a_slot, a_numeric));
            assert(ending(b).skip(3) =~= labelled(b_slot, b_numeric));
            lemma_labelled_distinct(a_slot, a_numeric, b_slot, b_numeric);
        },
        (SideAction::Handler { count, .. }, _) => {
            assert(ending(a)[1] == digit(count));
            assert(ending(b)[1] == 'h' || ending(b)[1] == 's');
        },
        (_, SideAction::Handler { count, .. }) => {
            assert(ending(b)[1] == digit(count));
            assert(ending(a)[1] == 'h' || ending(a)[1] == 's');
        },
        _ => {
            assert(ending(a).len() == ending(b).len());
        },
    }
}

/// Actions of the left hand, of the right hand and of the pointer without hands never
/// share a name.
pub proof fn names_of_sides_are_distinct(a: SideAction, b: SideAction)
    requires
        a matches SideAction::Handler { count, .. } ==> count <= 2,
        b matches SideAction::Handler { count, .. } ==> count <= 2,
    ensures
        action_name("left"@, a) != action_name("right"@, b),
        action_name("left"@, a) != action_name("handsfree"@, b),
        action_name("right"@, a) != action_name("handsfree"@, b),
{
    lemma_ending("left"@, a);
    lemma_ending("right"@, a);
    lemma_ending("right"@, b);
    lemma_ending("handsfree"@, b);
    reveal_strlit("left");
    reveal_strlit("right");
    reveal_strlit("handsfree");
    assert(action_name("left"@, a)[0] == 'l');
    assert(action_name("right"@, a)[0] == 'r');
    assert(action_name("right"@, b)[0] == 'r');
    assert(action_name("handsfree"@, b)[0] == 'h');
}

} // verus!
