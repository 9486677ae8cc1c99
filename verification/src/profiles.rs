//! Interaction profiles: which inputs of a controller are bound to which actions.

use crate::float_bits::FloatBits;
use crate::names::ClickSlot;
use vstd::prelude::*;

verus! {

/// One value, or a list of them.
#[derive(Debug)]
pub enum OneOrMany<T> {
    One(T),
    Many(Vec<T>),
}

/// How an action is bound.
#[derive(Debug)]
pub struct OpenXrActionConfAction {
    pub left: Option<OneOrMany<String>>,
    pub right: Option<OneOrMany<String>>,
    pub handsfree: Option<OneOrMany<String>>,
    pub threshold: Option<[FloatBits; 2]>,
    pub double_click: Option<bool>,
    pub triple_click: Option<bool>,
}

/// How the actions are bound on one kind of controller.
#[derive(Debug)]
pub struct OpenXrActionConfProfile {
    pub profile: String,
    pub pose: Option<OpenXrActionConfAction>,
    pub click: Option<OpenXrActionConfAction>,
    pub grab: Option<OpenXrActionConfAction>,
    pub alt_click: Option<OpenXrActionConfAction>,
    pub show_hide: Option<OpenXrActionConfAction>,
    pub toggle_dashboard: Option<OpenXrActionConfAction>,
    pub space_drag: Option<OpenXrActionConfAction>,
    pub space_rotate: Option<OpenXrActionConfAction>,
    pub space_reset: Option<OpenXrActionConfAction>,
    pub click_modifier_right: Option<OpenXrActionConfAction>,
    pub click_modifier_middle: Option<OpenXrActionConfAction>,
    pub move_mouse: Option<OpenXrActionConfAction>,
    pub scroll: Option<OpenXrActionConfAction>,
    pub haptic: Option<OpenXrActionConfAction>,
}

/// The paths that are given for one hand.
pub open spec fn paths_of(given: Option<OneOrMany<String>>) -> Seq<Seq<char>> {
    match given {
        None => seq![],
        Some(OneOrMany::One(path)) => seq![path@],
        Some(OneOrMany::Many(paths)) => paths@.map_values(|path: String| path@),
    }
}

/// Where the last segment of a path starts.
pub open spec fn segment_start(path: Seq<char>) -> int
    decreases path.len(),
{
    if path.len() == 0 {
        0
    } else if path.last() == '/' {
        path.len() as int
    } else {
        segment_start(path.drop_last())
    }
}

/// What comes after the last slash of a path.
pub open spec fn last_segment(path: Seq<char>) -> Seq<char> {
    path.skip(segment_start(path))
}

/// Whether a path names an input that is on or off.
pub open spec fn names_bool(path: Seq<char>) -> bool {
    let last = last_segment(path);
    last == "click"@ || last == "touch"@ || "dpad_"@.is_prefix_of(last)
}

proof fn lemma_segment_start(path: Seq<char>, start: int)
    requires
        0 <= start <= path.len(),
        start == 0 || path[start - 1] == '/',
        forall|i: int| start <= i < path.len() ==> path[i] != '/',
    ensures
        segment_start(path) == start,
    decreases path.len(),
{
    if path.len() > start {
        lemma_segment_start(path.drop_last(), start);
    }
}

/// The last segment of a path holds no slash, and what is before it is empty or ends
/// in one.
pub proof fn last_segment_follows_the_last_slash(path: Seq<char>)
    ensures
        0 <= segment_start(path) <= path.len(),
        !last_segment(path).contains('/'),
        segment_start(path) == 0 || path[segment_start(path) - 1] == '/',
    decreases path.len(),
{
    if path.len() > 0 && path.last() != '/' {
        let rest = path.drop_last();
        last_segment_follows_the_last_slash(rest);
        let start = segment_start(path);
        assert forall|i: int| 0 <= i < last_segment(path).len() implies last_segment(path)[i]
            != '/' by {
            if i < last_segment(rest).len() {
                assert(last_segment(rest)[i] == last_segment(path)[i]);
                assert(last_segment(rest).contains(last_segment(rest)[i]));
            }
        }
    }
}

fn starts_with(text: &str, prefix: &str) -> (answer: bool)
    ensures
        answer == prefix@.is_prefix_of(text@),
{
    let len: usize = prefix.unicode_len();
    if text.unicode_len() < len {
        return false;
    }
    let mut i: usize = 0;
    while i < len
        invariant
            i <= len,
            len == prefix@.len(),
            len <= text@.len(),
            forall|j: int| 0 <= j < i ==> prefix@[j] == text@[j],
        decreases len - i,
    {
        if text.get_char(i) != prefix.get_char(i) {
            return false;
        }
        i += 1;
    }
    true
}

/// Whether a path names an input that is on or off.
pub fn is_bool(path_str: &str) -> (answer: bool)
    ensures
        answer == names_bool(path_str@),
{
    let len: usize = path_str.unicode_len();
    let mut start: usize = len;
    while start > 0 && path_str.get_char(start - 1) != '/'
        invariant
            start <= len,
            len == path_str@.len(),
            forall|i: int| start <= i < len ==> path_str@[i] != '/',
        decreases start,
    {
        start -= 1;
    }
    proof {
        lemma_segment_start(path_str@, start as int);
    }
    let last: String = path_str.substring_char(start, len).to_owned();
    last == "click".to_owned() || last == "touch".to_owned() || starts_with(last.as_str(), "dpad_")
}

/// How many clicks it takes.
#[derive(Clone, Copy, Debug, PartialEq, Eq, Structural)]
pub enum ClickCount {
    Single,
    Double,
    Triple,
}

/// An action that can be bound.
#[derive(Clone, Copy, Debug, PartialEq, Eq, Structural)]
pub enum BoundAction {
    Pose,
    Haptics,
    Scroll,
    Slot(ClickSlot),
}

/// What an input is bound to.
#[derive(Clone, Copy, Debug, PartialEq, Eq, Structural)]
pub enum BindingTarget {
    Pose,
    Haptics,
    Scroll,
    /// A handler of a click-like action: its numeric action, or its boolean one.
    Handler { slot: ClickSlot, count: ClickCount, numeric: bool },
}

/// A binding that is wanted.
#[derive(Debug)]
pub struct PlannedBinding {
    /// 0 and 1 for the hands, 2 for the pointer without hands.
    pub hand: usize,
    pub target: BindingTarget,
    pub path: String,
}

/// What a binding says.
pub ghost struct PlannedView {
    pub hand: int,
    pub target: BindingTarget,
    pub path: Seq<char>,
}

impl View for PlannedBinding {
    type V = PlannedView;

    open spec fn view(&self) -> PlannedView {
        PlannedView { hand: self.hand as int, target: self.target, path: self.path@ }
    }
}

/// What a list of bindings says.
pub open spec fn planned(plan: Seq<PlannedBinding>) -> Seq<PlannedView> {
    plan.map_values(|binding: PlannedBinding| binding@)
}

impl OpenXrActionConfAction {
    /// How many clicks it takes.
    pub open spec fn count(&self) -> ClickCount {
        if self.triple_click == Some(true) {
            ClickCount::Triple
        } else if self.double_click == Some(true) {
            ClickCount::Double
        } else {
            ClickCount::Single
        }
    }

    fn click_count(&self) -> (count: ClickCount)
        ensures
            count == self.count(),
    {
        let triple: bool = match self.triple_click {
            Some(value) => value,
            None => false,
        };
        let double: bool = match self.double_click {
            Some(value) => value,
            None => false,
        };
        if triple {
            ClickCount::Triple
        } else if double {
            ClickCount::Double
        } else {
            ClickCount::Single
        }
    }

    /// What is given for a hand.
    pub open spec fn given(&self, hand: int) -> Option<OneOrMany<String>> {
        if hand == 0 {
            self.left
        } else if hand == 1 {
            self.right
        } else {
            self.handsfree
        }
    }

    /// What the input at a path is bound to.
    pub open spec fn target(&self, action: BoundAction, path: Seq<char>) -> BindingTarget {
        match action {
            BoundAction::Pose => BindingTarget::Pose,
            BoundAction::Haptics => BindingTarget::Haptics,
            BoundAction::Scroll => BindingTarget::Scroll,
            BoundAction::Slot(slot) => BindingTarget::Handler {
                slot,
                count: self.count(),
                numeric: !names_bool(path),
            },
        }
    }

    fn target_at(&self, action: BoundAction, path: &str) -> (target: BindingTarget)
        ensures
            target == self.target(action, path@),
    {
        match action {
            BoundAction::Pose => BindingTarget::Pose,
            BoundAction::Haptics => BindingTarget::Haptics,
            BoundAction::Scroll => BindingTarget::Scroll,
            BoundAction::Slot(slot) => BindingTarget::Handler {
                slot,
                count: self.click_count(),
                numeric: !is_bool(path),
            },
        }
    }

    /// The bindings of an action for one hand.
    pub open spec fn hand_bindings(&self, action: BoundAction, hand: int) -> Seq<PlannedView> {
        paths_of(self.given(hand)).map_values(
            |path: Seq<char>| PlannedView { hand, target: self.target(action, path), path },
        )
    }

    /// The bindings of an action: for the left hand, the right hand and no hand.
    pub open spec fn bindings(&self, action: BoundAction) -> Seq<PlannedView> {
        self.hand_bindings(action, 0) + self.hand_bindings(action, 1) + self.hand_bindings(
            action,
            2,
        )
    }

    fn plan_hand(&self, action: BoundAction, hand: usize, plan: &mut Vec<PlannedBinding>)
        requires
            hand < 3,
        ensures
            planned(final(plan)@) == planned(old(plan)@) + self.hand_bindings(action, hand as int),
    {
        let ghost before = planned(plan@);
        let ghost wanted = self.hand_bindings(action, hand as int);
        let given: &Option<OneOrMany<String>> = match hand {
            0 => &self.left,
            1 => &self.right,
            _ => &self.handsfree,
        };
        match given {
            None => {
                assert(planned(plan@) =~= before + wanted);
            },
            Some(OneOrMany::One(path)) => {
                let target: BindingTarget = self.target_at(action, path.as_str());
                plan.push(PlannedBinding { hand, target, path: path.clone() });
                assert(planned(plan@) =~= before + wanted);
            },
            Some(OneOrMany::Many(paths)) => {
                let mut i: usize = 0;
                assert(planned(plan@) =~= before + wanted.take(0));
                while i < paths.len()
                    invariant
                        i <= paths@.len(),
                        hand < 3,
                        wanted == self.hand_bindings(action, hand as int),
                        paths_of(self.given(hand as int)) == paths@.map_values(
                            |path: String| path@,
                        ),
                        planned(plan@) == before + wanted.take(i as int),
                    decreases paths@.len() - i,
                {
                    let ghost so_far = plan@;
                    let target: BindingTarget = self.target_at(action, paths[i].as_str());
                    plan.push(PlannedBinding { hand, target, path: paths[i].clone() });
                    proof {
                        assert(paths_of(self.given(hand as int))[i as int] == paths@[i as int]@);
                        assert(planned(plan@) =~= planned(so_far).push(wanted[i as int]));
                        assert(wanted.take(i + 1) =~= wanted.take(i as int).push(
                            wanted[i as int],
                        ));
                        assert(planned(plan@) =~= before + wanted.take(i + 1));
                    }
                    i += 1;
                }
                assert(wanted.take(i as int) =~= wanted);
            },
        }
    }
}

/// How many actions can be bound.
pub const BOUND_ACTIONS: usize = 14;

/// The action at each place of the order in which they are bound.
pub open spec fn bound_action_at(place: int) -> BoundAction {
    if place == 0 {
        BoundAction::Pose
    } else if place == 1 {
        BoundAction::Haptics
    } else if place == 2 {
        BoundAction::Scroll
    } else if place == 3 {
        BoundAction::Slot(ClickSlot::Click)
    } else if place == 4 {
        BoundAction::Slot(ClickSlot::AltClick)
    } else if place == 5 {
        BoundAction::Slot(ClickSlot::Grab)
    } else if place == 6 {
        BoundAction::Slot(ClickSlot::ShowHide)
    } else if place == 7 {
        BoundAction::Slot(ClickSlot::ToggleDashboard)
    } else if place == 8 {
        BoundAction::Slot(ClickSlot::SpaceDrag)
    } else if place == 9 {
        BoundAction::Slot(ClickSlot::SpaceRotate)
    } else if place == 10 {
        BoundAction::Slot(ClickSlot::SpaceReset)
    } else if place == 11 {
        BoundAction::Slot(ClickSlot::ModifierRight)
    } else if place == 12 {
        BoundAction::Slot(ClickSlot::ModifierMiddle)
    } else {
        BoundAction::Slot(ClickSlot::MoveMouse)
    }
}

fn bound_action(place: usize) -> (action: BoundAction)
    requires
        place < BOUND_ACTIONS,
    ensures
        action == bound_action_at(place as int),
{
    match place {
        0 => BoundAction::Pose,
        1 => BoundAction::Haptics,
        2 => BoundAction::Scroll,
        3 => BoundAction::Slot(ClickSlot::Click),
        4 => BoundAction::Slot(ClickSlot::AltClick),
        5 => BoundAction::Slot(ClickSlot::Grab),
        6 => BoundAction::Slot(ClickSlot::ShowHide),
        7 => BoundAction::Slot(ClickSlot::ToggleDashboard),
        8 => BoundAction::Slot(ClickSlot::SpaceDrag),
        9 => BoundAction::Slot(ClickSlot::SpaceRotate),
        10 => BoundAction::Slot(ClickSlot::SpaceReset),
        11 => BoundAction::Slot(ClickSlot::ModifierRight),
        12 => BoundAction::Slot(ClickSlot::ModifierMiddle),
        _ => BoundAction::Slot(ClickSlot::MoveMouse),
    }
}

impl OpenXrActionConfProfile {
    /// How an action is bound, where it is.
    pub open spec fn of(&self, action: BoundAction) -> Option<OpenXrActionConfAction> {
        match action {
            BoundAction::Pose => self.pose,
            BoundAction::Haptics => self.haptic,
            BoundAction::Scroll => self.scroll,
            BoundAction::Slot(ClickSlot::Click) => self.click,
            BoundAction::Slot(ClickSlot::AltClick) => self.alt_click,
            BoundAction::Slot(ClickSlot::Grab) => self.grab,
            BoundAction::Slot(ClickSlot::ShowHide) => self.show_hide,
            BoundAction::Slot(ClickSlot::ToggleDashboard) => self.toggle_dashboard,
            BoundAction::Slot(ClickSlot::SpaceDrag) => self.space_drag,
            BoundAction::Slot(ClickSlot::SpaceRotate) => self.space_rotate,
            BoundAction::Slot(ClickSlot::SpaceReset) => self.space_reset,
            BoundAction::Slot(ClickSlot::ModifierRight) => self.click_modifier_right,
            BoundAction::Slot(ClickSlot::ModifierMiddle) => self.click_modifier_middle,
            BoundAction::Slot(ClickSlot::MoveMouse) => self.move_mouse,
        }
    }

    fn conf_of(&self, action: BoundAction) -> (conf: &Option<OpenXrActionConfAction>)
        ensures
            *conf == self.of(action),
    {
        match action {
            BoundAction::Pose => &self.pose,
            BoundAction::Haptics => &self.haptic,
            BoundAction::Scroll => &self.scroll,
            BoundAction::Slot(ClickSlot::Click) => &self.click,
            BoundAction::Slot(ClickSlot::AltClick) => &self.alt_click,
            BoundAction::Slot(ClickSlot::Grab) => &self.grab,
            BoundAction::Slot(ClickSlot::ShowHide) => &self.show_hide,
            BoundAction::Slot(ClickSlot::ToggleDashboard) => &self.toggle_dashboard,
            BoundAction::Slot(ClickSlot::SpaceDrag) => &self.space_drag,
            BoundAction::Slot(ClickSlot::SpaceRotate) => &self.space_rotate,
            BoundAction::Slot(ClickSlot::SpaceReset) => &self.space_reset,
            BoundAction::Slot(ClickSlot::ModifierRight) => &self.click_modifier_right,
            BoundAction::Slot(ClickSlot::ModifierMiddle) => &self.click_modifier_middle,
            BoundAction::Slot(ClickSlot::MoveMouse) => &self.move_mouse,
        }
    }

    /// The bindings of one action.
    pub open spec fn action_bindings(&self, action: BoundAction) -> Seq<PlannedView> {
        match self.of(action) {
            Some(conf) => conf.bindings(action),
            None => seq![],
        }
    }

    /// The bindings of the first `upto` actions.
    pub open spec fn bindings_up_to(&self, upto: int) -> Seq<PlannedView>
        decreases upto,
    {
        if upto <= 0 {
            seq![]
        } else {
            self.bindings_up_to(upto - 1) + self.action_bindings(bound_action_at(upto - 1))
        }
    }

    /// Lists the bindings that the profile asks for.
    pub fn plan_bindings(&self) -> (plan: Vec<PlannedBinding>)
        ensures
            planned(plan@) == self.bindings_up_to(BOUND_ACTIONS as int),
    {
        let mut plan: Vec<PlannedBinding> = Vec::new();
        let mut place: usize = 0;
        assert(planned(plan@) =~= self.bindings_up_to(0));
        while place < BOUND_ACTIONS
            invariant
                place <= BOUND_ACTIONS,
                planned(plan@) == self.bindings_up_to(place as int),
            decreases BOUND_ACTIONS - place,
        {
            let action: BoundAction = bound_action(place);
            if let Some(conf) = self.conf_of(action) {
                conf.plan_hand(action, 0, &mut plan);
                conf.plan_hand(action, 1, &mut plan);
                conf.plan_hand(action, 2, &mut plan);
            }
            assert(planned(plan@) =~= self.bindings_up_to(place + 1));
            place += 1;
        }
        plan
    }
}

/// The bindings to suggest for a profile that the runtime knows.
#[derive(Debug)]
pub struct Suggestion {
    /// The place of the profile among all.
    pub profile: usize,
    /// The number of the profile's path.
    pub profile_path: u64,
    pub plan: Vec<PlannedBinding>,
}

/// What a suggestion says.
pub ghost struct SuggestionView {
    pub profile: int,
    pub profile_path: u64,
    pub plan: Seq<PlannedView>,
}

impl View for Suggestion {
    type V = SuggestionView;

    open spec fn view(&self) -> SuggestionView {
        SuggestionView {
            profile: self.profile as int,
            profile_path: self.profile_path,
            plan: planned(self.plan@),
        }
    }
}

/// What a list of suggestions says.
pub open spec fn suggested(suggestions: Seq<Suggestion>) -> Seq<SuggestionView> {
    suggestions.map_values(|suggestion: Suggestion| suggestion@)
}

/// What there is to suggest for the first `upto` profiles where `paths` says which of
/// them the runtime knows.
pub open spec fn suggestions(
    profiles: Seq<OpenXrActionConfProfile>,
    paths: Seq<Option<u64>>,
    upto: int,
) -> Seq<SuggestionView>
    decreases upto,
{
    if upto <= 0 {
        seq![]
    } else {
        let earlier = suggestions(profiles, paths, upto - 1);
        match paths[upto - 1] {
            Some(profile_path) => earlier.push(
                SuggestionView {
                    profile: upto - 1,
                    profile_path,
                    plan: profiles[upto - 1].bindings_up_to(BOUND_ACTIONS as int),
                },
            ),
            None => earlier,
        }
    }
}

/// Lists what there is to suggest: the bindings of every profile that the runtime knows.
pub fn suggest_bindings(
    profiles: &Vec<OpenXrActionConfProfile>,
    paths: &Vec<Option<u64>>,
) -> (list: Vec<Suggestion>)
    requires
        profiles@.len() == paths@.len(),
    ensures
        suggested(list@) == suggestions(profiles@, paths@, profiles@.len() as int),
{
    let mut list: Vec<Suggestion> = Vec::new();
    let mut i: usize = 0;
    assert(suggested(list@) =~= suggestions(profiles@, paths@, 0));
    while i < profiles.len()
        invariant
            i <= profiles@.len(),
            profiles@.len() == paths@.len(),
            suggested(list@) == suggestions(profiles@, paths@, i as int),
        decreases profiles@.len() - i,
    {
        let ghost so_far = list@;
        if let Some(profile_path) = paths[i] {
            let plan: Vec<PlannedBinding> = profiles[i].plan_bindings();
            list.push(Suggestion { profile: i, profile_path, plan });
            assert(suggested(list@) =~= suggested(so_far).push(list@.last()@));
        }
        i += 1;
    }
    list
}

/// A binding whose path the runtime knows, by the number of the path.
#[derive(Clone, Copy, Debug, PartialEq, Eq, Structural)]
pub struct ResolvedBinding {
    pub hand: usize,
    pub target: BindingTarget,
    pub path: u64,
}

/// What is left of the first `upto` bindings where `paths` says what the runtime knows:
/// those with a known path.
pub open spec fn resolved(
    plan: Seq<PlannedBinding>,
    paths: Seq<Option<u64>>,
    upto: int,
) -> Seq<ResolvedBinding>
    decreases upto,
{
    if upto <= 0 {
        seq![]
    } else {
        let earlier = resolved(plan, paths, upto - 1);
        match paths[upto - 1] {
            Some(path) => earlier.push(
                ResolvedBinding {
                    hand: plan[upto - 1].hand,
                    target: plan[upto - 1].target,
                    path,
                },
            ),
            None => earlier,
        }
    }
}

/// Keeps the bindings whose paths the runtime knows.
pub fn keep_resolved(plan: &Vec<PlannedBinding>, paths: &Vec<Option<u64>>) -> (bindings: Vec<
    ResolvedBinding,
>)
    requires
        plan@.len() == paths@.len(),
    ensures
        bindings@ == resolved(plan@, paths@, plan@.len() as int),
{
    let mut bindings: Vec<ResolvedBinding> = Vec::new();
    let mut i: usize = 0;
    while i < plan.len()
        invariant
            i <= plan@.len(),
            plan@.len() == paths@.len(),
            bindings@ == resolved(plan@, paths@, i as int),
        decreases plan@.len() - i,
    {
        if let Some(path) = paths[i] {
            bindings.push(ResolvedBinding { hand: plan[i].hand, target: plan[i].target, path });
        }
        i += 1;
    }
    bindings
}

/// The place of the first profile with a name; behind the last one where there is none.
pub open spec fn first_named(profiles: Seq<OpenXrActionConfProfile>, name: Seq<char>) -> int
    decreases profiles.len(),
{
    if profiles.len() == 0 {
        0
    } else if profiles[0].profile@ == name {
        0
    } else {
        1 + first_named(profiles.drop_first(), name)
    }
}

/// The profiles with one more: in the place of the one with its name, or at the end.
pub open spec fn with_profile(
    profiles: Seq<OpenXrActionConfProfile>,
    new: OpenXrActionConfProfile,
) -> Seq<OpenXrActionConfProfile> {
    let place = first_named(profiles, new.profile@);
    if place < profiles.len() {
        profiles.update(place, new)
    } else {
        profiles.push(new)
    }
}

/// The profiles with the first `upto` of the overrides.
pub open spec fn with_profiles(
    profiles: Seq<OpenXrActionConfProfile>,
    overrides: Seq<OpenXrActionConfProfile>,
    upto: int,
) -> Seq<OpenXrActionConfProfile>
    decreases upto,
{
    if upto <= 0 {
        profiles
    } else {
        with_profile(with_profiles(profiles, overrides, upto - 1), overrides[upto - 1])
    }
}

proof fn lemma_first_named(profiles: Seq<OpenXrActionConfProfile>, name: Seq<char>)
    ensures
        0 <= first_named(profiles, name) <= profiles.len(),
        forall|i: int|
            0 <= i < first_named(profiles, name) ==> (#[trigger] profiles[i]).profile@ != name,
        first_named(profiles, name) < profiles.len() ==> profiles[first_named(
            profiles,
            name,
        )].profile@ == name,
    decreases profiles.len(),
{
    if profiles.len() > 0 && profiles[0].profile@ != name {
        let rest = profiles.drop_first();
        lemma_first_named(rest, name);
        assert forall|i: int| 0 <= i < first_named(profiles, name) implies (
        #[trigger] profiles[i]).profile@ != name by {
            if i > 0 {
                assert(profiles[i] == rest[i - 1]);
            }
        }
    }
}

/// The user's own profiles.
#[derive(Debug)]
pub enum ProfileOverrides {
    /// There is no file with profiles.
    Absent,
    /// The file could not be understood.
    Invalid,
    Profiles(Vec<OpenXrActionConfProfile>),
}

impl ProfileOverrides {
    /// The profiles that the user gave.
    pub open spec fn given(&self) -> Seq<OpenXrActionConfProfile> {
        match self {
            ProfileOverrides::Profiles(profiles) => profiles@,
            _ => seq![],
        }
    }
}

/// The place of the first profile with a name.
fn position(profiles: &Vec<OpenXrActionConfProfile>, name: &String) -> (place: usize)
    ensures
        place == first_named(profiles@, name@),
{
    let mut i: usize = 0;
    proof {
        lemma_first_named(profiles@, name@);
    }
    while i < profiles.len() && profiles[i].profile != *name
        invariant
            i <= profiles@.len(),
            forall|j: int| 0 <= j < i ==> (#[trigger] profiles@[j]).profile@ != name@,
            first_named(profiles@, name@) >= i,
            first_named(profiles@, name@) <= profiles@.len(),
            forall|j: int|
                0 <= j < first_named(profiles@, name@) ==> (#[trigger] profiles@[j]).profile@
                    != name@,
            first_named(profiles@, name@) < profiles@.len() ==> profiles@[first_named(
                profiles@,
                name@,
            )].profile@ == name@,
        decreases profiles@.len() - i,
    {
        i += 1;
    }
    i
}

/// The profiles to use: the defaults, each replaced by the user's own where there is
/// one of the same name, and the user's others behind them.
pub fn load_action_profiles(
    defaults: Vec<OpenXrActionConfProfile>,
    overrides: ProfileOverrides,
) -> (profiles: Vec<OpenXrActionConfProfile>)
    ensures
        profiles@ == with_profiles(
            defaults@,
            overrides.given(),
            overrides.given().len() as int,
        ),
{
    let mut profiles: Vec<OpenXrActionConfProfile> = defaults;
    match overrides {
        ProfileOverrides::Absent | ProfileOverrides::Invalid => profiles,
        ProfileOverrides::Profiles(mut rest) => {
            let ghost all = rest@;
            let ghost mut done: int = 0;
            while rest.len() > 0
                invariant
                    0 <= done <= all.len(),
                    rest@ == all.skip(done),
                    profiles@ == with_profiles(defaults@, all, done),
                decreases rest@.len(),
            {
                let new: OpenXrActionConfProfile = rest.remove(0);
                proof {
                    assert(new == all[done]);
                    assert(rest@ =~= all.skip(done + 1));
                    done = done + 1;
                }
                let place: usize = position(&profiles, &new.profile);
                if place < profiles.len() {
                    profiles[place] = new;
                } else {
                    profiles.push(new);
                }
            }
            profiles
        },
    }
}

/// No profile from `from` on, up to and without `upto`, has that name.
pub open spec fn unnamed(
    profiles: Seq<OpenXrActionConfProfile>,
    from: int,
    upto: int,
    name: Seq<char>,
) -> bool {
    forall|k: int| from <= k < upto ==> (#[trigger] profiles[k]).profile@ != name
}

/// Overrides never move or rename a default, and one that no override names is left as
/// it is.
pub proof fn defaults_keep_their_place(
    defaults: Seq<OpenXrActionConfProfile>,
    overrides: Seq<OpenXrActionConfProfile>,
    upto: int,
    i: int,
)
    requires
        0 <= i < defaults.len(),
        0 <= upto <= overrides.len(),
    ensures
        with_profiles(defaults, overrides, upto).len() >= defaults.len(),
        with_profiles(defaults, overrides, upto)[i].profile@ == defaults[i].profile@,
        unnamed(overrides, 0, upto, defaults[i].profile@) ==> with_profiles(
            defaults,
            overrides,
            upto,
        )[i] == defaults[i],
    decreases upto,
{
    if upto > 0 {
        defaults_keep_their_place(defaults, overrides, upto - 1, i);
        let before = with_profiles(defaults, overrides, upto - 1);
        let new = overrides[upto - 1];
        lemma_first_named(before, new.profile@);
        if unnamed(overrides, 0, upto, defaults[i].profile@) {
            assert(unnamed(overrides, 0, upto - 1, defaults[i].profile@));
        }
    }
}

/// No two profiles have the same name.
pub open spec fn distinct_names(profiles: Seq<OpenXrActionConfProfile>) -> bool {
    forall|i: int, j: int|
        0 <= i < j < profiles.len() ==> (#[trigger] profiles[i]).profile@ != (
        #[trigger] profiles[j]).profile@
}

/// Where the defaults have distinct names, so have the profiles that are used, even if
/// the user names a profile twice.
pub proof fn names_stay_distinct(
    defaults: Seq<OpenXrActionConfProfile>,
    overrides: Seq<OpenXrActionConfProfile>,
    upto: int,
)
    requires
        distinct_names(defaults),
        0 <= upto <= overrides.len(),
    ensures
        distinct_names(with_profiles(defaults, overrides, upto)),
    decreases upto,
{
    if upto > 0 {
        names_stay_distinct(defaults, overrides, upto - 1);
        let before = with_profiles(defaults, overrides, upto - 1);
        lemma_first_named(before, overrides[upto - 1].profile@);
    }
}

/// Under the name of an override the last override of that name is used.
pub proof fn last_override_wins(
    defaults: Seq<OpenXrActionConfProfile>,
    overrides: Seq<OpenXrActionConfProfile>,
    upto: int,
    j: int,
)
    requires
        0 <= j < upto <= overrides.len(),
        unnamed(overrides, j + 1, upto, overrides[j].profile@),
    ensures
        ({
            let used = with_profiles(defaults, overrides, upto);
            let place = first_named(used, overrides[j].profile@);
            0 <= place < used.len() && used[place] == overrides[j]
        }),
    decreases upto,
{
    let name = overrides[j].profile@;
    let before = with_profiles(defaults, overrides, upto - 1);
    let used = with_profiles(defaults, overrides, upto);
    let new = overrides[upto - 1];
    lemma_first_named(before, new.profile@);
    lemma_first_named(before, name);
    lemma_first_named(used, name);
    if upto - 1 == j {
        let place = first_named(before, name);
        assert(used[place] == new);
        lemma_first_named_at(used, name, place);
    } else {
        assert(unnamed(overrides, j + 1, upto - 1, name));
        last_override_wins(defaults, overrides, upto - 1, j);
        assert(new.profile@ != name);
        let place = first_named(before, name);
        assert(used[place] == before[place]);
        lemma_first_named_at(used, name, place);
    }
}

/// The first profile with a name is the one that has it, where none before it has.
proof fn lemma_first_named_at(
    profiles: Seq<OpenXrActionConfProfile>,
    name: Seq<char>,
    place: int,
)
    requires
        0 <= place < profiles.len(),
        profiles[place].profile@ == name,
        unnamed(profiles, 0, place, name),
    ensures
        first_named(profiles, name) == place,
{
    lemma_first_named(profiles, name);
}

/// Every profile that is used is one of the defaults or one of the user's own.
pub proof fn nothing_is_made_up(
    defaults: Seq<OpenXrActionConfProfile>,
    overrides: Seq<OpenXrActionConfProfile>,
    upto: int,
    i: int,
)
    requires
        0 <= upto <= overrides.len(),
        0 <= i < with_profiles(defaults, overrides, upto).len(),
    ensures
        defaults.contains(with_profiles(defaults, overrides, upto)[i]) || overrides.contains(
            with_profiles(defaults, overrides, upto)[i],
        ),
    decreases upto,
{
    let used = with_profiles(defaults, overrides, upto);
    if upto > 0 {
        let before = with_profiles(defaults, overrides, upto - 1);
        lemma_first_named(before, overrides[upto - 1].profile@);
        if i < before.len() && used[i] == before[i] {
            nothing_is_made_up(defaults, overrides, upto - 1, i);
        } else {
            assert(used[i] == overrides[upto - 1]);
        }
    }
}

/// Every binding is for one of the two hands or for the pointer without hands.
pub proof fn bindings_are_for_known_hands(profile: OpenXrActionConfProfile, upto: int)
    ensures
        forall|i: int|
            0 <= i < profile.bindings_up_to(upto).len() ==> 0 <= (
            #[trigger] profile.bindings_up_to(upto)[i]).hand < 3,
    decreases upto,
{
    if upto > 0 {
        bindings_are_for_known_hands(profile, upto - 1);
        let earlier = profile.bindings_up_to(upto - 1);
        let more = profile.action_bindings(bound_action_at(upto - 1));
        assert forall|i: int| 0 <= i < profile.bindings_up_to(upto).len() implies 0 <= (
        #[trigger] profile.bindings_up_to(upto)[i]).hand < 3 by {
            if i < earlier.len() {
                assert(profile.bindings_up_to(upto)[i] == earlier[i]);
            } else {
                assert(profile.bindings_up_to(upto)[i] == more[i - earlier.len()]);
            }
        }
    }
}

/// The binding that a profile asks for with the `i`th path of an action and a hand.
pub open spec fn wanted_binding(
    conf: OpenXrActionConfAction,
    action: BoundAction,
    hand: int,
    i: int,
) -> PlannedView {
    let path = paths_of(conf.given(hand))[i];
    PlannedView { hand, target: conf.target(action, path), path }
}

/// Every path that a profile gives for an action and a hand is bound.
pub proof fn every_path_is_bound(
    profile: OpenXrActionConfProfile,
    place: int,
    hand: int,
    i: int,
    upto: int,
)
    requires
        0 <= place < upto,
        profile.of(bound_action_at(place)) is Some,
        0 <= hand < 3,
        0 <= i < paths_of((profile.of(bound_action_at(place))->0).given(hand)).len(),
    ensures
        profile.bindings_up_to(upto).contains(
            wanted_binding(
                profile.of(bound_action_at(place))->0,
                bound_action_at(place),
                hand,
                i,
            ),
        ),
    decreases upto,
{
    let action = bound_action_at(place);
    let conf = profile.of(action)->0;
    let wanted = wanted_binding(conf, action, hand, i);
    let earlier = profile.bindings_up_to(upto - 1);
    let all = profile.bindings_up_to(upto);
    if place == upto - 1 {
        let left = conf.hand_bindings(action, 0);
        let right = conf.hand_bindings(action, 1);
        let offset: int = if hand == 0 {
            0
        } else if hand == 1 {
            left.len() as int
        } else {
            (left.len() + right.len()) as int
        };
        assert(conf.hand_bindings(action, hand)[i] == wanted);
        assert(conf.bindings(action)[offset + i] == wanted);
        assert(all[earlier.len() + offset + i] == wanted);
    } else {
        every_path_is_bound(profile, place, hand, i, upto - 1);
        let k = earlier.index_of(wanted);
        assert(all[k] == wanted);
    }
}

/// Every binding comes from a path that the profile gives.
pub proof fn every_binding_is_wanted(profile: OpenXrActionConfProfile, upto: int, k: int) -> (place: (
    int,
    int,
    int,
))
    requires
        0 <= k < profile.bindings_up_to(upto).len(),
    ensures
        0 <= place.0 < upto,
        profile.of(bound_action_at(place.0)) is Some,
        0 <= place.1 < 3,
        0 <= place.2 < paths_of(
            (profile.of(bound_action_at(place.0))->0).given(place.1),
        ).len(),
        profile.bindings_up_to(upto)[k] == wanted_binding(
            profile.of(bound_action_at(place.0))->0,
            bound_action_at(place.0),
            place.1,
            place.2,
        ),
    decreases upto,
{
    let earlier = profile.bindings_up_to(upto - 1);
    let all = profile.bindings_up_to(upto);
    if k < earlier.len() {
        assert(all[k] == earlier[k]);
        every_binding_is_wanted(profile, upto - 1, k)
    } else {
        let action = bound_action_at(upto - 1);
        let conf = profile.of(action)->0;
        let at = k - earlier.len();
        let left = conf.hand_bindings(action, 0);
        let right = conf.hand_bindings(action, 1);
        assert(all[k] == conf.bindings(action)[at]);
        if at < left.len() {
            (upto - 1, 0, at)
        } else if at < left.len() + right.len() {
            (upto - 1, 1, at - left.len())
        } else {
            (upto - 1, 2, at - left.len() - right.len())
        }
    }
}

/// A triple click takes precedence over a double click, and a single click is what is
/// bound where nothing is asked for.
pub proof fn triple_click_takes_precedence(conf: OpenXrActionConfAction)
    ensures
        conf.triple_click == Some(true) ==> conf.count() == ClickCount::Triple,
        conf.triple_click is None && conf.double_click is None ==> conf.count()
            == ClickCount::Single,
{
}

/// Where the runtime knows every path, every binding is kept; what it does not know is
/// all that is dropped.
pub proof fn known_paths_are_kept(plan: Seq<PlannedBinding>, paths: Seq<Option<u64>>, upto: int)
    requires
        0 <= upto <= plan.len(),
        plan.len() == paths.len(),
    ensures
        resolved(plan, paths, upto).len() == paths.take(upto).filter(
            |path: Option<u64>| path is Some,
        ).len(),
        (forall|i: int| 0 <= i < upto ==> #[trigger] paths[i] is Some) ==> resolved(
            plan,
            paths,
            upto,
        ) == Seq::new(
            upto as nat,
            |i: int|
                ResolvedBinding {
                    hand: plan[i].hand,
                    target: plan[i].target,
                    path: paths[i]->0,
                },
        ),
    decreases upto,
{
    reveal_with_fuel(Seq::filter, 1);
    if upto > 0 {
        known_paths_are_kept(plan, paths, upto - 1);
        assert(paths.take(upto).drop_last() =~= paths.take(upto - 1));
        if forall|i: int| 0 <= i < upto ==> #[trigger] paths[i] is Some {
            assert(paths[upto - 1] is Some);
            assert(resolved(plan, paths, upto) =~= Seq::new(
                upto as nat,
                |i: int|
                    ResolvedBinding {
                        hand: plan[i].hand,
                        target: plan[i].target,
                        path: paths[i]->0,
                    },
            ));
        }
    } else {
        assert(resolved(plan, paths, upto) =~= Seq::<ResolvedBinding>::empty());
    }
}

/// Bindings are suggested for a profile exactly if the runtime knows it.
pub proof fn known_profiles_get_suggestions(
    profiles: Seq<OpenXrActionConfProfile>,
    paths: Seq<Option<u64>>,
    upto: int,
    i: int,
)
    requires
        0 <= i < upto <= profiles.len(),
        profiles.len() == paths.len(),
    ensures
        (exists|k: int|
            0 <= k < suggestions(profiles, paths, upto).len() && (#[trigger] suggestions(
                profiles,
                paths,
                upto,
            )[k]).profile == i) <==> paths[i] is Some,
    decreases upto,
{
    let all = suggestions(profiles, paths, upto);
    let earlier = suggestions(profiles, paths, upto - 1);
    lemma_suggestions_before(profiles, paths, upto - 1);
    if i == upto - 1 {
        if paths[i] is Some {
            assert(all[all.len() - 1].profile == i);
        }
    } else {
        known_profiles_get_suggestions(profiles, paths, upto - 1, i);
        if paths[i] is Some {
            let k = choose|k: int|
                0 <= k < earlier.len() && (#[trigger] earlier[k]).profile == i;
            assert(all[k] == earlier[k]);
        } else {
            assert forall|k: int| 0 <= k < all.len() implies (#[trigger] all[k]).profile != i by {
                if k < earlier.len() {
                    assert(all[k] == earlier[k]);
                }
            }
        }
    }
}

proof fn lemma_suggestions_before(
    profiles: Seq<OpenXrActionConfProfile>,
    paths: Seq<Option<u64>>,
    upto: int,
)
    ensures
        forall|k: int|
            0 <= k < suggestions(profiles, paths, upto).len() ==> (#[trigger] suggestions(
                profiles,
                paths,
                upto,
            )[k]).profile < upto,
    decreases upto,
{
    if upto > 0 {
        lemma_suggestions_before(profiles, paths, upto - 1);
        let all = suggestions(profiles, paths, upto);
        let earlier = suggestions(profiles, paths, upto - 1);
        assert forall|k: int| 0 <= k < all.len() implies (#[trigger] all[k]).profile < upto by {
            if k < earlier.len() {
                assert(all[k] == earlier[k]);
            }
        }
    }
}

} // verus!
