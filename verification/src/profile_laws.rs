//! What binding controllers promises: every path that a profile gives is bound to what it
//! is given for, for every profile that the runtime knows.

use crate::names::ClickSlot;
use crate::profiles::{
    is_bool, keep_resolved, load_action_profiles, names_bool, planned, suggest_bindings,
    suggested, BindingTarget, BoundAction, ClickCount, OneOrMany, OpenXrActionConfAction,
    OpenXrActionConfProfile, PlannedBinding, PlannedView, ProfileOverrides, ResolvedBinding,
    Suggestion,
};
use vstd::prelude::*;

verus! {

/// A path is on or off exactly where what follows its last slash is `click`, `touch` or
/// something that starts with `dpad_`.
pub proof fn last_segment_decides(
    path_str: &str,
    answer: bool,
    head: Seq<char>,
    last: Seq<char>,
)
    requires
        call_ensures(is_bool, (path_str,), answer),
        path_str@ == head + last,
        head.len() == 0 || head.last() == '/',
        forall|i: int| 0 <= i < last.len() ==> last[i] != '/',
    ensures
        answer <==> last == "click"@ || last == "touch"@ || (last.len() >= 5 && last.take(5)
            == "dpad_"@),
        answer == names_bool(path_str@),
{
    lemma_segment(path_str@, head, last);
    reveal_strlit("dpad_");
    assert(crate::profiles::last_segment(path_str@) =~= last);
    if last.len() >= 5 {
        assert(("dpad_"@.is_prefix_of(last)) <==> last.take(5) =~= "dpad_"@);
    }
}

proof fn lemma_segment(path: Seq<char>, head: Seq<char>, last: Seq<char>)
    requires
        path == head + last,
        head.len() == 0 || head.last() == '/',
        forall|i: int| 0 <= i < last.len() ==> last[i] != '/',
    ensures
        crate::profiles::segment_start(path) == head.len(),
    decreases last.len(),
{
    if last.len() > 0 {
        assert(path.drop_last() =~= head + last.drop_last());
        assert(path.last() == last.last());
        lemma_segment(path.drop_last(), head, last.drop_last());
    } else {
        assert(path =~= head);
    }
}

/// The paths that are given.
pub open spec fn given_paths(given: Option<OneOrMany<String>>) -> Seq<Seq<char>> {
    match given {
        None => Seq::empty(),
        Some(OneOrMany::One(path)) => seq![path@],
        Some(OneOrMany::Many(paths)) => Seq::new(paths@.len(), |i: int| paths@[i]@),
    }
}

/// What a path of an action is bound to: of an input for clicks, the numeric or the
/// boolean action of the handler for as many clicks as are asked for.
pub open spec fn wanted_target(
    conf: OpenXrActionConfAction,
    action: BoundAction,
    path: Seq<char>,
) -> BindingTarget {
    match action {
        BoundAction::Pose => BindingTarget::Pose,
        BoundAction::Haptics => BindingTarget::Haptics,
        BoundAction::Scroll => BindingTarget::Scroll,
        BoundAction::Slot(slot) => BindingTarget::Handler {
            slot,
            count: if conf.triple_click == Some(true) {
                ClickCount::Triple
            } else if conf.double_click == Some(true) {
                ClickCount::Double
            } else {
                ClickCount::Single
            },
            numeric: !names_bool(path),
        },
    }
}

/// The bindings that are asked for with the paths of one hand.
pub open spec fn asked_for_hand(
    conf: OpenXrActionConfAction,
    action: BoundAction,
    hand: int,
    given: Option<OneOrMany<String>>,
) -> Seq<PlannedView> {
    Seq::new(
        given_paths(given).len(),
        |i: int|
            PlannedView {
                hand,
                target: wanted_target(conf, action, given_paths(given)[i]),
                path: given_paths(given)[i],
            },
    )
}

/// The bindings that are asked for of one action.
#[verifier::opaque]
pub open spec fn asked(conf: Option<OpenXrActionConfAction>, action: BoundAction) -> Seq<
    PlannedView,
> {
    match conf {
        None => Seq::empty(),
        Some(conf) => asked_for_hand(conf, action, 0, conf.left) + asked_for_hand(
            conf,
            action,
            1,
            conf.right,
        ) + asked_for_hand(conf, action, 2, conf.handsfree),
    }
}

/// All bindings that a profile asks for, of its fourteen actions.
#[verifier::opaque]
pub open spec fn all_asked(p: OpenXrActionConfProfile) -> Seq<PlannedView> {
    asked(p.pose, BoundAction::Pose) + asked(p.haptic, BoundAction::Haptics) + asked(
        p.scroll,
        BoundAction::Scroll,
    ) + asked(p.click, BoundAction::Slot(ClickSlot::Click)) + asked(
        p.alt_click,
        BoundAction::Slot(ClickSlot::AltClick),
    ) + asked(p.grab, BoundAction::Slot(ClickSlot::Grab)) + asked(
        p.show_hide,
        BoundAction::Slot(ClickSlot::ShowHide),
    ) + asked(p.toggle_dashboard, BoundAction::Slot(ClickSlot::ToggleDashboard)) + asked(
        p.space_drag,
        BoundAction::Slot(ClickSlot::SpaceDrag),
    ) + asked(p.space_rotate, BoundAction::Slot(ClickSlot::SpaceRotate)) + asked(
        p.space_reset,
        BoundAction::Slot(ClickSlot::SpaceReset),
    ) + asked(p.click_modifier_right, BoundAction::Slot(ClickSlot::ModifierRight)) + asked(
        p.click_modifier_middle,
        BoundAction::Slot(ClickSlot::ModifierMiddle),
    ) + asked(p.move_mouse, BoundAction::Slot(ClickSlot::MoveMouse))
}

proof fn lemma_asked(p: OpenXrActionConfProfile, action: BoundAction)
    ensures
        p.action_bindings(action) == asked(p.of(action), action),
{
    reveal(asked);
    if let Some(conf) = p.of(action) {
        assert(conf.hand_bindings(action, 0) =~= asked_for_hand(conf, action, 0, conf.left));
        assert(conf.hand_bindings(action, 1) =~= asked_for_hand(conf, action, 1, conf.right));
        assert(conf.hand_bindings(action, 2) =~= asked_for_hand(conf, action, 2, conf.handsfree));
    } else {
        assert(p.action_bindings(action) =~= asked(p.of(action), action));
    }
}

proof fn lemma_asked_at(p: OpenXrActionConfProfile, place: int)
    requires
        0 <= place,
    ensures
        p.bindings_up_to(place + 1) == p.bindings_up_to(place) + asked(
            p.of(crate::profiles::bound_action_at(place)),
            crate::profiles::bound_action_at(place),
        ),
{
    lemma_asked(p, crate::profiles::bound_action_at(place));
}

/// All bindings that a profile asks for are those of its fourteen actions.
#[verifier::spinoff_prover]
proof fn lemma_all_asked(p: OpenXrActionConfProfile)
    ensures
        p.bindings_up_to(14) == all_asked(p),
{
    reveal(all_asked);
    assert(p.bindings_up_to(0) =~= Seq::<PlannedView>::empty());
    lemma_asked_at(p, 0);
    lemma_asked_at(p, 1);
    lemma_asked_at(p, 2);
    lemma_asked_at(p, 3);
    lemma_asked_at(p, 4);
    lemma_asked_at(p, 5);
    lemma_asked_at(p, 6);
    lemma_asked_at(p, 7);
    lemma_asked_at(p, 8);
    lemma_asked_at(p, 9);
    lemma_asked_at(p, 10);
    lemma_asked_at(p, 11);
    lemma_asked_at(p, 12);
    lemma_asked_at(p, 13);
    assert(Seq::<PlannedView>::empty() + asked(p.pose, BoundAction::Pose) =~= asked(
        p.pose,
        BoundAction::Pose,
    ));
}

/// The plan of a profile is what its fourteen actions ask for, and nothing else.
pub proof fn plan_is_what_is_asked_for(
    profile: &OpenXrActionConfProfile,
    plan: Vec<PlannedBinding>,
)
    requires
        call_ensures(OpenXrActionConfProfile::plan_bindings, (profile,), plan),
    ensures
        planned(plan@) == all_asked(*profile),
{
    lemma_all_asked(*profile);
}

/// How a profile binds an action.
pub open spec fn conf_for(p: OpenXrActionConfProfile, action: BoundAction) -> Option<
    OpenXrActionConfAction,
> {
    match action {
        BoundAction::Pose => p.pose,
        BoundAction::Haptics => p.haptic,
        BoundAction::Scroll => p.scroll,
        BoundAction::Slot(ClickSlot::Click) => p.click,
        BoundAction::Slot(ClickSlot::AltClick) => p.alt_click,
        BoundAction::Slot(ClickSlot::Grab) => p.grab,
        BoundAction::Slot(ClickSlot::ShowHide) => p.show_hide,
        BoundAction::Slot(ClickSlot::ToggleDashboard) => p.toggle_dashboard,
        BoundAction::Slot(ClickSlot::SpaceDrag) => p.space_drag,
        BoundAction::Slot(ClickSlot::SpaceRotate) => p.space_rotate,
        BoundAction::Slot(ClickSlot::SpaceReset) => p.space_reset,
        BoundAction::Slot(ClickSlot::ModifierRight) => p.click_modifier_right,
        BoundAction::Slot(ClickSlot::ModifierMiddle) => p.click_modifier_middle,
        BoundAction::Slot(ClickSlot::MoveMouse) => p.move_mouse,
    }
}

/// How many of the first `upto` paths the runtime knows.
pub open spec fn known_before(paths: Seq<Option<u64>>, upto: int) -> int
    decreases upto,
{
    if upto <= 0 {
        0
    } else {
        known_before(paths, upto - 1) + (if paths[upto - 1] is Some {
            1int
        } else {
            0
        })
    }
}

proof fn lemma_suggestions(
    profiles: Seq<OpenXrActionConfProfile>,
    paths: Seq<Option<u64>>,
    upto: int,
)
    requires
        0 <= upto <= profiles.len(),
        profiles.len() == paths.len(),
    ensures
        ({
            let list = crate::profiles::suggestions(profiles, paths, upto);
            &&& list.len() == known_before(paths, upto)
            &&& forall|i: int|
                0 <= i < upto && #[trigger] paths[i] is Some ==> {
                    let k = known_before(paths, i);
                    &&& 0 <= k < list.len()
                    &&& list[k].profile == i
                    &&& list[k].profile_path == paths[i]->0
                    &&& list[k].plan == all_asked(profiles[i])
                }
        }),
    decreases upto,
{
    if upto > 0 {
        lemma_suggestions(profiles, paths, upto - 1);
        lemma_all_asked(profiles[upto - 1]);
        let list = crate::profiles::suggestions(profiles, paths, upto);
        let earlier = crate::profiles::suggestions(profiles, paths, upto - 1);
        assert forall|i: int| 0 <= i < upto && #[trigger] paths[i] is Some implies ({
            let k = known_before(paths, i);
            &&& 0 <= k < list.len()
            &&& list[k].profile == i
            &&& list[k].profile_path == paths[i]->0
            &&& list[k].plan == all_asked(profiles[i])
        }) by {
            let k = known_before(paths, i);
            if i < upto - 1 {
                assert(list[k] == earlier[k]);
            } else {
                assert(list[k] == list.last());
            }
        }
    }
}

/// There is one suggestion for each profile that the runtime knows, in their order, and
/// none besides. It carries the number of that profile's path, and its plan is all that
/// the profile asks for.
pub proof fn known_profiles_are_suggested_whole(
    profiles: &Vec<OpenXrActionConfProfile>,
    paths: &Vec<Option<u64>>,
    list: Vec<Suggestion>,
    i: int,
)
    requires
        call_ensures(suggest_bindings, (profiles, paths), list),
        profiles@.len() == paths@.len(),
        0 <= i < paths@.len(),
    ensures
        list@.len() == known_before(paths@, paths@.len() as int),
        paths@[i] is Some ==> {
            let k = known_before(paths@, i);
            &&& 0 <= k < list@.len()
            &&& list@[k].profile == i
            &&& list@[k].profile_path == paths@[i]->0
            &&& planned(list@[k].plan@) == all_asked(profiles@[i])
        },
{
    lemma_suggestions(profiles@, paths@, profiles@.len() as int);
    assert(suggested(list@).len() == list@.len());
    if paths@[i] is Some {
        let k = known_before(paths@, i);
        assert(suggested(list@)[k] == list@[k]@);
    }
}

/// Among all that a profile asks for is each path of each action for each hand.
pub proof fn each_given_path_is_asked_for(
    profile: OpenXrActionConfProfile,
    action: BoundAction,
    hand: int,
    i: int,
)
    requires
        conf_for(profile, action) is Some,
        0 <= hand < 3,
        ({
            let conf = conf_for(profile, action)->0;
            let given = if hand == 0 {
                conf.left
            } else if hand == 1 {
                conf.right
            } else {
                conf.handsfree
            };
            0 <= i < given_paths(given).len()
        }),
    ensures
        ({
            let conf = conf_for(profile, action)->0;
            let given = if hand == 0 {
                conf.left
            } else if hand == 1 {
                conf.right
            } else {
                conf.handsfree
            };
            all_asked(profile).contains(
                PlannedView {
                    hand,
                    target: wanted_target(conf, action, given_paths(given)[i]),
                    path: given_paths(given)[i],
                },
            )
        }),
{
    let conf = conf_for(profile, action)->0;
    let given = if hand == 0 {
        conf.left
    } else if hand == 1 {
        conf.right
    } else {
        conf.handsfree
    };
    assert(profile.of(action) == Some(conf));
    lemma_all_asked(profile);
    let place = place_of_action(action);
    assert(crate::profiles::bound_action_at(place) == action);
    assert(crate::profiles::paths_of(conf.given(hand)) =~= given_paths(given));
    crate::profiles::every_path_is_bound(profile, place, hand, i, 14);
}

/// When an action has its turn.
pub open spec fn place_of_action(action: BoundAction) -> int {
    match action {
        BoundAction::Pose => 0,
        BoundAction::Haptics => 1,
        BoundAction::Scroll => 2,
        BoundAction::Slot(ClickSlot::Click) => 3,
        BoundAction::Slot(ClickSlot::AltClick) => 4,
        BoundAction::Slot(ClickSlot::Grab) => 5,
        BoundAction::Slot(ClickSlot::ShowHide) => 6,
        BoundAction::Slot(ClickSlot::ToggleDashboard) => 7,
        BoundAction::Slot(ClickSlot::SpaceDrag) => 8,
        BoundAction::Slot(ClickSlot::SpaceRotate) => 9,
        BoundAction::Slot(ClickSlot::SpaceReset) => 10,
        BoundAction::Slot(ClickSlot::ModifierRight) => 11,
        BoundAction::Slot(ClickSlot::ModifierMiddle) => 12,
        BoundAction::Slot(ClickSlot::MoveMouse) => 13,
    }
}

proof fn lemma_resolved(plan: Seq<PlannedBinding>, paths: Seq<Option<u64>>, upto: int)
    requires
        0 <= upto <= plan.len(),
        plan.len() == paths.len(),
    ensures
        ({
            let kept = crate::profiles::resolved(plan, paths, upto);
            &&& kept.len() == known_before(paths, upto)
            &&& forall|i: int|
                0 <= i < upto && #[trigger] paths[i] is Some ==> {
                    let k = known_before(paths, i);
                    &&& 0 <= k < kept.len()
                    &&& kept[k].hand == plan[i].hand
                    &&& kept[k].target == plan[i].target
                    &&& kept[k].path == paths[i]->0
                }
        }),
    decreases upto,
{
    if upto > 0 {
        lemma_resolved(plan, paths, upto - 1);
        let kept = crate::profiles::resolved(plan, paths, upto);
        let earlier = crate::profiles::resolved(plan, paths, upto - 1);
        assert forall|i: int| 0 <= i < upto && #[trigger] paths[i] is Some implies ({
            let k = known_before(paths, i);
            &&& 0 <= k < kept.len()
            &&& kept[k].hand == plan[i].hand
            &&& kept[k].target == plan[i].target
            &&& kept[k].path == paths[i]->0
        }) by {
            let k = known_before(paths, i);
            if i < upto - 1 {
                assert(kept[k] == earlier[k]);
            } else {
                assert(kept[k] == kept.last());
            }
        }
    }
}

/// Each binding whose path is known is kept, in its turn and with the number of its path,
/// and no other.
pub proof fn known_bindings_are_kept_in_turn(
    plan: &Vec<PlannedBinding>,
    paths: &Vec<Option<u64>>,
    bindings: Vec<ResolvedBinding>,
    i: int,
)
    requires
        call_ensures(keep_resolved, (plan, paths), bindings),
        plan@.len() == paths@.len(),
        0 <= i < paths@.len(),
    ensures
        bindings@.len() == known_before(paths@, paths@.len() as int),
        paths@[i] is Some ==> {
            let k = known_before(paths@, i);
            &&& 0 <= k < bindings@.len()
            &&& bindings@[k].hand == plan@[i].hand
            &&& bindings@[k].target == plan@[i].target
            &&& bindings@[k].path == paths@[i]->0
        },
{
    lemma_resolved(plan@, paths@, plan@.len() as int);
}

/// Without profiles of the user the defaults stand as they are.
pub proof fn defaults_stand_alone(
    defaults: Vec<OpenXrActionConfProfile>,
    overrides: ProfileOverrides,
    profiles: Vec<OpenXrActionConfProfile>,
)
    requires
        call_ensures(load_action_profiles, (defaults, overrides), profiles),
        overrides matches ProfileOverrides::Profiles(own) ==> own@.len() == 0,
    ensures
        profiles@ == defaults@,
{
}

/// One more profile of the user takes the place of the first of its name, or comes last
/// where there is none; the others stay.
pub proof fn one_more_profile_replaces_or_follows(
    defaults: Vec<OpenXrActionConfProfile>,
    own: Vec<OpenXrActionConfProfile>,
    more: Vec<OpenXrActionConfProfile>,
    new: OpenXrActionConfProfile,
    before: Vec<OpenXrActionConfProfile>,
    after: Vec<OpenXrActionConfProfile>,
    place: int,
)
    requires
        call_ensures(load_action_profiles, (defaults, ProfileOverrides::Profiles(own)), before),
        call_ensures(load_action_profiles, (defaults, ProfileOverrides::Profiles(more)), after),
        more@ == own@.push(new),
        0 <= place <= before@.len(),
        forall|k: int|
            0 <= k < place ==> (#[trigger] before@[k]).profile@ != new.profile@,
        place < before@.len() ==> before@[place].profile@ == new.profile@,
    ensures
        place < before@.len() ==> after@ == before@.update(place, new),
        place == before@.len() ==> after@ == before@.push(new),
{
    lemma_prefix(defaults@, own@, new, own@.len() as int);
    lemma_first(before@, new.profile@, place);
}

proof fn lemma_prefix(
    defaults: Seq<OpenXrActionConfProfile>,
    own: Seq<OpenXrActionConfProfile>,
    new: OpenXrActionConfProfile,
    upto: int,
)
    requires
        0 <= upto <= own.len(),
    ensures
        crate::profiles::with_profiles(defaults, own.push(new), upto)
            == crate::profiles::with_profiles(defaults, own, upto),
    decreases upto,
{
    if upto > 0 {
        lemma_prefix(defaults, own, new, upto - 1);
    }
}

proof fn lemma_first(profiles: Seq<OpenXrActionConfProfile>, name: Seq<char>, place: int)
    requires
        0 <= place <= profiles.len(),
        forall|k: int| 0 <= k < place ==> (#[trigger] profiles[k]).profile@ != name,
        place < profiles.len() ==> profiles[place].profile@ == name,
    ensures
        crate::profiles::first_named(profiles, name) == place,
    decreases profiles.len(),
{
    if profiles.len() > 0 && profiles[0].profile@ != name {
        let rest = profiles.drop_first();
        assert forall|k: int| 0 <= k < place - 1 implies (#[trigger] rest[k]).profile@ != name by {
            assert(rest[k] == profiles[k + 1]);
        }
        lemma_first(rest, name, place - 1);
    }
}

/// What is planned and suggested is what stands in the lists.
pub proof fn plans_say_what_stands_in_them(
    plan: Seq<PlannedBinding>,
    list: Seq<Suggestion>,
    i: int,
    k: int,
)
    ensures
        planned(plan).len() == plan.len(),
        0 <= i < plan.len() ==> {
            &&& planned(plan)[i].hand == plan[i].hand
            &&& planned(plan)[i].target == plan[i].target
            &&& planned(plan)[i].path == plan[i].path@
        },
        suggested(list).len() == list.len(),
        0 <= k < list.len() ==> {
            &&& suggested(list)[k].profile == list[k].profile
            &&& suggested(list)[k].profile_path == list[k].profile_path
            &&& suggested(list)[k].plan == planned(list[k].plan@)
        },
{
}

/// Every profile can be planned, every list of profiles suggested and loaded.
pub proof fn profiles_can_always_be_bound(
    path: &str,
    profile: &OpenXrActionConfProfile,
    profiles: &Vec<OpenXrActionConfProfile>,
    plan: &Vec<PlannedBinding>,
    paths: &Vec<Option<u64>>,
    defaults: Vec<OpenXrActionConfProfile>,
    overrides: ProfileOverrides,
)
    ensures
        call_requires(is_bool, (path,)),
        call_requires(OpenXrActionConfProfile::plan_bindings, (profile,)),
        profiles@.len() == paths@.len() ==> call_requires(suggest_bindings, (profiles, paths)),
        plan@.len() == paths@.len() ==> call_requires(keep_resolved, (plan, paths)),
        call_requires(load_action_profiles, (defaults, overrides)),
{
}

} // verus!
