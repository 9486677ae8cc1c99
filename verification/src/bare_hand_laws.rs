//! What bare hands promise: the gesture that switches them, and what they do to their
//! pointers.

use crate::float_bits::FloatBits;
use crate::hand_tracking::{
    apply_derived_hand_input, gesture_at, hand_name, in_order, palms_up_through, progress_toast,
    said, switch_toast, switches_at, tracking_at_start, DerivedHandInput, GestureFrame, HandEvent,
    HandLog, HandLogState, OpenXrHandTracking, Toast, ToastTopic, ToggleState,
};
use crate::moment::Moment;
use crate::names::ClickSlot;
use crate::pointer::Pointer;
use vstd::prelude::*;

verus! {

/// The hands have their names, and nothing else has one.
pub proof fn only_two_hands_have_names(idx: usize, name: &'static str)
    requires
        call_ensures(hand_name, (idx,), name),
    ensures
        idx == 0 ==> name@ == "left"@,
        idx == 1 ==> name@ == "right"@,
        idx > 1 ==> name@ == "unknown"@,
{
}

/// 0.15, 0.60, 0.65, 0.72 and 0.78.
pub open spec fn n15() -> FloatBits {
    FloatBits { bits: 0x3e19_999a }
}

pub open spec fn n60() -> FloatBits {
    FloatBits { bits: 0x3f19_999a }
}

pub open spec fn n65() -> FloatBits {
    FloatBits { bits: 0x3f26_6666 }
}

pub open spec fn n72() -> FloatBits {
    FloatBits { bits: 0x3f38_51ec }
}

pub open spec fn n78() -> FloatBits {
    FloatBits { bits: 0x3f47_ae14 }
}

/// With the interaction enabled a hand grabs exactly where its grab strength is a number
/// of at least 0.72, or of at least 0.60 after a frame in which it grabbed. It clicks
/// exactly where its pinch strength is at least 0.78, or 0.65 after a click, and its
/// grab strength is below 0.65. With the interaction disabled it does neither, and in no
/// case anything else.
pub proof fn hand_clicks_and_grabs_by_its_strengths(
    pointer: &mut Pointer,
    derived: &DerivedHandInput,
    update_pose: bool,
    interaction_enabled: bool,
    slot: ClickSlot,
)
    requires
        call_ensures(
            apply_derived_hand_input,
            (pointer, derived, update_pose, interaction_enabled),
            (),
        ),
    ensures
        final(pointer).now.grab <==> interaction_enabled && (n72().le(derived.grab_strength)
            || old(pointer).before.grab && n60().le(derived.grab_strength)),
        final(pointer).now.click <==> interaction_enabled && derived.grab_strength.lt(n65()) && (
        n78().le(derived.pinch_strength) || old(pointer).before.click && n65().le(
            derived.pinch_strength,
        )),
        slot != ClickSlot::Click && slot != ClickSlot::Grab ==> !final(pointer).now.on(slot),
        final(pointer).now.scroll_x.bits == 0,
        final(pointer).now.scroll_y.bits == 0,
        final(pointer).interaction_enabled == interaction_enabled,
        !final(pointer).handsfree,
        final(pointer).before == old(pointer).before,
{
}

/// Where the pose is taken from the hand, the pointer is there and tracked; otherwise it
/// stays where it was, and tracked or not as it was.
pub proof fn pose_is_taken_where_it_is_wanted(
    pointer: &mut Pointer,
    derived: &DerivedHandInput,
    update_pose: bool,
    interaction_enabled: bool,
)
    requires
        call_ensures(
            apply_derived_hand_input,
            (pointer, derived, update_pose, interaction_enabled),
            (),
        ),
    ensures
        update_pose ==> {
            &&& final(pointer).pose == derived.pose
            &&& final(pointer).raw_pose == derived.pose
            &&& final(pointer).is_tracked
        },
        !update_pose ==> {
            &&& final(pointer).pose == old(pointer).pose
            &&& final(pointer).raw_pose == old(pointer).raw_pose
            &&& final(pointer).is_tracked == old(pointer).is_tracked
        },
        *final(pointer) == old(pointer).driven(*derived, update_pose, interaction_enabled),
{
}

/// What a pointer does does not depend on where its pose comes from, nor on where it was.
pub proof fn gestures_do_not_depend_on_the_pose(
    one: &mut Pointer,
    other: &mut Pointer,
    derived: &DerivedHandInput,
    derived_elsewhere: &DerivedHandInput,
    interaction_enabled: bool,
)
    requires
        call_ensures(apply_derived_hand_input, (one, derived, true, interaction_enabled), ()),
        call_ensures(
            apply_derived_hand_input,
            (other, derived_elsewhere, false, interaction_enabled),
            (),
        ),
        old(one).before.click == old(other).before.click,
        old(one).before.grab == old(other).before.grab,
        derived.pinch_strength == derived_elsewhere.pinch_strength,
        derived.grab_strength == derived_elsewhere.grab_strength,
    ensures
        final(one).now == final(other).now,
{
}

/// A hand shows its palm: the palm is up and both strengths are below 0.15.
pub open spec fn open_palm(hand: DerivedHandInput) -> bool {
    hand.palm_up && hand.grab_strength.lt(n15()) && hand.pinch_strength.lt(n15())
}

/// Both hands were derived, and both show their palms.
pub open spec fn both_open(
    left: Option<(bool, DerivedHandInput)>,
    right: Option<(bool, DerivedHandInput)>,
) -> bool {
    left is Some && right is Some && open_palm((left->0).1) && open_palm((right->0).1)
}

/// How long a gesture that goes on now has been held.
pub open spec fn held(t: ToggleState, now: Moment) -> int {
    match t.palms_up_since {
        Some(since) => if since.nanos <= now.nanos {
            now.nanos - since.nanos
        } else {
            0
        },
        None => 0,
    }
}

/// How long ago the interaction was switched.
pub open spec fn rested(t: ToggleState, now: Moment) -> int {
    if t.last_toggle.nanos <= now.nanos {
        now.nanos - t.last_toggle.nanos
    } else {
        0
    }
}

/// The stage that is reached when the gesture has been held that long: the next one every
/// 350 ms, up to the fourth.
pub open spec fn reached(nanos: int, stage: int) -> bool {
    1 <= stage <= 4 && stage * 350_000_000 <= nanos && (stage < 4 ==> nanos < (stage + 1)
        * 350_000_000)
}

/// A frame of the gesture: with a palm down it starts anew and tells nothing. With both
/// up it goes on since its first frame. It is complete after 1.4 seconds, if the last
/// switch was at least two seconds ago, and then switches the interaction; a new stage is
/// told when it is reached.
pub proof fn gesture_goes_on_from_its_first_frame(t: ToggleState, palms_up: bool, now: Moment)
    ensures
        t.toggles(palms_up, now) <==> palms_up && held(t, now) >= 1_400_000_000 && rested(t, now)
            >= 2_000_000_000,
        !palms_up ==> {
            &&& t.after(palms_up, now).palms_up_since is None
            &&& t.after(palms_up, now).last_toggle_progress_stage == 0
        },
        palms_up && !t.toggles(palms_up, now) ==> t.after(palms_up, now).palms_up_since == Some(
            match t.palms_up_since {
                Some(since) => since,
                None => now,
            },
        ),
        t.toggles(palms_up, now) ==> {
            &&& t.after(palms_up, now).palms_up_since is None
            &&& t.after(palms_up, now).last_toggle_progress_stage == 0
            &&& t.after(palms_up, now).last_toggle == now
            &&& t.after(palms_up, now).interaction_enabled != t.interaction_enabled
        },
        !t.toggles(palms_up, now) ==> {
            &&& t.after(palms_up, now).last_toggle == t.last_toggle
            &&& t.after(palms_up, now).interaction_enabled == t.interaction_enabled
        },
        forall|stage: int|
            palms_up && !t.toggles(palms_up, now) && #[trigger] reached(held(t, now), stage)
                ==> t.after(palms_up, now).last_toggle_progress_stage == stage,
        palms_up && held(t, now) < 350_000_000 ==> t.after(
            palms_up,
            now,
        ).last_toggle_progress_stage == t.last_toggle_progress_stage,
{
}

/// What a frame of the gesture tells: the stage that it reaches, unless that was told
/// already, and then a switch.
pub proof fn gesture_tells_its_stages_and_switches(
    t: ToggleState,
    palms_up: bool,
    now: Moment,
    stage: int,
)
    ensures
        ({
            let told = t.notices(palms_up, now);
            let progress = palms_up && reached(held(t, now), stage) && stage
                != t.last_toggle_progress_stage;
            &&& told.contains(progress_toast(stage)) && 1 <= stage <= 4 ==> palms_up
            &&& progress ==> told.len() > 0 && told[0] == progress_toast(stage)
            &&& progress ==> told.len() == (if t.toggles(palms_up, now) { 2int } else { 1 })
            &&& palms_up && reached(held(t, now), stage) && stage == t.last_toggle_progress_stage
                ==> told.len() == (if t.toggles(palms_up, now) { 1int } else { 0 })
            &&& palms_up && held(t, now) < 350_000_000 ==> told.len() == 0
            &&& !palms_up ==> told.len() == 0
            &&& t.toggles(palms_up, now) ==> told.len() > 0 && told.last() == switch_toast(
                !t.interaction_enabled,
            )
        }),
{
    let told = t.notices(palms_up, now);
    if t.toggles(palms_up, now) {
        assert(told.last() == switch_toast(!t.interaction_enabled));
    }
}

/// A tracker that is made can switch, starts now, and exists exactly where both hands
/// are tracked.
pub proof fn made_tracking_starts_anew(
    left: bool,
    right: bool,
    now: Moment,
    tracking: Option<OpenXrHandTracking>,
    enabled: bool,
)
    requires
        call_ensures(OpenXrHandTracking::new, (left, right, now), tracking),
    ensures
        tracking is Some <==> left && right,
        tracking matches Some(made) ==> {
            &&& made@ == tracking_at_start(now)
            &&& made@.toggle.interaction_enabled
            &&& made@.toggle.palms_up_since is None
            &&& made@.toggle.last_toggle == now
            &&& made@.toggle.last_toggle_progress_stage == 0
            &&& made@.hands.len() == 2
            &&& !made@.hands[0].logged_joint_success && !made@.hands[1].logged_joint_success
            &&& made@.hands[0].last_missing_joint_log == now
            &&& made@.hands[1].last_missing_joint_log == now
            &&& made@.hands[0].last_joint_error_log == now
            &&& made@.hands[1].last_joint_error_log == now
            &&& call_ensures(OpenXrHandTracking::interaction_enabled, (&made,), enabled)
                ==> enabled == made@.toggle.interaction_enabled
        },
{
}

/// The gesture goes on by whether both palms are open. A switch stops both pointers and
/// sets whether they may interact; without one they stay as they are. What is logged of
/// the hands stays.
pub proof fn open_palms_drive_the_gesture(
    tracking: &mut OpenXrHandTracking,
    pointers: &mut [Pointer; 2],
    derived: &[Option<(bool, DerivedHandInput)>; 2],
    now: Moment,
    toasts: &mut Vec<Toast>,
    i: int,
    slot: ClickSlot,
)
    requires
        call_ensures(
            OpenXrHandTracking::update_interaction_toggle,
            (tracking, pointers, derived, now, toasts),
            (),
        ),
        0 <= i < 2,
    ensures
        ({
            let up = both_open(derived@[0], derived@[1]);
            let before = old(tracking)@.toggle;
            let pointer = old(pointers)@[i];
            let after = final(pointers)@[i];
            &&& final(tracking)@.toggle == before.after(up, now)
            &&& final(tracking)@.hands == old(tracking)@.hands
            &&& said(final(toasts)@) == said(old(toasts)@) + before.notices(up, now)
            &&& !before.toggles(up, now) ==> after == pointer
            &&& before.toggles(up, now) ==> {
                &&& !after.now.on(slot)
                &&& after.now.scroll_x.bits == 0 && after.now.scroll_y.bits == 0
                &&& after.interaction_enabled != before.interaction_enabled
                &&& after.pose == pointer.pose && after.raw_pose == pointer.raw_pose
                &&& after.is_tracked == pointer.is_tracked
                &&& after.handsfree == pointer.handsfree
                &&& after.before == pointer.before
            }
        }),
{
    lemma_both_open(derived@);
}

proof fn lemma_both_open(derived: Seq<Option<(bool, DerivedHandInput)>>)
    requires
        derived.len() == 2,
    ensures
        crate::hand_tracking::both_palms_up(derived) <==> both_open(derived[0], derived[1]),
{
    if crate::hand_tracking::both_palms_up(derived) {
        assert(derived[0] is Some);
        assert(derived[1] is Some);
    }
    if both_open(derived[0], derived[1]) {
        assert forall|i: int| 0 <= i < derived.len() implies #[trigger] derived[i] is Some && (
        derived[i]->0).1.shows_palm() by {
            assert(i == 0 || i == 1);
        }
    }
}

/// The hand of an event, where its joints were derived.
pub open spec fn seen(pointer: Pointer, event: HandEvent) -> Option<(bool, DerivedHandInput)> {
    match event {
        HandEvent::Derived(derived) => Some((pointer.is_tracked, derived)),
        _ => None,
    }
}

/// The pointers follow the hands that were derived: each clicks and grabs by its
/// strengths, as far as the interaction is enabled after the frame, and takes its pose
/// from the hand exactly where it had none. A pointer whose hand was not derived stays as
/// it was. The answer is whether any pointer has a pose.
pub proof fn derived_hands_drive_their_pointers(
    tracking: &mut OpenXrHandTracking,
    pointers: &mut [Pointer; 2],
    events: &[HandEvent; 2],
    now: Moment,
    toasts: &mut Vec<Toast>,
    logs: &mut Vec<HandLog>,
    any_tracked: bool,
    i: int,
    slot: ClickSlot,
)
    requires
        call_ensures(
            OpenXrHandTracking::update,
            (tracking, pointers, events, now, toasts, logs),
            any_tracked,
        ),
        0 <= i < 2,
    ensures
        ({
            let up = both_open(
                seen(old(pointers)@[0], events@[0]),
                seen(old(pointers)@[1], events@[1]),
            );
            let gesture = old(tracking)@.toggle;
            let pointer = old(pointers)@[i];
            let after = final(pointers)@[i];
            let enabled = final(tracking)@.toggle.interaction_enabled;
            &&& final(tracking)@.toggle == gesture.after(up, now)
            &&& said(final(toasts)@) == said(old(toasts)@) + gesture.notices(up, now)
            &&& any_tracked <==> final(pointers)@[0].is_tracked || final(pointers)@[1].is_tracked
            &&& after.before == pointer.before
            &&& !(events@[i] is Derived) ==> after == pointer
            &&& events@[i] matches HandEvent::Derived(hand) ==> {
                &&& after.is_tracked
                &&& !after.handsfree
                &&& after.interaction_enabled == enabled
                &&& after.pose == (if pointer.is_tracked { pointer.pose } else { hand.pose })
                &&& after.raw_pose == (if pointer.is_tracked {
                    pointer.raw_pose
                } else {
                    hand.pose
                })
                &&& after.now.grab <==> enabled && (n72().le(hand.grab_strength)
                    || pointer.before.grab && n60().le(hand.grab_strength))
                &&& after.now.click <==> enabled && hand.grab_strength.lt(n65()) && (n78().le(
                    hand.pinch_strength,
                ) || pointer.before.click && n65().le(hand.pinch_strength))
                &&& slot != ClickSlot::Click && slot != ClickSlot::Grab ==> !after.now.on(slot)
                &&& after.now.scroll_x.bits == 0 && after.now.scroll_y.bits == 0
            }
        }),
{
    lemma_seen(old(pointers)@, events@);
}

proof fn lemma_seen(pointers: Seq<Pointer>, events: Seq<HandEvent>)
    ensures
        crate::hand_tracking::hands_show_palms(pointers, events) <==> both_open(
            seen(pointers[0], events[0]),
            seen(pointers[1], events[1]),
        ),
{
    let derived = crate::hand_tracking::derived_all(pointers, events);
    lemma_both_open(derived);
    assert(derived[0] == seen(pointers[0], events[0]));
    assert(derived[1] == seen(pointers[1], events[1]));
}

/// A line is logged of a hand: of the first joints that were derived, and of trouble once
/// in two seconds, counted apart for failures.
pub open spec fn worth_logging(hand: HandLogState, event: HandEvent, now: Moment) -> bool {
    match event {
        HandEvent::Derived(_) => !hand.logged_joint_success,
        HandEvent::Failed(_) => now.nanos - hand.last_joint_error_log.nanos >= 2_000_000_000,
        _ => now.nanos - hand.last_missing_joint_log.nanos >= 2_000_000_000,
    }
}

/// What is remembered of a hand changes with what is logged, and only so.
pub proof fn logging_is_remembered(hand: HandLogState, event: HandEvent, now: Moment)
    ensures
        ({
            let after = hand.after(event, now);
            let logged = worth_logging(hand, event, now);
            &&& hand.logs(event, now) <==> logged
            &&& after.logged_joint_success <==> hand.logged_joint_success || event is Derived
            &&& after.last_joint_error_log == (if logged && event is Failed {
                now
            } else {
                hand.last_joint_error_log
            })
            &&& after.last_missing_joint_log == (if logged && (event is Lacking
                || event is Missing) {
                now
            } else {
                hand.last_missing_joint_log
            })
        }),
{
}

/// The line of a hand, where there is one.
pub open spec fn line(
    hands: Seq<HandLogState>,
    pointers: Seq<Pointer>,
    events: Seq<HandEvent>,
    now: Moment,
    i: int,
) -> Seq<HandLog> {
    if worth_logging(hands[i], events[i], now) {
        seq![HandLog { hand: i as usize, had_pose: pointers[i].is_tracked, event: events[i] }]
    } else {
        seq![]
    }
}

/// The lines of the left hand come before those of the right one, and each hand is
/// remembered for itself.
pub proof fn hands_are_logged_in_turn(
    tracking: &mut OpenXrHandTracking,
    pointers: &mut [Pointer; 2],
    events: &[HandEvent; 2],
    now: Moment,
    toasts: &mut Vec<Toast>,
    logs: &mut Vec<HandLog>,
    any_tracked: bool,
)
    requires
        call_ensures(
            OpenXrHandTracking::update,
            (tracking, pointers, events, now, toasts, logs),
            any_tracked,
        ),
    ensures
        ({
            let hands = old(tracking)@.hands;
            &&& final(logs)@ == old(logs)@ + line(hands, old(pointers)@, events@, now, 0) + line(
                hands,
                old(pointers)@,
                events@,
                now,
                1,
            )
            &&& final(tracking)@.hands.len() == 2
            &&& final(tracking)@.hands[0] == hands[0].after(events@[0], now)
            &&& final(tracking)@.hands[1] == hands[1].after(events@[1], now)
        }),
{
    let hands = old(tracking)@.hands;
    reveal_with_fuel(crate::hand_tracking::logs_up_to, 3);
    logging_is_remembered(hands[0], events@[0], now);
    logging_is_remembered(hands[1], events@[1], now);
    assert(final(logs)@ =~= old(logs)@ + line(hands, old(pointers)@, events@, now, 0) + line(
        hands,
        old(pointers)@,
        events@,
        now,
        1,
    ));
}

/// No frame from `i` on, up to and without `j`, switches.
pub open spec fn no_switch(start: ToggleState, frames: Seq<GestureFrame>, i: int, j: int) -> bool {
    forall|k: int| i <= k < j ==> !#[trigger] switches_at(start, frames, k)
}

/// The gesture begins with frame `i`: a palm was down before, or a switch has just ended
/// the last gesture.
pub open spec fn begins_at(start: ToggleState, frames: Seq<GestureFrame>, i: int) -> bool {
    i == 0 || !frames[i - 1].palms_up || switches_at(start, frames, i - 1)
}

/// While both palms stay up and nothing is switched, the gesture counts from the frame
/// with which it began.
pub proof fn gesture_counts_from_where_it_began(
    created: Moment,
    frames: Seq<GestureFrame>,
    i: int,
    j: int,
)
    requires
        0 <= i < j <= frames.len(),
        begins_at(tracking_at_start(created).toggle, frames, i),
        palms_up_through(frames, i, j),
        no_switch(tracking_at_start(created).toggle, frames, i, j),
    ensures
        gesture_at(tracking_at_start(created).toggle, frames, j).palms_up_since == Some(
            frames[i].now,
        ),
    decreases j - i,
{
    let start = tracking_at_start(created).toggle;
    assert(frames[j - 1].palms_up);
    assert(!switches_at(start, frames, j - 1));
    if j > i + 1 {
        assert(palms_up_through(frames, i, j - 1));
        assert(no_switch(start, frames, i, j - 1));
        gesture_counts_from_where_it_began(created, frames, i, j - 1);
    }
}

/// When the interaction was last switched before frame `j`, or made where it never was.
pub open spec fn last_switch(
    created: Moment,
    start: ToggleState,
    frames: Seq<GestureFrame>,
    j: int,
) -> Moment
    decreases j,
{
    if j <= 0 {
        created
    } else if switches_at(start, frames, j - 1) {
        frames[j - 1].now
    } else {
        last_switch(created, start, frames, j - 1)
    }
}

proof fn lemma_last_switch(created: Moment, frames: Seq<GestureFrame>, j: int)
    ensures
        gesture_at(tracking_at_start(created).toggle, frames, j).last_toggle == last_switch(
            created,
            tracking_at_start(created).toggle,
            frames,
            j,
        ),
    decreases j,
{
    if j > 0 {
        lemma_last_switch(created, frames, j - 1);
    }
}

/// While both palms are up, a frame switches the interaction exactly where the gesture
/// began at least 1.4 seconds ago and the last switch, or the creation, was at least two
/// seconds ago.
pub proof fn held_palms_switch_when_it_is_time(
    created: Moment,
    frames: Seq<GestureFrame>,
    i: int,
    j: int,
)
    requires
        in_order(frames),
        0 <= i <= j < frames.len(),
        begins_at(tracking_at_start(created).toggle, frames, i),
        palms_up_through(frames, i, j + 1),
        no_switch(tracking_at_start(created).toggle, frames, i, j),
    ensures
        ({
            let start = tracking_at_start(created).toggle;
            switches_at(start, frames, j) <==> frames[j].now.nanos - frames[i].now.nanos
                >= 1_400_000_000 && frames[j].now.nanos - last_switch(
                created,
                start,
                frames,
                j,
            ).nanos >= 2_000_000_000
        }),
{
    let start = tracking_at_start(created).toggle;
    assert(frames[j].palms_up);
    lemma_last_switch(created, frames, j);
    if i < j {
        assert(palms_up_through(frames, i, j));
        gesture_counts_from_where_it_began(created, frames, i, j);
        assert(frames[i].now.nanos <= frames[j].now.nanos);
    } else {
        lemma_begins(created, frames, i);
    }
}

proof fn lemma_begins(created: Moment, frames: Seq<GestureFrame>, i: int)
    requires
        0 <= i,
        begins_at(tracking_at_start(created).toggle, frames, i),
    ensures
        gesture_at(tracking_at_start(created).toggle, frames, i).palms_up_since is None,
        gesture_at(
            tracking_at_start(created).toggle,
            frames,
            i,
        ).last_toggle_progress_stage == 0,
{
}

/// Holding both palms up long enough always switches the interaction: where both are up
/// in every frame from `i` through `j`, `j` is at least 1.4 seconds after `i` and at
/// least two seconds after the creation and after every switch before `i`, one of these
/// frames switches.
pub proof fn palms_held_long_enough_switch(
    created: Moment,
    frames: Seq<GestureFrame>,
    i: int,
    j: int,
)
    requires
        in_order(frames),
        0 <= i <= j < frames.len(),
        palms_up_through(frames, i, j + 1),
        frames[j].now.nanos - frames[i].now.nanos >= 1_400_000_000,
        frames[j].now.nanos - created.nanos >= 2_000_000_000,
        forall|k: int|
            0 <= k < i && #[trigger] switches_at(tracking_at_start(created).toggle, frames, k)
                ==> frames[j].now.nanos - frames[k].now.nanos >= 2_000_000_000,
    ensures
        exists|k: int|
            i <= k <= j && #[trigger] switches_at(tracking_at_start(created).toggle, frames, k),
{
    let start = tracking_at_start(created).toggle;
    if no_switch(start, frames, i, j) {
        lemma_held_at_least(created, frames, i, j);
        lemma_last_switch(created, frames, j);
        lemma_last_switch_is_old(created, frames, i, j);
        assert(frames[j].palms_up);
        assert(switches_at(start, frames, j));
    } else {
        let k = choose|k: int| i <= k < j && #[trigger] switches_at(start, frames, k);
        assert(switches_at(start, frames, k));
    }
}

proof fn lemma_last_switch_is_old(
    created: Moment,
    frames: Seq<GestureFrame>,
    i: int,
    j: int,
)
    requires
        0 <= i <= j,
        no_switch(tracking_at_start(created).toggle, frames, i, j),
    ensures
        ({
            let start = tracking_at_start(created).toggle;
            let last = last_switch(created, start, frames, j);
            last == created || exists|k: int|
                0 <= k < i && #[trigger] switches_at(start, frames, k) && frames[k].now == last
        }),
    decreases j,
{
    let start = tracking_at_start(created).toggle;
    if j > i {
        assert(!switches_at(start, frames, j - 1));
        assert(no_switch(start, frames, i, j - 1));
        lemma_last_switch_is_old(created, frames, i, j - 1);
    } else if j > 0 {
        if !switches_at(start, frames, j - 1) {
            assert(no_switch(start, frames, j - 1, j - 1));
            lemma_last_switch_is_old(created, frames, j - 1, j - 1);
        }
    }
}

/// A gesture that is on before frame `j` began no later than any frame since which both
/// palms were up without a switch.
proof fn lemma_held_at_least(created: Moment, frames: Seq<GestureFrame>, i: int, j: int)
    requires
        in_order(frames),
        0 <= i < j <= frames.len(),
        palms_up_through(frames, i, j),
        no_switch(tracking_at_start(created).toggle, frames, i, j),
    ensures
        ({
            let before = gesture_at(tracking_at_start(created).toggle, frames, j);
            before.palms_up_since is Some && before.palms_up_since->0.nanos
                <= frames[i].now.nanos
        }),
    decreases j - i,
{
    let start = tracking_at_start(created).toggle;
    assert(frames[j - 1].palms_up);
    assert(!switches_at(start, frames, j - 1));
    if j > i + 1 {
        assert(palms_up_through(frames, i, j - 1));
        assert(no_switch(start, frames, i, j - 1));
        lemma_held_at_least(created, frames, i, j - 1);
    } else {
        lemma_began_before(created, frames, i);
    }
}

proof fn lemma_began_before(created: Moment, frames: Seq<GestureFrame>, i: int)
    requires
        in_order(frames),
        0 <= i < frames.len(),
    ensures
        gesture_at(
            tracking_at_start(created).toggle,
            frames,
            i,
        ).palms_up_since matches Some(since) ==> since.nanos <= frames[i].now.nanos,
    decreases i,
{
    if i > 0 {
        lemma_began_before(created, frames, i - 1);
        assert(frames[i - 1].now.nanos <= frames[i].now.nanos);
    }
}

/// While the gesture goes on, a frame tells of a stage exactly where it is the first to
/// reach it: it has been held that long, and had not been in the frame before.
pub proof fn stages_are_told_when_reached(
    created: Moment,
    frames: Seq<GestureFrame>,
    i: int,
    j: int,
    stage: int,
)
    requires
        in_order(frames),
        0 <= i < j < frames.len(),
        begins_at(tracking_at_start(created).toggle, frames, i),
        palms_up_through(frames, i, j + 1),
        no_switch(tracking_at_start(created).toggle, frames, i, j),
        reached(frames[j].now.nanos - frames[i].now.nanos, stage),
    ensures
        ({
            let told = gesture_at(tracking_at_start(created).toggle, frames, j).notices(
                true,
                frames[j].now,
            );
            let before = frames[j - 1].now.nanos - frames[i].now.nanos;
            &&& before < stage * 350_000_000 ==> told.len() > 0 && told[0] == progress_toast(
                stage,
            )
            &&& before >= stage * 350_000_000 ==> told.len() == (if switches_at(
                tracking_at_start(created).toggle,
                frames,
                j,
            ) {
                1int
            } else {
                0
            })
        }),
{
    let start = tracking_at_start(created).toggle;
    assert(frames[j].palms_up);
    assert(palms_up_through(frames, i, j));
    gesture_counts_from_where_it_began(created, frames, i, j);
    lemma_stage_in_gesture(created, frames, i, j);
    assert(frames[i].now.nanos <= frames[j - 1].now.nanos);
    assert(frames[j - 1].now.nanos <= frames[j].now.nanos);
    let t = gesture_at(start, frames, j);
    let n = t.last_toggle_progress_stage as int;
    assert(held(t, frames[j].now) == frames[j].now.nanos - frames[i].now.nanos);
    gesture_tells_its_stages_and_switches(t, true, frames[j].now, stage);
}

proof fn lemma_stage_in_gesture(created: Moment, frames: Seq<GestureFrame>, i: int, j: int)
    requires
        in_order(frames),
        0 <= i < j <= frames.len(),
        begins_at(tracking_at_start(created).toggle, frames, i),
        palms_up_through(frames, i, j),
        no_switch(tracking_at_start(created).toggle, frames, i, j),
    ensures
        ({
            let n = gesture_at(
                tracking_at_start(created).toggle,
                frames,
                j,
            ).last_toggle_progress_stage as int;
            let held = frames[j - 1].now.nanos - frames[i].now.nanos;
            (n == 0 && held < 350_000_000) || reached(held, n)
        }),
    decreases j - i,
{
    let start = tracking_at_start(created).toggle;
    assert(frames[j - 1].palms_up);
    assert(!switches_at(start, frames, j - 1));
    assert(frames[i].now.nanos <= frames[j - 1].now.nanos);
    if j > i + 1 {
        assert(palms_up_through(frames, i, j - 1));
        assert(no_switch(start, frames, i, j - 1));
        assert(frames[i].now.nanos <= frames[j - 2].now.nanos);
        assert(frames[j - 2].now.nanos <= frames[j - 1].now.nanos);
        gesture_counts_from_where_it_began(created, frames, i, j - 1);
        lemma_stage_in_gesture(created, frames, i, j - 1);
        let t = gesture_at(start, frames, j - 1);
        gesture_goes_on_from_its_first_frame(t, true, frames[j - 1].now);
        lemma_some_stage(held(t, frames[j - 1].now));
    } else {
        lemma_begins(created, frames, i);
    }
}

/// Every time from 350 ms on has a stage.
proof fn lemma_some_stage(nanos: int)
    ensures
        nanos >= 350_000_000 ==> reached(nanos, 1) || reached(nanos, 2) || reached(nanos, 3)
            || reached(nanos, 4),
{
}

/// What the notices say, and for how long: progress for 0.45 seconds, with its own sign for
/// each stage, and a switch for the usual time.
pub proof fn notices_say_what_happens(stage: int, enabled: bool)
    ensures
        progress_toast(stage).topic == ToastTopic::DesktopNotification,
        progress_toast(stage).title == (if stage == 1 {
            "◔"@
        } else if stage == 2 {
            "◑"@
        } else if stage == 3 {
            "◕"@
        } else {
            "●"@
        }) + " Hand toggle"@,
        progress_toast(stage).body == "Hold both palms up"@,
        progress_toast(stage).timeout == Some(FloatBits { bits: 0x3ee6_6666 }),
        switch_toast(enabled).topic == ToastTopic::DesktopNotification,
        switch_toast(enabled).title == "Hand input"@,
        switch_toast(enabled).body == "Hand interaction "@ + (if enabled {
            "enabled"@
        } else {
            "disabled"@
        }),
        switch_toast(enabled).timeout is None,
{
}

/// What is said is what stands in the notices.
pub proof fn notices_are_said_as_they_stand(toasts: Seq<Toast>, i: int)
    requires
        0 <= i < toasts.len(),
    ensures
        said(toasts).len() == toasts.len(),
        said(toasts)[i].topic == toasts[i].topic,
        said(toasts)[i].title == toasts[i].title@,
        said(toasts)[i].body == toasts[i].body@,
        said(toasts)[i].timeout == toasts[i].timeout,
{
}

/// Whether bare hands can interact can be asked at any time.
pub proof fn interaction_is_shown(tracking: &OpenXrHandTracking, answer: bool)
    requires
        call_ensures(OpenXrHandTracking::interaction_enabled, (tracking,), answer),
    ensures
        answer == tracking@.toggle.interaction_enabled,
{
}

/// Bare hands can be followed in every frame.
pub proof fn bare_hands_can_always_be_followed(
    tracking: &mut OpenXrHandTracking,
    pointer: &mut Pointer,
    hand: &DerivedHandInput,
    update_pose: bool,
    enabled: bool,
    pointers: &mut [Pointer; 2],
    derived: &[Option<(bool, DerivedHandInput)>; 2],
    events: &[HandEvent; 2],
    now: Moment,
    toasts: &mut Vec<Toast>,
    logs: &mut Vec<HandLog>,
)
    ensures
        call_requires(apply_derived_hand_input, (pointer, hand, update_pose, enabled)),
        call_requires(
            OpenXrHandTracking::update_interaction_toggle,
            (tracking, pointers, derived, now, toasts),
        ),
        call_requires(
            OpenXrHandTracking::update,
            (tracking, pointers, events, now, toasts, logs),
        ),
{
}

} // verus!
