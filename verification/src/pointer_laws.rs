//! What driving a pointer promises: where it is, what it does, and in which order its
//! inputs are read.

use crate::click::{click_at_start, ClickSensitivity, ClickView, CustomClickAction, ReadError};
use crate::click_laws::floor_in_force;
use crate::hand_source::{
    load_in_parts, load_stops_at_the_first_failure, step_at, ActionLoad, ActionName, HandReads,
    HandsfreePointer, HandsfreeReads, LoadStep, OpenXrHandSource, OpenXrPointer, PointerReads,
    SourceView, LOAD_STEPS,
};
use crate::location::PoseRead;
use crate::moment::Moment;
use crate::names::{slot_label, ClickSlot};
use crate::pointer::Pointer;
use crate::value_laws::flags_are_told_bit_by_bit;
use vstd::prelude::*;

verus! {

/// A pointer that was located is tracked exactly where the bit for orientations is set,
/// whatever the other bits are. There it takes the located poses, and without the bit it
/// stays where it was. A failed read is handed back and changes nothing. Nothing else of
/// the pointer changes.
pub proof fn located_pointer_is_tracked_by_its_orientation(
    pointer: &mut Pointer,
    read: &Result<PoseRead, ReadError>,
    done: Result<(), ReadError>,
)
    requires
        call_ensures(OpenXrPointer::pointer_load_pose, (pointer, read), done),
    ensures
        *read matches Err(e) ==> done == Err::<(), ReadError>(e) && *final(pointer)
            == *old(pointer),
        *read matches Ok(location) ==> {
            &&& done is Ok
            &&& final(pointer).is_tracked <==> location.location_flags % 2 == 1
            &&& location.location_flags % 2 == 1 ==> final(pointer).raw_pose
                == location.located.raw_pose && final(pointer).pose == location.located.pose
            &&& location.location_flags % 2 == 0 ==> final(pointer).raw_pose
                == old(pointer).raw_pose && final(pointer).pose == old(pointer).pose
        },
        final(pointer).handsfree == old(pointer).handsfree,
        final(pointer).interaction_enabled == old(pointer).interaction_enabled,
        final(pointer).now == old(pointer).now,
        final(pointer).before == old(pointer).before,
        *final(pointer) == old(pointer).posed(*read),
{
    if let Ok(location) = *read {
        flags_are_told_bit_by_bit(location.location_flags);
    }
}

/// Two reads that agree on the bit for orientations and on the pose lead to the same
/// pointer.
pub proof fn only_the_orientation_bit_matters(
    one: &mut Pointer,
    other: &mut Pointer,
    read: &Result<PoseRead, ReadError>,
    other_read: &Result<PoseRead, ReadError>,
    done: Result<(), ReadError>,
    other_done: Result<(), ReadError>,
)
    requires
        call_ensures(OpenXrPointer::pointer_load_pose, (one, read), done),
        call_ensures(OpenXrPointer::pointer_load_pose, (other, other_read), other_done),
        *old(one) == *old(other),
        *read is Ok,
        *other_read is Ok,
        (*read)->Ok_0.location_flags % 2 == (*other_read)->Ok_0.location_flags % 2,
        (*read)->Ok_0.located == (*other_read)->Ok_0.located,
    ensures
        *final(one) == *final(other),
        done == other_done,
{
    flags_are_told_bit_by_bit((*read)->Ok_0.location_flags);
    flags_are_told_bit_by_bit((*other_read)->Ok_0.location_flags);
}

/// Each input reads its own action.
pub proof fn reads_are_fields(reads: HandReads)
    ensures
        reads.of(ClickSlot::Click) == reads.click,
        reads.of(ClickSlot::Grab) == reads.grab,
        reads.of(ClickSlot::AltClick) == reads.alt_click,
        reads.of(ClickSlot::ShowHide) == reads.show_hide,
        reads.of(ClickSlot::ToggleDashboard) == reads.toggle_dashboard,
        reads.of(ClickSlot::SpaceDrag) == reads.space_drag,
        reads.of(ClickSlot::SpaceRotate) == reads.space_rotate,
        reads.of(ClickSlot::SpaceReset) == reads.space_reset,
        reads.of(ClickSlot::ModifierRight) == reads.modifier_right,
        reads.of(ClickSlot::ModifierMiddle) == reads.modifier_middle,
        reads.of(ClickSlot::MoveMouse) == reads.move_mouse,
{
}

/// Each input of a source is its own.
pub proof fn inputs_are_fields(source: SourceView)
    ensures
        source.of(ClickSlot::Click) == source.click,
        source.of(ClickSlot::Grab) == source.grab,
        source.of(ClickSlot::AltClick) == source.alt_click,
        source.of(ClickSlot::ShowHide) == source.show_hide,
        source.of(ClickSlot::ToggleDashboard) == source.toggle_dashboard,
        source.of(ClickSlot::SpaceDrag) == source.space_drag,
        source.of(ClickSlot::SpaceRotate) == source.space_rotate,
        source.of(ClickSlot::SpaceReset) == source.space_reset,
        source.of(ClickSlot::ModifierRight) == source.modifier_right,
        source.of(ClickSlot::ModifierMiddle) == source.modifier_middle,
        source.of(ClickSlot::MoveMouse) == source.move_mouse,
{
}

/// A new source names its actions after its side, and each of its inputs is made now
/// under its own label.
pub proof fn new_source_is_named_after_its_side(
    side: &str,
    now: Moment,
    source: OpenXrHandSource,
    slot: ClickSlot,
    pose: &ActionName,
    scroll: &ActionName,
    haptics: &ActionName,
    action: &CustomClickAction,
    pointer: OpenXrPointer,
)
    requires
        call_ensures(OpenXrHandSource::new, (side, now), source),
        call_ensures(OpenXrHandSource::pose, (&source,), pose),
        call_ensures(OpenXrHandSource::scroll, (&source,), scroll),
        call_ensures(OpenXrHandSource::haptics, (&source,), haptics),
        call_ensures(OpenXrHandSource::click_action, (&source, slot), action),
    ensures
        pose.name@ == side@ + "_hand"@,
        pose.localized@ == side@ + " hand pose"@,
        scroll.name@ == side@ + "_scroll"@,
        scroll.localized@ == side@ + " hand scroll"@,
        haptics.name@ == side@ + "_haptics"@,
        haptics.localized@ == side@ + " hand haptics"@,
        action@ == click_at_start(side@, slot_label(slot), now),
        source@.of(slot) == action@,
        source@.pose == pose@,
        source@.scroll == scroll@,
        source@.haptics == haptics@,
        call_ensures(OpenXrPointer::new, (source,), pointer) ==> pointer@ == source@,
{
}

/// When an input has its turn: clicking and grabbing before scrolling, then the others.
pub open spec fn turn_of(slot: ClickSlot) -> int {
    match slot {
        ClickSlot::Click => 0,
        ClickSlot::Grab => 1,
        ClickSlot::AltClick => 3,
        ClickSlot::ShowHide => 4,
        ClickSlot::ModifierRight => 5,
        ClickSlot::ToggleDashboard => 6,
        ClickSlot::ModifierMiddle => 7,
        ClickSlot::MoveMouse => 8,
        ClickSlot::SpaceDrag => 9,
        ClickSlot::SpaceRotate => 10,
        ClickSlot::SpaceReset => 11,
    }
}

/// What an input answers to a frame, held to its limit in force.
pub open spec fn answered(
    source: SourceView,
    pointer: Pointer,
    reads: HandReads,
    sensitivity: ClickSensitivity,
    now: Moment,
    slot: ClickSlot,
) -> Result<bool, ReadError> {
    source.of(slot).answer(
        reads.of(slot),
        floor_in_force(sensitivity, pointer.before.on(slot)),
        now,
    )
}

/// What an input has become once it has answered.
pub open spec fn noticed(
    source: SourceView,
    pointer: Pointer,
    reads: HandReads,
    sensitivity: ClickSensitivity,
    now: Moment,
    slot: ClickSlot,
) -> ClickView {
    source.of(slot).after(
        reads.of(slot),
        floor_in_force(sensitivity, pointer.before.on(slot)),
        now,
    )
}

/// The inputs have their turns until one fails, at the turn that is returned. Before it
/// every input answered, took note of the frame and is on just where it answered so, and
/// scrolling is as read. Behind it nothing has changed. At it, the failed input took what
/// note it could, and its error is the outcome.
pub proof fn actions_are_loaded_in_turn(
    xr: &mut OpenXrPointer,
    pointer: &mut Pointer,
    reads: &HandReads,
    sensitivity: ClickSensitivity,
    now: Moment,
    done: Result<(), ReadError>,
) -> (turn: int)
    requires
        call_ensures(
            OpenXrPointer::pointer_load_actions,
            (xr, pointer, reads, sensitivity, now),
            done,
        ),
    ensures
        0 <= turn <= 12,
        done is Ok <==> turn == 12,
        forall|slot: ClickSlot| #[trigger]
            turn_of(slot) < turn ==> {
                let answer = answered(old(xr)@, *old(pointer), *reads, sensitivity, now, slot);
                answer is Ok && final(pointer).now.on(slot) == answer->Ok_0
            },
        forall|slot: ClickSlot| #[trigger]
            turn_of(slot) >= turn ==> final(pointer).now.on(slot) == old(pointer).now.on(slot),
        forall|slot: ClickSlot| #[trigger]
            turn_of(slot) <= turn ==> final(xr)@.of(slot) == noticed(
                old(xr)@,
                *old(pointer),
                *reads,
                sensitivity,
                now,
                slot,
            ),
        forall|slot: ClickSlot| #[trigger]
            turn_of(slot) > turn ==> final(xr)@.of(slot) == old(xr)@.of(slot),
        forall|slot: ClickSlot| #[trigger]
            turn_of(slot) == turn ==> {
                let answer = answered(old(xr)@, *old(pointer), *reads, sensitivity, now, slot);
                answer is Err && done == Err::<(), ReadError>(answer->Err_0)
            },
        turn == 2 ==> reads.scroll is Err && done == Err::<(), ReadError>(reads.scroll->Err_0),
        turn > 2 ==> reads.scroll is Ok && final(pointer).now.scroll_x == reads.scroll->Ok_0.x
            && final(pointer).now.scroll_y == reads.scroll->Ok_0.y,
        turn <= 2 ==> final(pointer).now.scroll_x == old(pointer).now.scroll_x
            && final(pointer).now.scroll_y == old(pointer).now.scroll_y,
        *final(pointer) == (Pointer { now: final(pointer).now, ..*old(pointer) }),
        final(xr)@.pose == old(xr)@.pose,
        final(xr)@.scroll == old(xr)@.scroll,
        final(xr)@.haptics == old(xr)@.haptics,
{
    let load = ActionLoad {
        source: old(xr)@,
        pointer: *old(pointer),
        reads: *reads,
        sensitivity,
        now,
    };
    load_stops_at_the_first_failure(load);
    load_in_parts(load, ClickSlot::Click);
    assert forall|slot: ClickSlot| true implies #[trigger] step_at(turn_of(slot))
        == LoadStep::Slot(slot) && crate::hand_source::place_of(slot) == turn_of(slot) by {}
    assert(step_at(2) == LoadStep::Scroll);
    assert forall|slot: ClickSlot| #[trigger]
        turn_of(slot) < load.stop() implies load.answer(slot) is Ok by {
        assert(load.error(step_at(turn_of(slot))) is None);
    }
    assert forall|slot: ClickSlot| true implies final(pointer).now.on(slot) == load.on(slot)
        && #[trigger] final(xr)@.of(slot) == load.known(slot) by {
        load_in_parts(load, slot);
    }
    assert forall|slot: ClickSlot| #[trigger] turn_of(slot) >= 0 implies final(pointer).now.on(slot) == load.on(slot) && final(xr)@.of(slot) == load.known(slot) by {
        assert(final(xr)@.of(slot) == load.known(slot));
    }
    load.stop()
}

/// Loading depends on a pointer only through what it does and did, not on where it is.
proof fn lemma_same_load(one: ActionLoad, other: ActionLoad)
    requires
        one.source == other.source,
        one.reads == other.reads,
        one.sensitivity == other.sensitivity,
        one.now == other.now,
        one.pointer.before == other.pointer.before,
        one.pointer.now == other.pointer.now,
    ensures
        one.source_after() == other.source_after(),
        one.pointer_after().now == other.pointer_after().now,
        one.result() == other.result(),
{
    reveal(ActionLoad::source_after);
    reveal(ActionLoad::pointer_after);
    reveal(ActionLoad::result);
    lemma_same_failure(one, other, 0);
}

proof fn lemma_same_failure(one: ActionLoad, other: ActionLoad, place: int)
    requires
        0 <= place <= LOAD_STEPS,
        one.source == other.source,
        one.reads == other.reads,
        one.sensitivity == other.sensitivity,
        one.now == other.now,
        one.pointer.before == other.pointer.before,
    ensures
        one.failure_from(place) == other.failure_from(place),
    decreases LOAD_STEPS - place,
{
    if place < LOAD_STEPS {
        lemma_same_failure(one, other, place + 1);
        assert(one.error(step_at(place)) == other.error(step_at(place)));
    }
}

/// A frame with a hand: the pointer may interact, is not one without hands, and is where
/// its pose was located. A pose that could not be read ends the frame there. Otherwise
/// what it does, what its inputs become and how it ends is just what loading the actions
/// gives.
pub proof fn hand_gives_pose_and_actions(
    xr: &mut OpenXrPointer,
    pointer: &mut Pointer,
    reads: &PointerReads,
    sensitivity: ClickSensitivity,
    now: Moment,
    done: Result<(), ReadError>,
    same: &mut OpenXrPointer,
    loaded: &mut Pointer,
    load_done: Result<(), ReadError>,
)
    requires
        call_ensures(OpenXrPointer::update, (xr, pointer, reads, sensitivity, now), done),
        call_ensures(
            OpenXrPointer::pointer_load_actions,
            (same, loaded, &reads.actions, sensitivity, now),
            load_done,
        ),
        old(same)@ == old(xr)@,
        old(loaded).now == old(pointer).now,
        old(loaded).before == old(pointer).before,
    ensures
        final(pointer).interaction_enabled,
        !final(pointer).handsfree,
        final(pointer).before == old(pointer).before,
        reads.pose matches Err(e) ==> {
            &&& done == Err::<(), ReadError>(e)
            &&& final(xr)@ == old(xr)@
            &&& final(pointer).now == old(pointer).now
            &&& final(pointer).is_tracked == old(pointer).is_tracked
            &&& final(pointer).pose == old(pointer).pose
            &&& final(pointer).raw_pose == old(pointer).raw_pose
        },
        reads.pose matches Ok(location) ==> {
            &&& final(pointer).is_tracked <==> location.location_flags % 2 == 1
            &&& final(pointer).is_tracked ==> final(pointer).raw_pose == location.located.raw_pose
                && final(pointer).pose == location.located.pose
            &&& !final(pointer).is_tracked ==> final(pointer).raw_pose == old(pointer).raw_pose
                && final(pointer).pose == old(pointer).pose
            &&& final(pointer).now == final(loaded).now
            &&& final(xr)@ == final(same)@
            &&& done == load_done
        },
{
    if let Ok(location) = reads.pose {
        flags_are_told_bit_by_bit(location.location_flags);
    }
    let enabled = Pointer { interaction_enabled: true, handsfree: false, ..*old(pointer) };
    let load = ActionLoad {
        source: old(xr)@,
        pointer: enabled.posed(reads.pose),
        reads: reads.actions,
        sensitivity,
        now,
    };
    let other = ActionLoad {
        source: old(same)@,
        pointer: *old(loaded),
        reads: reads.actions,
        sensitivity,
        now,
    };
    load_in_parts(load, ClickSlot::Click);
    lemma_same_load(load, other);
}

/// A frame without hands where nothing is to point: everything stays as it was.
pub proof fn pointer_that_is_off_stays(
    xr: &mut OpenXrPointer,
    pointer: &mut Pointer,
    hmd_valid: bool,
    reads: &HandsfreeReads,
    sensitivity: ClickSensitivity,
    now: Moment,
    done: Result<(), ReadError>,
)
    requires
        call_ensures(
            OpenXrPointer::update_handsfree,
            (xr, pointer, HandsfreePointer::Off, hmd_valid, reads, sensitivity, now),
            done,
        ),
    ensures
        done is Ok,
        *final(pointer) == *old(pointer),
        final(xr)@ == old(xr)@,
{
}

/// A frame in which the head or the eyes point. The head is tracked where it is valid,
/// the eyes where the bit for orientations is set; eyes that could not be read end the
/// frame as it was. The pointer may interact, and is one without hands where it is
/// tracked. Unless only the pose is wanted, what it does is just what loading the actions
/// gives.
pub proof fn head_or_eyes_give_the_pose(
    xr: &mut OpenXrPointer,
    pointer: &mut Pointer,
    mode: HandsfreePointer,
    hmd_valid: bool,
    reads: &HandsfreeReads,
    sensitivity: ClickSensitivity,
    now: Moment,
    done: Result<(), ReadError>,
    same: &mut OpenXrPointer,
    loaded: &mut Pointer,
    load_done: Result<(), ReadError>,
)
    requires
        call_ensures(
            OpenXrPointer::update_handsfree,
            (xr, pointer, mode, hmd_valid, reads, sensitivity, now),
            done,
        ),
        call_ensures(
            OpenXrPointer::pointer_load_actions,
            (same, loaded, &reads.actions, sensitivity, now),
            load_done,
        ),
        old(same)@ == old(xr)@,
        old(loaded).now == old(pointer).now,
        old(loaded).before == old(pointer).before,
        mode != HandsfreePointer::Off,
    ensures
        ({
            let head = mode == HandsfreePointer::Hmd || mode == HandsfreePointer::HmdOnly;
            let silent = mode == HandsfreePointer::HmdOnly || mode
                == HandsfreePointer::EyeTrackingOnly;
            let lost = !head && reads.eye is Err;
            let oriented = reads.eye is Ok && reads.eye->Ok_0.location_flags % 2 == 1;
            &&& final(pointer).before == old(pointer).before
            &&& lost ==> {
                &&& done == Err::<(), ReadError>(reads.eye->Err_0)
                &&& *final(pointer) == *old(pointer)
                &&& final(xr)@ == old(xr)@
            }
            &&& !lost ==> {
                &&& final(pointer).interaction_enabled
                &&& final(pointer).handsfree == final(pointer).is_tracked
                &&& head ==> {
                    &&& final(pointer).is_tracked == hmd_valid
                    &&& final(pointer).raw_pose == reads.hmd.raw_pose
                    &&& final(pointer).pose == reads.hmd.pose
                }
                &&& !head ==> {
                    &&& final(pointer).is_tracked == oriented
                    &&& oriented ==> final(pointer).raw_pose == reads.eye->Ok_0.located.raw_pose
                        && final(pointer).pose == reads.eye->Ok_0.located.pose
                    &&& !oriented ==> final(pointer).raw_pose == old(pointer).raw_pose && final(pointer).pose == old(pointer).pose
                }
                &&& silent ==> {
                    &&& done is Ok
                    &&& final(pointer).now == old(pointer).now
                    &&& final(xr)@ == old(xr)@
                }
                &&& !silent ==> {
                    &&& done == load_done
                    &&& final(pointer).now == final(loaded).now
                    &&& final(xr)@ == final(same)@
                }
            }
        }),
{
    if let Ok(location) = reads.eye {
        flags_are_told_bit_by_bit(location.location_flags);
    }
    let moved = crate::hand_source::handsfree_moved(*old(pointer), mode, hmd_valid, *reads);
    let load = ActionLoad {
        source: old(xr)@,
        pointer: moved,
        reads: reads.actions,
        sensitivity,
        now,
    };
    let other = ActionLoad {
        source: old(same)@,
        pointer: *old(loaded),
        reads: reads.actions,
        sensitivity,
        now,
    };
    load_in_parts(load, ClickSlot::Click);
    lemma_same_load(load, other);
}

/// A source shows its own names and inputs, and a pointer its own source.
pub proof fn sources_are_shown(
    source: &OpenXrHandSource,
    slot: ClickSlot,
    name: &ActionName,
    action: &CustomClickAction,
    pointer: &OpenXrPointer,
)
    ensures
        name@.name == name.name@,
        name@.localized == name.localized@,
        call_ensures(OpenXrHandSource::pose, (source,), name) ==> name@ == source@.pose,
        call_ensures(OpenXrHandSource::scroll, (source,), name) ==> name@ == source@.scroll,
        call_ensures(OpenXrHandSource::haptics, (source,), name) ==> name@ == source@.haptics,
        call_ensures(OpenXrHandSource::click_action, (source, slot), action) ==> action@
            == source@.of(slot),
        call_ensures(OpenXrPointer::source, (pointer,), source) ==> source@ == pointer@,
{
}

/// A pointer can be driven by whatever was read, at every moment from which a history can
/// be moved back.
pub proof fn pointer_can_always_be_driven(
    xr: &mut OpenXrPointer,
    pointer: &mut Pointer,
    pose: &Result<PoseRead, ReadError>,
    actions: &HandReads,
    reads: &PointerReads,
    mode: HandsfreePointer,
    hmd_valid: bool,
    free: &HandsfreeReads,
    sensitivity: ClickSensitivity,
    now: Moment,
)
    requires
        now.nanos - 10_000_000_000 >= i64::MIN,
    ensures
        call_requires(OpenXrPointer::pointer_load_pose, (pointer, pose)),
        call_requires(
            OpenXrPointer::pointer_load_actions,
            (xr, pointer, actions, sensitivity, now),
        ),
        call_requires(OpenXrPointer::update, (xr, pointer, reads, sensitivity, now)),
        call_requires(
            OpenXrPointer::update_handsfree,
            (xr, pointer, mode, hmd_valid, free, sensitivity, now),
        ),
{
}

} // verus!
