//! How a frame is put together: the head, the left hand, the right hand, bare hands, and
//! then what points without hands.

use crate::click::ReadError;
use crate::hand_source::{source_at_start, ActionName, OpenXrHandSource, OpenXrPointer};
use crate::hand_tracking::{
    hands_found, said, tracking_at_start, HandLog, OpenXrHandTracking, Toast,
};
use crate::input_source::{
    FrameReads, InputSettings, InputState, InputView, OpenXrInputSource,
};
use crate::moment::Moment;
use crate::pointer::Pointer;
use crate::value_laws::flags_are_told_bit_by_bit;
use vstd::prelude::*;

verus! {

/// A new input source has the inputs of both hands and of the pointer without hands, and
/// tracks bare hands exactly where there is a tracker for each.
pub proof fn new_source_has_three_sides(
    left_tracker: bool,
    right_tracker: bool,
    now: Moment,
    source: OpenXrInputSource,
)
    requires
        call_ensures(OpenXrInputSource::new, (left_tracker, right_tracker, now), source),
    ensures
        source@.pointers.len() == 2,
        source@.pointers[0] == source_at_start("left"@, now),
        source@.pointers[1] == source_at_start("right"@, now),
        source@.handsfree_pointer == source_at_start("handsfree"@, now),
        source@.hand_tracking == (if left_tracker && right_tracker {
            Some(tracking_at_start(now))
        } else {
            None
        }),
{
}

/// In every frame, however it ends, the head follows what is valid of its location, and
/// the devices stay.
pub proof fn frame_moves_the_head(
    source: &mut OpenXrInputSource,
    state: &mut InputState,
    frame: &FrameReads,
    settings: InputSettings,
    now: Moment,
    toasts: &mut Vec<Toast>,
    logs: &mut Vec<HandLog>,
    done: Result<(), ReadError>,
)
    requires
        call_ensures(
            OpenXrInputSource::update,
            (source, state, frame, settings, now, toasts, logs),
            done,
        ),
    ensures
        ({
            let flags = frame.head.location_flags;
            &&& flags % 2 == 1 ==> final(state).hmd.matrix3 == frame.head.pose.matrix3
            &&& flags % 2 == 0 ==> final(state).hmd.matrix3 == old(state).hmd.matrix3
            &&& flags / 2 % 2 == 1 ==> final(state).hmd.translation == frame.head.pose.translation
            &&& flags / 2 % 2 == 0 ==> final(state).hmd.translation == old(state).hmd.translation
            &&& final(state).devices@ == old(state).devices@
        }),
{
    flags_are_told_bit_by_bit(frame.head.location_flags);
}

/// The hands come first: each pointer becomes what its own hand makes of it. A left hand
/// that fails ends the frame before the right one, and a right hand that fails ends it
/// behind; nothing else has changed then, and there is nothing to tell.
pub proof fn failing_hand_ends_the_frame(
    source: &mut OpenXrInputSource,
    state: &mut InputState,
    frame: &FrameReads,
    settings: InputSettings,
    now: Moment,
    toasts: &mut Vec<Toast>,
    logs: &mut Vec<HandLog>,
    done: Result<(), ReadError>,
    left: &mut OpenXrPointer,
    left_pointer: &mut Pointer,
    left_done: Result<(), ReadError>,
    right: &mut OpenXrPointer,
    right_pointer: &mut Pointer,
    right_done: Result<(), ReadError>,
)
    requires
        call_ensures(
            OpenXrInputSource::update,
            (source, state, frame, settings, now, toasts, logs),
            done,
        ),
        old(source)@.well_formed(),
        call_ensures(
            OpenXrPointer::update,
            (left, left_pointer, &frame.hands@[0], settings.sensitivity, now),
            left_done,
        ),
        old(left)@ == old(source)@.pointers[0],
        *old(left_pointer) == old(state).pointers@[0],
        call_ensures(
            OpenXrPointer::update,
            (right, right_pointer, &frame.hands@[1], settings.sensitivity, now),
            right_done,
        ),
        old(right)@ == old(source)@.pointers[1],
        *old(right_pointer) == old(state).pointers@[1],
        left_done is Err || right_done is Err,
    ensures
        ({
            &&& final(source)@.hand_tracking == old(source)@.hand_tracking
            &&& final(source)@.handsfree_pointer == old(source)@.handsfree_pointer
            &&& said(final(toasts)@) == said(old(toasts)@)
            &&& final(logs)@ == old(logs)@
            &&& final(source)@.pointers[0] == final(left)@
            &&& final(state).pointers@[0] == *final(left_pointer)
            &&& left_done is Err ==> {
                &&& done == left_done
                &&& final(source)@.pointers[1] == old(source)@.pointers[1]
                &&& final(state).pointers@[1] == old(state).pointers@[1]
            }
            &&& left_done is Ok ==> {
                &&& done == right_done
                &&& final(source)@.pointers[1] == final(right)@
                &&& final(state).pointers@[1] == *final(right_pointer)
            }
        }),
{
    reveal(InputView::handled);
    assert(said(final(toasts)@) =~= said(old(toasts)@));
    assert(final(logs)@ =~= old(logs)@);
}

/// Without trackers for bare hands: where a hand points, the pointers are what the hands
/// made of them. Where none does, the first of them is handed to what points without
/// hands, and that is how the frame ends.
pub proof fn frame_without_trackers(
    source: &mut OpenXrInputSource,
    state: &mut InputState,
    frame: &FrameReads,
    settings: InputSettings,
    now: Moment,
    toasts: &mut Vec<Toast>,
    logs: &mut Vec<HandLog>,
    done: Result<(), ReadError>,
    left: &mut OpenXrPointer,
    left_pointer: &mut Pointer,
    right: &mut OpenXrPointer,
    right_pointer: &mut Pointer,
    free: &mut OpenXrPointer,
    free_pointer: &mut Pointer,
    free_done: Result<(), ReadError>,
    hmd_valid: bool,
)
    requires
        call_ensures(
            OpenXrInputSource::update,
            (source, state, frame, settings, now, toasts, logs),
            done,
        ),
        old(source)@.well_formed(),
        old(source)@.hand_tracking is None,
        call_ensures(
            OpenXrPointer::update,
            (left, left_pointer, &frame.hands@[0], settings.sensitivity, now),
            Ok(()),
        ),
        old(left)@ == old(source)@.pointers[0],
        *old(left_pointer) == old(state).pointers@[0],
        call_ensures(
            OpenXrPointer::update,
            (right, right_pointer, &frame.hands@[1], settings.sensitivity, now),
            Ok(()),
        ),
        old(right)@ == old(source)@.pointers[1],
        *old(right_pointer) == old(state).pointers@[1],
        call_ensures(
            OpenXrPointer::update_handsfree,
            (
                free,
                free_pointer,
                settings.handsfree_pointer,
                hmd_valid,
                &frame.handsfree,
                settings.sensitivity,
                now,
            ),
            free_done,
        ),
        old(free)@ == old(source)@.handsfree_pointer,
        *old(free_pointer) == *final(left_pointer),
        hmd_valid <==> frame.head.location_flags % 2 == 1 && frame.head.location_flags / 2 % 2
            == 1,
    ensures
        ({
            let points = final(left_pointer).is_tracked || final(right_pointer).is_tracked;
            &&& final(source)@.hand_tracking is None
            &&& said(final(toasts)@) == said(old(toasts)@)
            &&& final(logs)@ == old(logs)@
            &&& final(source)@.pointers[0] == final(left)@
            &&& final(source)@.pointers[1] == final(right)@
            &&& final(state).pointers@[1] == *final(right_pointer)
            &&& points ==> {
                &&& done is Ok
                &&& final(state).pointers@[0] == *final(left_pointer)
                &&& final(source)@.handsfree_pointer == old(source)@.handsfree_pointer
            }
            &&& !points ==> {
                &&& done == free_done
                &&& final(state).pointers@[0] == *final(free_pointer)
                &&& final(source)@.handsfree_pointer == final(free)@
            }
        }),
{
    reveal(InputView::handled);
    reveal(InputView::bared);
    flags_are_told_bit_by_bit(frame.head.location_flags);
    assert(said(final(toasts)@) =~= said(old(toasts)@));
    assert(final(logs)@ =~= old(logs)@);
}

/// With trackers for bare hands: the pointers that the hands made go to the bare hands,
/// with all that these tell and log. Where a pointer has a pose after that, the frame ends
/// so. Where none has, the first goes to what points without hands.
pub proof fn frame_with_trackers(
    source: &mut OpenXrInputSource,
    state: &mut InputState,
    frame: &FrameReads,
    settings: InputSettings,
    now: Moment,
    toasts: &mut Vec<Toast>,
    logs: &mut Vec<HandLog>,
    done: Result<(), ReadError>,
    left: &mut OpenXrPointer,
    left_pointer: &mut Pointer,
    right: &mut OpenXrPointer,
    right_pointer: &mut Pointer,
    tracking: &mut OpenXrHandTracking,
    bare: &mut [Pointer; 2],
    bare_toasts: &mut Vec<Toast>,
    bare_logs: &mut Vec<HandLog>,
    any_tracked: bool,
    free: &mut OpenXrPointer,
    free_pointer: &mut Pointer,
    free_done: Result<(), ReadError>,
    hmd_valid: bool,
)
    requires
        call_ensures(
            OpenXrInputSource::update,
            (source, state, frame, settings, now, toasts, logs),
            done,
        ),
        old(source)@.well_formed(),
        call_ensures(
            OpenXrPointer::update,
            (left, left_pointer, &frame.hands@[0], settings.sensitivity, now),
            Ok(()),
        ),
        old(left)@ == old(source)@.pointers[0],
        *old(left_pointer) == old(state).pointers@[0],
        call_ensures(
            OpenXrPointer::update,
            (right, right_pointer, &frame.hands@[1], settings.sensitivity, now),
            Ok(()),
        ),
        old(right)@ == old(source)@.pointers[1],
        *old(right_pointer) == old(state).pointers@[1],
        call_ensures(
            OpenXrHandTracking::update,
            (tracking, bare, &frame.joints, now, bare_toasts, bare_logs),
            any_tracked,
        ),
        old(source)@.hand_tracking == Some(old(tracking)@),
        old(bare)@ == seq![*final(left_pointer), *final(right_pointer)],
        said(old(bare_toasts)@) == said(old(toasts)@),
        old(bare_logs)@ == old(logs)@,
        call_ensures(
            OpenXrPointer::update_handsfree,
            (
                free,
                free_pointer,
                settings.handsfree_pointer,
                hmd_valid,
                &frame.handsfree,
                settings.sensitivity,
                now,
            ),
            free_done,
        ),
        old(free)@ == old(source)@.handsfree_pointer,
        *old(free_pointer) == final(bare)@[0],
        hmd_valid <==> frame.head.location_flags % 2 == 1 && frame.head.location_flags / 2 % 2
            == 1,
    ensures
        ({
            &&& final(source)@.hand_tracking == Some(final(tracking)@)
            &&& said(final(toasts)@) == said(final(bare_toasts)@)
            &&& final(logs)@ == final(bare_logs)@
            &&& final(source)@.pointers[0] == final(left)@
            &&& final(source)@.pointers[1] == final(right)@
            &&& final(state).pointers@[1] == final(bare)@[1]
            &&& any_tracked ==> {
                &&& done is Ok
                &&& final(state).pointers@[0] == final(bare)@[0]
                &&& final(source)@.handsfree_pointer == old(source)@.handsfree_pointer
            }
            &&& !any_tracked ==> {
                &&& done == free_done
                &&& final(state).pointers@[0] == *final(free_pointer)
                &&& final(source)@.handsfree_pointer == final(free)@
            }
        }),
{
    reveal(InputView::handled);
    reveal(InputView::bared);
    flags_are_told_bit_by_bit(frame.head.location_flags);
    assert(hands_found(old(bare)@, frame.joints@) == any_tracked);
}

/// An input source shows its own inputs at any time.
pub proof fn sides_are_shown(
    source: &OpenXrInputSource,
    hand: usize,
    side: &OpenXrHandSource,
    haptics: &ActionName,
)
    requires
        hand < 2,
    ensures
        call_ensures(OpenXrInputSource::hand, (source, hand), side) ==> side@
            == source@.pointers[hand as int],
        call_ensures(OpenXrInputSource::handsfree, (source,), side) ==> side@
            == source@.handsfree_pointer,
        call_ensures(OpenXrInputSource::haptics, (source, hand), haptics) ==> haptics@
            == source@.pointers[hand as int].haptics,
        call_requires(OpenXrInputSource::hand, (source, hand)),
        call_requires(OpenXrInputSource::haptics, (source, hand)),
{
}

/// Every frame can be taken, whatever was read in it, at every moment from which a history
/// can be moved back.
pub proof fn every_frame_can_be_taken(
    source: &mut OpenXrInputSource,
    state: &mut InputState,
    frame: &FrameReads,
    settings: InputSettings,
    now: Moment,
    toasts: &mut Vec<Toast>,
    logs: &mut Vec<HandLog>,
)
    requires
        now.nanos - 10_000_000_000 >= i64::MIN,
    ensures
        call_requires(
            OpenXrInputSource::update,
            (source, state, frame, settings, now, toasts, logs),
        ),
{
}

} // verus!
