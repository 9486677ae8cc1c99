//! What holds of every frame of an input source.

use crate::click::{ClickSensitivity, ReadError};
use crate::hand_source::{
    hand_updated, handsfree_moved, handsfree_updated, load_in_parts, source_starts_well_formed,
    source_stays_well_formed, ActionLoad, HandsfreePointer, HandsfreeReads, PointerReads,
    SourceView,
};
use crate::hand_tracking::{
    bare_hand_respects_a_pose, hands_found, tracking_stays_well_formed, HandLog, ToastView,
};
use crate::input_source::{input_at_start, FrameReads, InputSettings, InputView};
use crate::moment::Moment;
use crate::names::ClickSlot;
use crate::pointer::Pointer;
use vstd::prelude::*;

verus! {

/// What a frame with a hand keeps.
proof fn lemma_hand_updated(
    source: SourceView,
    pointer: Pointer,
    reads: PointerReads,
    sensitivity: ClickSensitivity,
    now: Moment,
)
    ensures
        ({
            let outcome = hand_updated(source, pointer, reads, sensitivity, now);
            &&& outcome.pointer.before == pointer.before
            &&& !outcome.pointer.handsfree
            &&& outcome.result is Ok && !outcome.pointer.is_tracked ==> {
                &&& outcome.pointer.pose == pointer.pose
                &&& outcome.pointer.raw_pose == pointer.raw_pose
            }
            &&& source.well_formed() ==> outcome.source.well_formed()
        }),
{
    let enabled = Pointer { interaction_enabled: true, handsfree: false, ..pointer };
    let load = ActionLoad {
        source,
        pointer: enabled.posed(reads.pose),
        reads: reads.actions,
        sensitivity,
        now,
    };
    load_in_parts(load, ClickSlot::Click);
    if source.well_formed() {
        source_stays_well_formed(load);
    }
}

/// What a frame without hands keeps.
proof fn lemma_handsfree_updated(
    source: SourceView,
    pointer: Pointer,
    mode: HandsfreePointer,
    hmd_valid: bool,
    reads: HandsfreeReads,
    sensitivity: ClickSensitivity,
    now: Moment,
)
    ensures
        ({
            let outcome = handsfree_updated(
                source,
                pointer,
                mode,
                hmd_valid,
                reads,
                sensitivity,
                now,
            );
            &&& outcome.pointer.before == pointer.before
            &&& mode == HandsfreePointer::Off ==> outcome.pointer == pointer
            &&& outcome.result is Ok && mode != HandsfreePointer::Off ==> outcome.pointer.handsfree
                == outcome.pointer.is_tracked
            &&& source.well_formed() ==> outcome.source.well_formed()
        }),
{
    let load = ActionLoad {
        source,
        pointer: handsfree_moved(pointer, mode, hmd_valid, reads),
        reads: reads.actions,
        sensitivity,
        now,
    };
    load_in_parts(load, ClickSlot::Click);
    if source.well_formed() {
        source_stays_well_formed(load);
    }
}

/// What the hands keep.
proof fn lemma_handled(
    source: InputView,
    pointers: Seq<Pointer>,
    frame: FrameReads,
    settings: InputSettings,
    now: Moment,
)
    requires
        pointers.len() == 2,
    ensures
        ({
            let handled = source.handled(pointers, frame, settings, now);
            &&& handled.pointers.len() == 2
            &&& handled.pointers[0].before == pointers[0].before
            &&& handled.pointers[1].before == pointers[1].before
            &&& handled.result is Ok ==> {
                &&& !handled.pointers[0].handsfree
                &&& !handled.pointers[1].handsfree
                &&& !handled.pointers[0].is_tracked ==> {
                    &&& handled.pointers[0].pose == pointers[0].pose
                    &&& handled.pointers[0].raw_pose == pointers[0].raw_pose
                }
            }
            &&& handled.source.handsfree_pointer == source.handsfree_pointer
            &&& handled.source.hand_tracking == source.hand_tracking
            &&& source.well_formed() ==> handled.source.well_formed()
        }),
{
    reveal(InputView::handled);
    lemma_hand_updated(
        source.pointers[0],
        pointers[0],
        frame.hands@[0],
        settings.sensitivity,
        now,
    );
    lemma_hand_updated(
        source.pointers[1],
        pointers[1],
        frame.hands@[1],
        settings.sensitivity,
        now,
    );
}

/// What bare hands keep.
proof fn lemma_bared(source: InputView, pointers: Seq<Pointer>, frame: FrameReads, now: Moment)
    requires
        pointers.len() == 2,
    ensures
        ({
            let bared = source.bared(pointers, frame, now);
            &&& bared.pointers.len() == 2
            &&& bared.pointers[0].before == pointers[0].before
            &&& bared.pointers[1].before == pointers[1].before
            &&& !pointers[0].handsfree ==> !bared.pointers[0].handsfree
            &&& !pointers[1].handsfree ==> !bared.pointers[1].handsfree
            &&& !source.hand_points(pointers, frame) ==> {
                &&& bared.pointers[0].pose == pointers[0].pose
                &&& bared.pointers[0].raw_pose == pointers[0].raw_pose
            }
            &&& bared.result is Ok
            &&& bared.source.handsfree_pointer == source.handsfree_pointer
            &&& source.well_formed() ==> bared.source.well_formed()
        }),
{
    reveal(InputView::bared);
    if let Some(tracking) = source.hand_tracking {
        bare_hand_respects_a_pose(tracking, pointers, frame.joints@, now, 0);
        bare_hand_respects_a_pose(tracking, pointers, frame.joints@, now, 1);
        tracking_stays_well_formed(tracking, pointers, frame.joints@, now);
    }
}

/// What all of a frame keeps.
proof fn lemma_updated(
    source: InputView,
    pointers: Seq<Pointer>,
    frame: FrameReads,
    settings: InputSettings,
    now: Moment,
)
    requires
        pointers.len() == 2,
    ensures
        ({
            let handled = source.handled(pointers, frame, settings, now);
            let outcome = source.updated(pointers, frame, settings, now);
            &&& outcome.pointers[0].before == pointers[0].before
            &&& outcome.pointers[1].before == pointers[1].before
            &&& outcome.result is Ok ==> {
                &&& !outcome.pointers[1].handsfree
                &&& outcome.pointers[0].handsfree ==> {
                    &&& !handled.source.hand_points(handled.pointers, frame)
                    &&& settings.handsfree_pointer != HandsfreePointer::Off
                    &&& outcome.pointers[0].is_tracked
                }
            }
            &&& source.well_formed() ==> outcome.source.well_formed()
        }),
{
    let handled = source.handled(pointers, frame, settings, now);
    let bared = handled.source.bared(handled.pointers, frame, now);
    lemma_handled(source, pointers, frame, settings, now);
    lemma_bared(handled.source, handled.pointers, frame, now);
    lemma_handsfree_updated(
        bared.source.handsfree_pointer,
        bared.pointers[0],
        settings.handsfree_pointer,
        frame.head.valid(),
        frame.handsfree,
        settings.sensitivity,
        now,
    );
}

/// An input source is well-formed at first.
pub proof fn input_starts_well_formed(left_tracker: bool, right_tracker: bool, now: Moment)
    ensures
        input_at_start(left_tracker, right_tracker, now).well_formed(),
{
    source_starts_well_formed("left"@, now);
    source_starts_well_formed("right"@, now);
    source_starts_well_formed("handsfree"@, now);
}

/// An input source stays well-formed, however a frame ends.
pub proof fn input_stays_well_formed(
    source: InputView,
    pointers: Seq<Pointer>,
    frame: FrameReads,
    settings: InputSettings,
    now: Moment,
)
    requires
        pointers.len() == 2,
        source.well_formed(),
    ensures
        source.updated(pointers, frame, settings, now).source.well_formed(),
{
    lemma_updated(source, pointers, frame, settings, now);
}

/// No frame, however it ends, changes what the pointers did in the last one.
pub proof fn frame_keeps_the_last_state(
    source: InputView,
    pointers: Seq<Pointer>,
    frame: FrameReads,
    settings: InputSettings,
    now: Moment,
    i: int,
)
    requires
        pointers.len() == 2,
        0 <= i < 2,
    ensures
        source.updated(pointers, frame, settings, now).pointers[i].before == pointers[i].before,
{
    lemma_updated(source, pointers, frame, settings, now);
}

/// After a frame without errors only the first pointer can be one without hands, and
/// only where no hand points.
pub proof fn handsfree_means_no_hand(
    source: InputView,
    pointers: Seq<Pointer>,
    frame: FrameReads,
    settings: InputSettings,
    now: Moment,
)
    requires
        pointers.len() == 2,
        source.updated(pointers, frame, settings, now).result is Ok,
    ensures
        ({
            let handled = source.handled(pointers, frame, settings, now);
            let outcome = source.updated(pointers, frame, settings, now);
            &&& !outcome.pointers[1].handsfree
            &&& outcome.pointers[0].handsfree ==> {
                &&& !handled.source.hand_points(handled.pointers, frame)
                &&& settings.handsfree_pointer != HandsfreePointer::Off
                &&& outcome.pointers[0].is_tracked
            }
        }),
{
    lemma_updated(source, pointers, frame, settings, now);
}

/// Where the pointer without hands takes over, no hand has moved the pointer in this
/// frame: it starts from where it was.
pub proof fn handsfree_starts_from_the_last_pose(
    source: InputView,
    pointers: Seq<Pointer>,
    frame: FrameReads,
    settings: InputSettings,
    now: Moment,
)
    requires
        pointers.len() == 2,
        source.handled(pointers, frame, settings, now).result is Ok,
        !source.hand_points(source.handled(pointers, frame, settings, now).pointers, frame),
    ensures
        ({
            let handled = source.handled(pointers, frame, settings, now);
            let bared = handled.source.bared(handled.pointers, frame, now);
            &&& bared.pointers[0].pose == pointers[0].pose
            &&& bared.pointers[0].raw_pose == pointers[0].raw_pose
        }),
{
    let handled = source.handled(pointers, frame, settings, now);
    lemma_handled(source, pointers, frame, settings, now);
    lemma_bared(handled.source, handled.pointers, frame, now);
    assert(hands_found(handled.pointers, frame.joints@) || !handled.pointers[0].is_tracked);
}

/// While a hand points, the pointer without hands and its inputs take no part.
pub proof fn pointing_hand_leaves_handsfree_alone(
    source: InputView,
    pointers: Seq<Pointer>,
    frame: FrameReads,
    settings: InputSettings,
    now: Moment,
)
    requires
        pointers.len() == 2,
        ({
            let handled = source.handled(pointers, frame, settings, now);
            handled.result is Err || handled.source.hand_points(handled.pointers, frame)
        }),
    ensures
        source.updated(pointers, frame, settings, now).source.handsfree_pointer
            == source.handsfree_pointer,
{
    let handled = source.handled(pointers, frame, settings, now);
    lemma_handled(source, pointers, frame, settings, now);
    lemma_bared(handled.source, handled.pointers, frame, now);
}

/// A left hand that cannot be located ends the frame: all inputs, the right pointer and
/// the bare hands stay as they were, and there is nothing to tell.
pub proof fn lost_left_hand_ends_the_frame(
    source: InputView,
    pointers: Seq<Pointer>,
    frame: FrameReads,
    settings: InputSettings,
    now: Moment,
)
    requires
        source.pointers.len() == 2,
        pointers.len() == 2,
        frame.hands@[0].pose is Err,
    ensures
        ({
            let outcome = source.updated(pointers, frame, settings, now);
            &&& outcome.result == Err::<(), ReadError>(frame.hands@[0].pose->Err_0)
            &&& outcome.source == source
            &&& outcome.pointers[1] == pointers[1]
            &&& outcome.notices == Seq::<ToastView>::empty()
            &&& outcome.logs == Seq::<HandLog>::empty()
        }),
{
    reveal(InputView::handled);
    let outcome = source.updated(pointers, frame, settings, now);
    assert(outcome.source.pointers =~= source.pointers);
}

} // verus!
