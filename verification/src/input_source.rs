//! The input source: two hands, bare or with controllers, and what points while there
//! are none.

use crate::click::{ClickSensitivity, ReadError, RESET_NANOS};
use crate::devices::{refresh_devices, stably_ordered, MonadoSnapshot, TrackedDevice};
use crate::frame_laws::{input_starts_well_formed, input_stays_well_formed};
use crate::hand_source::{
    hand_updated, handsfree_updated, source_at_start, ActionName, HandsfreePointer,
    HandsfreeReads, OpenXrHandSource, OpenXrPointer, PointerReads, SourceView,
};
use crate::hand_tracking::{
    hands_found, hands_show_palms, said, tracking_at_start, HandEvent, HandLog,
    OpenXrHandTracking, Toast, ToastView, TrackingView,
};
use crate::location::{follow_head, has_flags, Pose, ORIENTATION_VALID, POSITION_VALID};
use crate::moment::Moment;
use crate::pointer::Pointer;
use vstd::prelude::*;

verus! {

/// What the inputs have led to.
#[derive(Debug)]
pub struct InputState {
    pub hmd: Pose,
    pub pointers: [Pointer; 2],
    pub devices: Vec<TrackedDevice>,
}

/// A located head.
#[derive(Clone, Copy, Debug, PartialEq, Eq, Structural)]
pub struct HeadRead {
    pub location_flags: u64,
    pub pose: Pose,
}

impl HeadRead {
    /// Rotation and position are both valid.
    pub open spec fn valid(self) -> bool {
        has_flags(self.location_flags, ORIENTATION_VALID) && has_flags(
            self.location_flags,
            POSITION_VALID,
        )
    }

    /// Where the head is, after it was `before`.
    pub open spec fn followed(self, before: Pose) -> Pose {
        Pose {
            matrix3: if has_flags(self.location_flags, ORIENTATION_VALID) {
                self.pose.matrix3
            } else {
                before.matrix3
            },
            translation: if has_flags(self.location_flags, POSITION_VALID) {
                self.pose.translation
            } else {
                before.translation
            },
        }
    }
}

/// All inputs, as read in one frame.
#[derive(Clone, Copy, Debug)]
pub struct FrameReads {
    pub head: HeadRead,
    pub hands: [PointerReads; 2],
    pub joints: [HandEvent; 2],
    pub handsfree: HandsfreeReads,
}

/// What the user has set.
#[derive(Clone, Copy, Debug, PartialEq, Eq, Structural)]
pub struct InputSettings {
    pub sensitivity: ClickSensitivity,
    pub handsfree_pointer: HandsfreePointer,
}

/// What an input source knows.
#[verifier::ext_equal]
pub ghost struct InputView {
    pub pointers: Seq<SourceView>,
    pub handsfree_pointer: SourceView,
    pub hand_tracking: Option<TrackingView>,
}

/// What an input source knows at first.
pub open spec fn input_at_start(left_tracker: bool, right_tracker: bool, now: Moment) -> InputView {
    InputView {
        pointers: seq![source_at_start("left"@, now), source_at_start("right"@, now)],
        handsfree_pointer: source_at_start("handsfree"@, now),
        hand_tracking: if left_tracker && right_tracker {
            Some(tracking_at_start(now))
        } else {
            None
        },
    }
}

/// What a frame leads to.
#[verifier::ext_equal]
pub ghost struct FrameOutcome {
    pub source: InputView,
    pub pointers: Seq<Pointer>,
    pub result: Result<(), ReadError>,
    pub notices: Seq<ToastView>,
    pub logs: Seq<HandLog>,
}

impl InputView {
    /// What the hands lead to: the left one first, and the right one only where the
    /// left one could be read.
    #[verifier::opaque]
    pub open spec fn handled(
        self,
        pointers: Seq<Pointer>,
        frame: FrameReads,
        settings: InputSettings,
        now: Moment,
    ) -> FrameOutcome {
        let left = hand_updated(
            self.pointers[0],
            pointers[0],
            frame.hands@[0],
            settings.sensitivity,
            now,
        );
        let right = hand_updated(
            self.pointers[1],
            pointers[1],
            frame.hands@[1],
            settings.sensitivity,
            now,
        );
        if left.result is Err {
            FrameOutcome {
                source: InputView { pointers: self.pointers.update(0, left.source), ..self },
                pointers: pointers.update(0, left.pointer),
                result: left.result,
                notices: seq![],
                logs: seq![],
            }
        } else {
            FrameOutcome {
                source: InputView { pointers: seq![left.source, right.source], ..self },
                pointers: seq![left.pointer, right.pointer],
                result: right.result,
                notices: seq![],
                logs: seq![],
            }
        }
    }

    /// What bare hands lead to, where they are tracked.
    #[verifier::opaque]
    pub open spec fn bared(
        self,
        pointers: Seq<Pointer>,
        frame: FrameReads,
        now: Moment,
    ) -> FrameOutcome {
        match self.hand_tracking {
            None => FrameOutcome {
                source: self,
                pointers,
                result: Ok(()),
                notices: seq![],
                logs: seq![],
            },
            Some(tracking) => FrameOutcome {
                source: InputView {
                    hand_tracking: Some(tracking.after(pointers, frame.joints@, now)),
                    ..self
                },
                pointers: tracking.pointers_after(pointers, frame.joints@, now),
                result: Ok(()),
                notices: tracking.toggle.notices(hands_show_palms(pointers, frame.joints@), now),
                logs: tracking.logged(pointers, frame.joints@, now),
            },
        }
    }

    /// Whether a hand points, where the pointers are as the hands left them.
    pub open spec fn hand_points(self, pointers: Seq<Pointer>, frame: FrameReads) -> bool {
        match self.hand_tracking {
            None => pointers[0].is_tracked || pointers[1].is_tracked,
            Some(_) => hands_found(pointers, frame.joints@),
        }
    }

    /// What a frame leads to: the hands, then the bare hands, and the pointer without
    /// hands where neither points.
    pub open spec fn updated(
        self,
        pointers: Seq<Pointer>,
        frame: FrameReads,
        settings: InputSettings,
        now: Moment,
    ) -> FrameOutcome {
        let handled = self.handled(pointers, frame, settings, now);
        let bared = handled.source.bared(handled.pointers, frame, now);
        let free = handsfree_updated(
            bared.source.handsfree_pointer,
            bared.pointers[0],
            settings.handsfree_pointer,
            frame.head.valid(),
            frame.handsfree,
            settings.sensitivity,
            now,
        );
        if handled.result is Err {
            handled
        } else if handled.source.hand_points(handled.pointers, frame) {
            bared
        } else {
            FrameOutcome {
                source: InputView { handsfree_pointer: free.source, ..bared.source },
                pointers: bared.pointers.update(0, free.pointer),
                result: free.result,
                ..bared
            }
        }
    }
}

/// The inputs of two hands and of the pointer without hands.
pub struct OpenXrInputSource {
    pointers: [OpenXrPointer; 2],
    handsfree_pointer: OpenXrPointer,
    hand_tracking: Option<OpenXrHandTracking>,
}

impl View for OpenXrInputSource {
    type V = InputView;

    closed spec fn view(&self) -> InputView {
        InputView {
            pointers: seq![self.pointers@[0]@, self.pointers@[1]@],
            handsfree_pointer: self.handsfree_pointer@,
            hand_tracking: match self.hand_tracking {
                Some(tracking) => Some(tracking@),
                None => None,
            },
        }
    }
}

impl OpenXrInputSource {
    /// An input source. Bare hands are tracked where there is a tracker for each.
    pub fn new(left_tracker: bool, right_tracker: bool, now: Moment) -> (source: Self)
        ensures
            source@ == input_at_start(left_tracker, right_tracker, now),
            source@.well_formed(),
    {
        let source: Self = OpenXrInputSource {
            pointers: [
                OpenXrPointer::new(OpenXrHandSource::new("left", now)),
                OpenXrPointer::new(OpenXrHandSource::new("right", now)),
            ],
            handsfree_pointer: OpenXrPointer::new(OpenXrHandSource::new("handsfree", now)),
            hand_tracking: OpenXrHandTracking::new(left_tracker, right_tracker, now),
        };
        proof {
            assert(source@ =~= input_at_start(left_tracker, right_tracker, now));
            input_starts_well_formed(left_tracker, right_tracker, now);
        }
        source
    }

    /// The actions of a hand.
    pub fn hand(&self, hand: usize) -> (source: &OpenXrHandSource)
        requires
            hand < 2,
        ensures
            source@ == self@.pointers[hand as int],
    {
        self.pointers[hand].source()
    }

    /// The actions of the pointer without hands.
    pub fn handsfree(&self) -> (source: &OpenXrHandSource)
        ensures
            source@ == self@.handsfree_pointer,
    {
        self.handsfree_pointer.source()
    }

    /// The action by which a hand is made to vibrate.
    pub fn haptics(&self, hand: usize) -> (name: &ActionName)
        requires
            hand < 2,
        ensures
            name@ == self@.pointers[hand as int].haptics,
    {
        self.pointers[hand].source().haptics()
    }

    /// Drives the head and the pointers for one frame.
    pub fn update(
        &mut self,
        state: &mut InputState,
        frame: &FrameReads,
        settings: InputSettings,
        now: Moment,
        toasts: &mut Vec<Toast>,
        logs: &mut Vec<HandLog>,
    ) -> (done: Result<(), ReadError>)
        requires
            now.nanos - RESET_NANOS >= i64::MIN,
        ensures
            ({
                let outcome = old(self)@.updated(old(state).pointers@, *frame, settings, now);
                &&& final(self)@ == outcome.source
                &&& final(state).pointers@ == outcome.pointers
                &&& done == outcome.result
                &&& said(final(toasts)@) == said(old(toasts)@) + outcome.notices
                &&& final(logs)@ == old(logs)@ + outcome.logs
            }),
            final(state).hmd == frame.head.followed(old(state).hmd),
            final(state).devices == old(state).devices,
            old(self)@.well_formed() ==> final(self)@.well_formed(),
    {
        proof {
            if self@.well_formed() {
                input_stays_well_formed(self@, state.pointers@, *frame, settings, now);
            }
        }
        let hmd_valid: bool = follow_head(
            &mut state.hmd,
            frame.head.location_flags,
            frame.head.pose,
        );
        let ghost said_before = said(toasts@);
        let ghost logs_before = logs@;
        if let Err(e) = self.update_hands(&mut state.pointers, frame, settings, now) {
            proof {
                assert(said(toasts@) =~= said_before + Seq::<ToastView>::empty());
                assert(logs@ =~= logs_before + Seq::<HandLog>::empty());
            }
            return Err(e);
        }
        let any_tracked: bool = self.update_bare_hands(
            &mut state.pointers,
            frame,
            now,
            toasts,
            logs,
        );
        if any_tracked {
            return Ok(());
        }
        let mut pointer: Pointer = state.pointers[0];
        let done: Result<(), ReadError> = self.handsfree_pointer.update_handsfree(
            &mut pointer,
            settings.handsfree_pointer,
            hmd_valid,
            &frame.handsfree,
            settings.sensitivity,
            now,
        );
        state.pointers[0] = pointer;
        done
    }

    /// Drives a pointer by its hand.
    fn update_hand(
        &mut self,
        hand: usize,
        pointers: &mut [Pointer; 2],
        reads: &PointerReads,
        sensitivity: ClickSensitivity,
        now: Moment,
    ) -> (done: Result<(), ReadError>)
        requires
            hand < 2,
            now.nanos - RESET_NANOS >= i64::MIN,
        ensures
            ({
                let outcome = hand_updated(
                    old(self)@.pointers[hand as int],
                    old(pointers)@[hand as int],
                    *reads,
                    sensitivity,
                    now,
                );
                &&& final(self)@.pointers[hand as int] == outcome.source
                &&& final(self)@.pointers[1 - hand] == old(self)@.pointers[1 - hand]
                &&& final(self)@.handsfree_pointer == old(self)@.handsfree_pointer
                &&& final(self)@.hand_tracking == old(self)@.hand_tracking
                &&& final(pointers)@[hand as int] == outcome.pointer
                &&& final(pointers)@[1 - hand] == old(pointers)@[1 - hand]
                &&& done == outcome.result
            }),
    {
        let mut pointer: Pointer = pointers[hand];
        let done: Result<(), ReadError> = self.pointers[hand].update(
            &mut pointer,
            reads,
            sensitivity,
            now,
        );
        pointers[hand] = pointer;
        done
    }

    /// Drives the pointers by the two hands.
    fn update_hands(
        &mut self,
        pointers: &mut [Pointer; 2],
        frame: &FrameReads,
        settings: InputSettings,
        now: Moment,
    ) -> (done: Result<(), ReadError>)
        requires
            now.nanos - RESET_NANOS >= i64::MIN,
        ensures
            ({
                let outcome = old(self)@.handled(old(pointers)@, *frame, settings, now);
                &&& final(self)@ == outcome.source
                &&& final(pointers)@ == outcome.pointers
                &&& done == outcome.result
                &&& outcome.notices == Seq::<ToastView>::empty()
                &&& outcome.logs == Seq::<HandLog>::empty()
            }),
    {
        let ghost before = self@;
        let ghost pointers_before = pointers@;
        proof {
            reveal(InputView::handled);
        }
        let left: Result<(), ReadError> = self.update_hand(
            0,
            pointers,
            &frame.hands[0],
            settings.sensitivity,
            now,
        );
        if let Err(e) = left {
            proof {
                let outcome = before.handled(pointers_before, *frame, settings, now);
                assert(self@.pointers =~= outcome.source.pointers);
                assert(pointers@ =~= outcome.pointers);
            }
            return Err(e);
        }
        let right: Result<(), ReadError> = self.update_hand(
            1,
            pointers,
            &frame.hands[1],
            settings.sensitivity,
            now,
        );
        proof {
            let outcome = before.handled(pointers_before, *frame, settings, now);
            assert(self@.pointers =~= outcome.source.pointers);
            assert(pointers@ =~= outcome.pointers);
        }
        right
    }

    /// Drives the pointers by bare hands, where they are tracked, and answers whether a
    /// hand points.
    fn update_bare_hands(
        &mut self,
        pointers: &mut [Pointer; 2],
        frame: &FrameReads,
        now: Moment,
        toasts: &mut Vec<Toast>,
        logs: &mut Vec<HandLog>,
    ) -> (any_tracked: bool)
        ensures
            ({
                let outcome = old(self)@.bared(old(pointers)@, *frame, now);
                &&& final(self)@ == outcome.source
                &&& final(pointers)@ == outcome.pointers
                &&& said(final(toasts)@) == said(old(toasts)@) + outcome.notices
                &&& final(logs)@ == old(logs)@ + outcome.logs
                &&& outcome.result == Ok::<(), ReadError>(())
                &&& any_tracked == old(self)@.hand_points(old(pointers)@, *frame)
            }),
    {
        let ghost said_before = said(toasts@);
        let ghost logs_before = logs@;
        proof {
            reveal(InputView::bared);
        }
        let any_tracked: bool = pointers[0].is_tracked || pointers[1].is_tracked;
        if let Some(tracking) = &mut self.hand_tracking {
            let found: bool = tracking.update(pointers, &frame.joints, now, toasts, logs);
            any_tracked || found
        } else {
            proof {
                assert(said(toasts@) =~= said_before + Seq::<ToastView>::empty());
                assert(logs@ =~= logs_before + Seq::<HandLog>::empty());
            }
            any_tracked
        }
    }

    /// Renews the list of devices, and answers whether its length has changed. Without
    /// the service that knows them the list stays as it is.
    pub fn update_devices(
        devices: &mut Vec<TrackedDevice>,
        monado: &Option<MonadoSnapshot>,
    ) -> (changed: bool)
        ensures
            match *monado {
                None => !changed && final(devices)@ == old(devices)@,
                Some(snapshot) => {
                    &&& stably_ordered(final(devices)@, snapshot.shown_devices())
                    &&& changed == (old(devices)@.len() != snapshot.shown_devices().len())
                },
            },
    {
        match monado {
            None => false,
            Some(snapshot) => refresh_devices(devices, snapshot),
        }
    }
}

impl InputView {
    /// What holds of an input source at all times.
    pub open spec fn well_formed(self) -> bool {
        &&& self.pointers.len() == 2
        &&& self.pointers[0].well_formed()
        &&& self.pointers[1].well_formed()
        &&& self.handsfree_pointer.well_formed()
        &&& self.hand_tracking matches Some(tracking) ==> tracking.well_formed()
    }
}

} // verus!
