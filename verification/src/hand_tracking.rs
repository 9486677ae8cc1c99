//! Bare hands as pointers: what tracked joints do to a pointer, and the gesture that
//! switches this on and off.

use crate::click::ReadError;
use crate::float_bits::{FloatBits, ZERO};
use crate::location::Pose;
use crate::moment::{elapsed, Moment};
use crate::pointer::{Pointer, PointerState};
use vstd::prelude::*;

verus! {

/// 0.15, below which a hand counts as open.
pub const OPEN_HAND_LIMIT: u32 = 0x3e19_999a;

/// 0.78 and 0.65, from where a pinch clicks, and keeps on clicking.
pub const PINCH_PRESS: u32 = 0x3f47_ae14;

pub const PINCH_RELEASE: u32 = 0x3f26_6666;

/// 0.65, from where a closing hand no longer clicks.
pub const CLICK_GRAB_LIMIT: u32 = 0x3f26_6666;

/// 0.72 and 0.60, from where a closing hand grabs, and keeps on grabbing.
pub const GRAB_PRESS: u32 = 0x3f38_51ec;

pub const GRAB_RELEASE: u32 = 0x3f19_999a;

/// 0.45, the seconds for which the progress of the gesture is shown.
pub const PROGRESS_TIMEOUT: u32 = 0x3ee6_6666;

/// The least time between two log lines of one kind for one hand.
pub const LOG_INTERVAL_NANOS: u64 = 2_000_000_000;

/// How long both palms have to be held up.
pub const HOLD_NANOS: u64 = 1_400_000_000;

/// How long after a switch the next one can come.
pub const TOGGLE_INTERVAL_NANOS: u64 = 2_000_000_000;

/// The milliseconds that one stage of the gesture takes, and the last stage.
pub const STAGE_MILLIS: u64 = 350;

pub const LAST_STAGE: u64 = 4;

/// The name of a hand.
pub fn hand_name(idx: usize) -> (name: &'static str)
    ensures
        name@ == (if idx == 0 {
            "left"@
        } else if idx == 1 {
            "right"@
        } else {
            "unknown"@
        }),
{
    match idx {
        0 => "left",
        1 => "right",
        _ => "unknown",
    }
}

/// What the joints of a hand say.
#[derive(Clone, Copy, Debug, PartialEq, Eq, Structural)]
pub struct DerivedHandInput {
    pub pose: Pose,
    pub pinch_strength: FloatBits,
    pub grab_strength: FloatBits,
    pub palm_up: bool,
}

impl DerivedHandInput {
    /// The palm is up and the hand is open.
    pub open spec fn shows_palm(self) -> bool {
        &&& self.palm_up
        &&& self.grab_strength.lt(FloatBits { bits: OPEN_HAND_LIMIT })
        &&& self.pinch_strength.lt(FloatBits { bits: OPEN_HAND_LIMIT })
    }

    fn palm_shown(&self) -> (answer: bool)
        ensures
            answer == self.shows_palm(),
    {
        let limit: FloatBits = FloatBits::new(OPEN_HAND_LIMIT);
        self.palm_up && self.grab_strength.less(limit) && self.pinch_strength.less(limit)
    }

    /// The hand clicks, where it clicked `before` or not.
    pub open spec fn clicks(self, before: bool) -> bool {
        &&& FloatBits { bits: if before { PINCH_RELEASE } else { PINCH_PRESS } }.le(
            self.pinch_strength,
        )
        &&& self.grab_strength.lt(FloatBits { bits: CLICK_GRAB_LIMIT })
    }

    /// The hand grabs, where it grabbed `before` or not.
    pub open spec fn grabs(self, before: bool) -> bool {
        FloatBits { bits: if before { GRAB_RELEASE } else { GRAB_PRESS } }.le(self.grab_strength)
    }
}

impl PointerState {
    /// Nothing is on and nothing scrolls.
    pub open spec fn resting() -> PointerState {
        PointerState {
            click: false,
            grab: false,
            alt_click: false,
            show_hide: false,
            toggle_dashboard: false,
            space_drag: false,
            space_rotate: false,
            space_reset: false,
            click_modifier_right: false,
            click_modifier_middle: false,
            move_mouse: false,
            scroll_x: FloatBits { bits: ZERO },
            scroll_y: FloatBits { bits: ZERO },
        }
    }

    /// Switches everything off.
    pub fn rest(&mut self)
        ensures
            *final(self) == PointerState::resting(),
    {
        self.click = false;
        self.grab = false;
        self.scroll_x = FloatBits::new(ZERO);
        self.scroll_y = FloatBits::new(ZERO);
        self.alt_click = false;
        self.move_mouse = false;
        self.click_modifier_right = false;
        self.click_modifier_middle = false;
        self.show_hide = false;
        self.toggle_dashboard = false;
        self.space_drag = false;
        self.space_rotate = false;
        self.space_reset = false;
    }
}

impl Pointer {
    /// The pointer driven by a bare hand: clicks and grabs are all it can do, and only
    /// where interaction is enabled.
    pub open spec fn driven(
        self,
        derived: DerivedHandInput,
        update_pose: bool,
        interaction_enabled: bool,
    ) -> Pointer {
        Pointer {
            raw_pose: if update_pose { derived.pose } else { self.raw_pose },
            pose: if update_pose { derived.pose } else { self.pose },
            is_tracked: update_pose || self.is_tracked,
            handsfree: false,
            interaction_enabled,
            now: PointerState {
                click: interaction_enabled && derived.clicks(self.before.click),
                grab: interaction_enabled && derived.grabs(self.before.grab),
                ..PointerState::resting()
            },
            before: self.before,
        }
    }

    /// The pointer after a switch of the interaction.
    pub open spec fn switched(self, interaction_enabled: bool) -> Pointer {
        Pointer { interaction_enabled, now: PointerState::resting(), ..self }
    }
}

/// Drives a pointer by a bare hand.
pub fn apply_derived_hand_input(
    pointer: &mut Pointer,
    derived: &DerivedHandInput,
    update_pose: bool,
    interaction_enabled: bool,
)
    ensures
        *final(pointer) == old(pointer).driven(*derived, update_pose, interaction_enabled),
{
    if update_pose {
        pointer.raw_pose = derived.pose;
        pointer.pose = derived.pose;
        pointer.is_tracked = true;
    }
    pointer.interaction_enabled = interaction_enabled;
    pointer.handsfree = false;
    pointer.now.rest();
    let pinch_floor: FloatBits = FloatBits::new(
        if pointer.before.click {
            PINCH_RELEASE
        } else {
            PINCH_PRESS
        },
    );
    let grab_floor: FloatBits = FloatBits::new(
        if pointer.before.grab {
            GRAB_RELEASE
        } else {
            GRAB_PRESS
        },
    );
    pointer.now.click = interaction_enabled && derived.pinch_strength.at_least(pinch_floor)
        && derived.grab_strength.less(FloatBits::new(CLICK_GRAB_LIMIT));
    pointer.now.grab = interaction_enabled && derived.grab_strength.at_least(grab_floor);
}

/// What a notice is about.
#[derive(Clone, Copy, Debug, PartialEq, Eq, Structural)]
pub enum ToastTopic {
    DesktopNotification,
}

/// A notice to the user.
#[derive(Debug)]
pub struct Toast {
    pub topic: ToastTopic,
    pub title: String,
    pub body: String,
    /// For how many seconds, where it is not the usual time.
    pub timeout: Option<FloatBits>,
}

/// What a notice says.
pub ghost struct ToastView {
    pub topic: ToastTopic,
    pub title: Seq<char>,
    pub body: Seq<char>,
    pub timeout: Option<FloatBits>,
}

impl View for Toast {
    type V = ToastView;

    open spec fn view(&self) -> ToastView {
        ToastView {
            topic: self.topic,
            title: self.title@,
            body: self.body@,
            timeout: self.timeout,
        }
    }
}

/// What a list of notices says.
pub open spec fn said(toasts: Seq<Toast>) -> Seq<ToastView> {
    toasts.map_values(|toast: Toast| toast@)
}

/// The sign for a stage of the gesture.
pub open spec fn stage_icon(stage: int) -> Seq<char> {
    if stage == 1 {
        "◔"@
    } else if stage == 2 {
        "◑"@
    } else if stage == 3 {
        "◕"@
    } else {
        "●"@
    }
}

/// The notice of a stage.
pub open spec fn progress_toast(stage: int) -> ToastView {
    ToastView {
        topic: ToastTopic::DesktopNotification,
        title: stage_icon(stage) + " Hand toggle"@,
        body: "Hold both palms up"@,
        timeout: Some(FloatBits { bits: PROGRESS_TIMEOUT }),
    }
}

/// The notice of a switch.
pub open spec fn switch_toast(interaction_enabled: bool) -> ToastView {
    ToastView {
        topic: ToastTopic::DesktopNotification,
        title: "Hand input"@,
        body: "Hand interaction "@ + (if interaction_enabled { "enabled"@ } else { "disabled"@ }),
        timeout: None,
    }
}

fn make_progress_toast(stage: u8) -> (toast: Toast)
    ensures
        toast@ == progress_toast(stage as int),
{
    let icon: &str = match stage {
        1 => "◔",
        2 => "◑",
        3 => "◕",
        _ => "●",
    };
    let mut title: String = icon.to_owned();
    title.append(" Hand toggle");
    Toast {
        topic: ToastTopic::DesktopNotification,
        title,
        body: "Hold both palms up".to_owned(),
        timeout: Some(FloatBits::new(PROGRESS_TIMEOUT)),
    }
}

fn make_switch_toast(interaction_enabled: bool) -> (toast: Toast)
    ensures
        toast@ == switch_toast(interaction_enabled),
{
    let mut body: String = "Hand interaction ".to_owned();
    body.append(if interaction_enabled { "enabled" } else { "disabled" });
    Toast {
        topic: ToastTopic::DesktopNotification,
        title: "Hand input".to_owned(),
        body,
        timeout: None,
    }
}

/// The gesture that switches the interaction of bare hands.
#[derive(Clone, Copy, Debug, PartialEq, Eq, Structural)]
pub struct ToggleState {
    pub interaction_enabled: bool,
    pub palms_up_since: Option<Moment>,
    pub last_toggle: Moment,
    pub last_toggle_progress_stage: u8,
}

/// The stage that the gesture is in after some time.
pub open spec fn stage_after(nanos: int) -> int {
    let stages = nanos / 1_000_000 / (STAGE_MILLIS as int);
    if stages < LAST_STAGE {
        stages
    } else {
        LAST_STAGE as int
    }
}

impl ToggleState {
    /// Since when both palms are up, where they are up now.
    pub open spec fn since(self, now: Moment) -> Moment {
        match self.palms_up_since {
            Some(since) => since,
            None => now,
        }
    }

    /// The stage that the gesture is in.
    pub open spec fn stage(self, now: Moment) -> int {
        stage_after(elapsed(self.since(now), now))
    }

    /// Whether the stage is news.
    pub open spec fn announces(self, palms_up: bool, now: Moment) -> bool {
        palms_up && self.stage(now) > 0 && self.stage(now) != self.last_toggle_progress_stage
    }

    /// Whether the interaction is switched.
    pub open spec fn toggles(self, palms_up: bool, now: Moment) -> bool {
        &&& palms_up
        &&& elapsed(self.since(now), now) >= HOLD_NANOS
        &&& elapsed(self.last_toggle, now) >= TOGGLE_INTERVAL_NANOS
    }

    /// The gesture after a frame.
    pub open spec fn after(self, palms_up: bool, now: Moment) -> ToggleState {
        if !palms_up {
            ToggleState { palms_up_since: None, last_toggle_progress_stage: 0, ..self }
        } else if self.toggles(palms_up, now) {
            ToggleState {
                interaction_enabled: !self.interaction_enabled,
                palms_up_since: None,
                last_toggle: now,
                last_toggle_progress_stage: 0,
            }
        } else {
            ToggleState {
                palms_up_since: Some(self.since(now)),
                last_toggle_progress_stage: if self.announces(palms_up, now) {
                    self.stage(now) as u8
                } else {
                    self.last_toggle_progress_stage
                },
                ..self
            }
        }
    }

    /// The notices of a frame.
    pub open spec fn notices(self, palms_up: bool, now: Moment) -> Seq<ToastView> {
        let progress = if self.announces(palms_up, now) {
            seq![progress_toast(self.stage(now))]
        } else {
            seq![]
        };
        let switch = if self.toggles(palms_up, now) {
            seq![switch_toast(!self.interaction_enabled)]
        } else {
            seq![]
        };
        progress + switch
    }
}

/// What is remembered of one hand for the log.
#[derive(Clone, Copy, Debug, PartialEq, Eq, Structural)]
pub struct HandLogState {
    pub logged_joint_success: bool,
    pub last_missing_joint_log: Moment,
    pub last_joint_error_log: Moment,
}

/// What came of locating the joints of a hand.
#[derive(Clone, Copy, Debug, PartialEq, Eq, Structural)]
pub enum HandEvent {
    /// The joints that are needed are there.
    Derived(DerivedHandInput),
    /// There are joints, but not all of those that are needed.
    Lacking,
    /// There are no joints.
    Missing,
    /// The joints could not be located.
    Failed(ReadError),
}

/// A line for the log.
#[derive(Clone, Copy, Debug, PartialEq, Eq, Structural)]
pub struct HandLog {
    pub hand: usize,
    /// Whether the pointer had a pose already.
    pub had_pose: bool,
    pub event: HandEvent,
}

impl HandLogState {
    /// Whether an event is to be logged: the first success, and each kind of trouble
    /// once in a while.
    pub open spec fn logs(self, event: HandEvent, now: Moment) -> bool {
        match event {
            HandEvent::Derived(_) => !self.logged_joint_success,
            HandEvent::Lacking | HandEvent::Missing => elapsed(self.last_missing_joint_log, now)
                >= LOG_INTERVAL_NANOS,
            HandEvent::Failed(_) => elapsed(self.last_joint_error_log, now) >= LOG_INTERVAL_NANOS,
        }
    }

    /// What is remembered after an event.
    pub open spec fn after(self, event: HandEvent, now: Moment) -> HandLogState {
        if !self.logs(event, now) {
            self
        } else {
            match event {
                HandEvent::Derived(_) => HandLogState { logged_joint_success: true, ..self },
                HandEvent::Lacking | HandEvent::Missing => HandLogState {
                    last_missing_joint_log: now,
                    ..self
                },
                HandEvent::Failed(_) => HandLogState { last_joint_error_log: now, ..self },
            }
        }
    }

    fn note(&mut self, event: &HandEvent, now: Moment) -> (log: bool)
        ensures
            log == old(self).logs(*event, now),
            *final(self) == old(self).after(*event, now),
    {
        match event {
            HandEvent::Derived(_) => {
                let first: bool = !self.logged_joint_success;
                if first {
                    self.logged_joint_success = true;
                }
                first
            },
            HandEvent::Lacking | HandEvent::Missing => {
                let due: bool = self.last_missing_joint_log.elapsed_at(now) >= LOG_INTERVAL_NANOS;
                if due {
                    self.last_missing_joint_log = now;
                }
                due
            },
            HandEvent::Failed(_) => {
                let due: bool = self.last_joint_error_log.elapsed_at(now) >= LOG_INTERVAL_NANOS;
                if due {
                    self.last_joint_error_log = now;
                }
                due
            },
        }
    }
}

/// What is known of tracked hands.
#[verifier::ext_equal]
pub ghost struct TrackingView {
    pub hands: Seq<HandLogState>,
    pub toggle: ToggleState,
}

/// What is known at first.
pub open spec fn tracking_at_start(now: Moment) -> TrackingView {
    let hand = HandLogState {
        logged_joint_success: false,
        last_missing_joint_log: now,
        last_joint_error_log: now,
    };
    TrackingView {
        hands: seq![hand, hand],
        toggle: ToggleState {
            interaction_enabled: true,
            palms_up_since: None,
            last_toggle: now,
            last_toggle_progress_stage: 0,
        },
    }
}

/// A hand with the joints that are needed, and whether its pointer had a pose already.
pub open spec fn derived_input(pointer: Pointer, event: HandEvent) -> Option<
    (bool, DerivedHandInput),
> {
    match event {
        HandEvent::Derived(derived) => Some((pointer.is_tracked, derived)),
        _ => None,
    }
}

/// Both hands show their palms.
pub open spec fn both_palms_up(derived: Seq<Option<(bool, DerivedHandInput)>>) -> bool {
    forall|i: int|
        0 <= i < derived.len() ==> #[trigger] derived[i] is Some && (derived[i]->0).1.shows_palm()
}

/// The hands with the joints that are needed.
pub open spec fn derived_all(pointers: Seq<Pointer>, events: Seq<HandEvent>) -> Seq<
    Option<(bool, DerivedHandInput)>,
> {
    Seq::new(2, |i: int| derived_input(pointers[i], events[i]))
}

/// Both hands were located and show their palms.
pub open spec fn hands_show_palms(pointers: Seq<Pointer>, events: Seq<HandEvent>) -> bool {
    both_palms_up(derived_all(pointers, events))
}

/// A pointer had a pose already, or a hand was located.
pub open spec fn hands_found(pointers: Seq<Pointer>, events: Seq<HandEvent>) -> bool {
    ||| pointers[0].is_tracked
    ||| pointers[1].is_tracked
    ||| events[0] is Derived
    ||| events[1] is Derived
}

/// The log lines for the hands before `upto`.
pub open spec fn logs_up_to(
    tracking: TrackingView,
    pointers: Seq<Pointer>,
    events: Seq<HandEvent>,
    now: Moment,
    upto: int,
) -> Seq<HandLog>
    decreases upto,
{
    if upto <= 0 {
        seq![]
    } else {
        let i = upto - 1;
        let earlier = logs_up_to(tracking, pointers, events, now, i);
        if tracking.hands[i].logs(events[i], now) {
            earlier.push(
                HandLog {
                    hand: i as usize,
                    had_pose: pointers[i].is_tracked,
                    event: events[i],
                },
            )
        } else {
            earlier
        }
    }
}

impl TrackingView {
    /// What is known after a frame.
    pub open spec fn after(
        self,
        pointers: Seq<Pointer>,
        events: Seq<HandEvent>,
        now: Moment,
    ) -> TrackingView {
        TrackingView {
            hands: Seq::new(2, |i: int| self.hands[i].after(events[i], now)),
            toggle: self.toggle.after(hands_show_palms(pointers, events), now),
        }
    }

    /// The log lines of a frame.
    pub open spec fn logged(
        self,
        pointers: Seq<Pointer>,
        events: Seq<HandEvent>,
        now: Moment,
    ) -> Seq<HandLog> {
        logs_up_to(self, pointers, events, now, 2)
    }

    /// The pointers after a frame: a switch stops what they do, then each hand that was
    /// located drives its own. A pointer that has a pose keeps it.
    pub open spec fn pointers_after(
        self,
        pointers: Seq<Pointer>,
        events: Seq<HandEvent>,
        now: Moment,
    ) -> Seq<Pointer> {
        let up = hands_show_palms(pointers, events);
        let enabled = self.toggle.after(up, now).interaction_enabled;
        Seq::new(
            2,
            |i: int|
                {
                    let stopped = if self.toggle.toggles(up, now) {
                        pointers[i].switched(enabled)
                    } else {
                        pointers[i]
                    };
                    match events[i] {
                        HandEvent::Derived(derived) => stopped.driven(
                            derived,
                            !pointers[i].is_tracked,
                            enabled,
                        ),
                        _ => stopped,
                    }
                },
        )
    }
}

/// Bare hands as pointers.
pub struct OpenXrHandTracking {
    hands: [HandLogState; 2],
    toggle: ToggleState,
}

impl View for OpenXrHandTracking {
    type V = TrackingView;

    closed spec fn view(&self) -> TrackingView {
        TrackingView { hands: self.hands@, toggle: self.toggle }
    }
}

impl OpenXrHandTracking {
    /// Tracks hands where there is a tracker for each.
    pub fn new(left: bool, right: bool, now: Moment) -> (tracking: Option<Self>)
        ensures
            tracking is Some <==> left && right,
            tracking matches Some(t) ==> t@ == tracking_at_start(now) && t@.well_formed(),
    {
        if left && right {
            let hand: HandLogState = HandLogState {
                logged_joint_success: false,
                last_missing_joint_log: now,
                last_joint_error_log: now,
            };
            let tracking: Self = OpenXrHandTracking {
                hands: [hand, hand],
                toggle: ToggleState {
                    interaction_enabled: true,
                    palms_up_since: None,
                    last_toggle: now,
                    last_toggle_progress_stage: 0,
                },
            };
            assert(tracking@ =~= tracking_at_start(now));
            Some(tracking)
        } else {
            None
        }
    }

    /// Whether bare hands can interact.
    pub fn interaction_enabled(&self) -> (answer: bool)
        ensures
            answer == self@.toggle.interaction_enabled,
    {
        self.toggle.interaction_enabled
    }

    /// Follows the gesture that switches the interaction. A switch stops whatever the
    /// pointers do.
    pub fn update_interaction_toggle(
        &mut self,
        pointers: &mut [Pointer; 2],
        derived_inputs: &[Option<(bool, DerivedHandInput)>; 2],
        now: Moment,
        toasts: &mut Vec<Toast>,
    )
        ensures
            ({
                let up = both_palms_up(derived_inputs@);
                let before = old(self)@.toggle;
                &&& final(self)@ == (TrackingView {
                    toggle: before.after(up, now),
                    ..old(self)@
                })
                &&& said(final(toasts)@) == said(old(toasts)@) + before.notices(up, now)
                &&& final(pointers)@ == (if before.toggles(up, now) {
                    seq![
                        old(pointers)@[0].switched(!before.interaction_enabled),
                        old(pointers)@[1].switched(!before.interaction_enabled),
                    ]
                } else {
                    old(pointers)@
                })
            }),
    {
        let ghost said_before = said(toasts@);
        let ghost pointers_before = pointers@;
        let ghost before = self.toggle;
        let mut up: bool = true;
        let mut i: usize = 0;
        while i < 2
            invariant
                i <= 2,
                up <==> forall|j: int|
                    0 <= j < i ==> #[trigger] derived_inputs@[j] is Some
                        && (derived_inputs@[j]->0).1.shows_palm(),
            decreases 2 - i,
        {
            match &derived_inputs[i] {
                None => {
                    up = false;
                },
                Some((_, derived)) => {
                    if !derived.palm_shown() {
                        up = false;
                    }
                },
            }
            i += 1;
        }
        assert(up == both_palms_up(derived_inputs@));
        if up {
            let since: Moment = match self.toggle.palms_up_since {
                Some(since) => since,
                None => now,
            };
            self.toggle.palms_up_since = Some(since);
            let held: u64 = since.elapsed_at(now);
            let stages: u64 = held / 1_000_000 / STAGE_MILLIS;
            let stage: u8 = if stages < LAST_STAGE { stages as u8 } else { LAST_STAGE as u8 };
            if stage > 0 && stage != self.toggle.last_toggle_progress_stage {
                self.toggle.last_toggle_progress_stage = stage;
                toasts.push(make_progress_toast(stage));
            }
            if held >= HOLD_NANOS && self.toggle.last_toggle.elapsed_at(now)
                >= TOGGLE_INTERVAL_NANOS {
                let enabled: bool = !self.toggle.interaction_enabled;
                self.toggle = ToggleState {
                    interaction_enabled: enabled,
                    palms_up_since: None,
                    last_toggle: now,
                    last_toggle_progress_stage: 0,
                };
                let mut left: Pointer = pointers[0];
                left.interaction_enabled = enabled;
                left.now.rest();
                pointers[0] = left;
                let mut right: Pointer = pointers[1];
                right.interaction_enabled = enabled;
                right.now.rest();
                pointers[1] = right;
                toasts.push(make_switch_toast(enabled));
            }
        } else {
            self.toggle.palms_up_since = None;
            self.toggle.last_toggle_progress_stage = 0;
        }
        proof {
            assert(said(toasts@) =~= said_before + before.notices(up, now));
            assert(self.toggle == before.after(up, now));
            if before.toggles(up, now) {
                assert(pointers@ =~= seq![
                    pointers_before[0].switched(!before.interaction_enabled),
                    pointers_before[1].switched(!before.interaction_enabled),
                ]);
            }
        }
    }

    /// Drives the pointers by bare hands for one frame, and answers whether any pointer
    /// has a pose.
    pub fn update(
        &mut self,
        pointers: &mut [Pointer; 2],
        events: &[HandEvent; 2],
        now: Moment,
        toasts: &mut Vec<Toast>,
        logs: &mut Vec<HandLog>,
    ) -> (any_tracked: bool)
        ensures
            any_tracked == hands_found(old(pointers)@, events@),
            final(self)@ == old(self)@.after(old(pointers)@, events@, now),
            final(pointers)@ == old(self)@.pointers_after(old(pointers)@, events@, now),
            said(final(toasts)@) == said(old(toasts)@) + old(self)@.toggle.notices(
                hands_show_palms(old(pointers)@, events@),
                now,
            ),
            final(logs)@ == old(logs)@ + old(self)@.logged(old(pointers)@, events@, now),
    {
        let ghost view_before = self@;
        let ghost pointers_before = pointers@;
        let ghost logs_before = logs@;
        let mut any_tracked: bool = false;
        let mut derived_inputs: [Option<(bool, DerivedHandInput)>; 2] = [None, None];
        let mut idx: usize = 0;
        assert(logs@ =~= logs_before + logs_up_to(view_before, pointers_before, events@, now, 0));
        while idx < 2
            invariant
                idx <= 2,
                pointers@ == pointers_before,
                view_before.hands.len() == 2,
                self.toggle == view_before.toggle,
                forall|i: int|
                    0 <= i < idx ==> #[trigger] self.hands@[i] == view_before.hands[i].after(
                        events@[i],
                        now,
                    ),
                forall|i: int| idx <= i < 2 ==> #[trigger] self.hands@[i] == view_before.hands[i],
                forall|i: int|
                    0 <= i < idx ==> #[trigger] derived_inputs@[i] == derived_input(
                        pointers_before[i],
                        events@[i],
                    ),
                forall|i: int|
                    idx <= i < 2 ==> #[trigger] derived_inputs@[i] == None::<
                        (bool, DerivedHandInput),
                    >,
                any_tracked <==> {
                    ||| idx > 0 && (pointers_before[0].is_tracked || events@[0] is Derived)
                    ||| idx > 1 && (pointers_before[1].is_tracked || events@[1] is Derived)
                },
                logs@ == logs_before + logs_up_to(
                    view_before,
                    pointers_before,
                    events@,
                    now,
                    idx as int,
                ),
            decreases 2 - idx,
        {
            let had_pose: bool = pointers[idx].is_tracked;
            any_tracked = any_tracked || had_pose;
            let event: HandEvent = events[idx];
            let mut hand: HandLogState = self.hands[idx];
            if hand.note(&event, now) {
                logs.push(HandLog { hand: idx, had_pose, event });
            }
            self.hands[idx] = hand;
            if let HandEvent::Derived(derived) = event {
                derived_inputs[idx] = Some((had_pose, derived));
                any_tracked = true;
            }
            assert(pointers_before[idx as int].is_tracked == had_pose);
            idx += 1;
            assert(logs@ =~= logs_before + logs_up_to(
                view_before,
                pointers_before,
                events@,
                now,
                idx as int,
            ));
        }
        assert(derived_inputs@ =~= derived_all(pointers_before, events@));
        self.update_interaction_toggle(pointers, &derived_inputs, now, toasts);
        let enabled: bool = self.toggle.interaction_enabled;
        let ghost toggled = pointers@;
        let mut idx: usize = 0;
        while idx < 2
            invariant
                idx <= 2,
                toggled.len() == 2,
                forall|i: int|
                    0 <= i < idx ==> #[trigger] pointers@[i] == (match derived_inputs@[i] {
                        Some((had_pose, derived)) => toggled[i].driven(derived, !had_pose, enabled),
                        None => toggled[i],
                    }),
                forall|i: int| idx <= i < 2 ==> #[trigger] pointers@[i] == toggled[i],
            decreases 2 - idx,
        {
            if let Some((had_pose, derived)) = derived_inputs[idx] {
                let mut pointer: Pointer = pointers[idx];
                apply_derived_hand_input(&mut pointer, &derived, !had_pose, enabled);
                pointers[idx] = pointer;
            }
            idx += 1;
        }
        proof {
            assert(self@.hands =~= view_before.after(pointers_before, events@, now).hands);
            assert(pointers@ =~= view_before.pointers_after(pointers_before, events@, now));
        }
        any_tracked
    }
}

impl ToggleState {
    /// What holds of the gesture at all times: the stage is one of those there are, and
    /// there is none while a palm is down.
    pub open spec fn well_formed(self) -> bool {
        &&& self.last_toggle_progress_stage <= LAST_STAGE
        &&& self.palms_up_since is None ==> self.last_toggle_progress_stage == 0
    }
}

/// The gesture is well-formed at first and after every frame.
pub proof fn gesture_stays_well_formed(t: ToggleState, palms_up: bool, now: Moment)
    ensures
        tracking_at_start(now).toggle.well_formed(),
        t.well_formed() ==> t.after(palms_up, now).well_formed(),
{
}

/// A frame, as far as the gesture goes.
pub ghost struct GestureFrame {
    pub palms_up: bool,
    pub now: Moment,
}

/// The gesture before frame `i`.
pub open spec fn gesture_at(start: ToggleState, frames: Seq<GestureFrame>, i: int) -> ToggleState
    decreases i,
{
    if i <= 0 {
        start
    } else {
        gesture_at(start, frames, i - 1).after(frames[i - 1].palms_up, frames[i - 1].now)
    }
}

/// Whether frame `i` switches the interaction.
pub open spec fn switches_at(start: ToggleState, frames: Seq<GestureFrame>, i: int) -> bool {
    gesture_at(start, frames, i).toggles(frames[i].palms_up, frames[i].now)
}

/// Time does not run backwards.
pub open spec fn in_order(frames: Seq<GestureFrame>) -> bool {
    forall|i: int, j: int|
        0 <= i <= j < frames.len() ==> (#[trigger] frames[i]).now.nanos <= (
        #[trigger] frames[j]).now.nanos
}

proof fn lemma_last_toggle(start: ToggleState, frames: Seq<GestureFrame>, i: int, j: int)
    requires
        in_order(frames),
        0 <= i < j <= frames.len(),
        switches_at(start, frames, i),
    ensures
        gesture_at(start, frames, j).last_toggle.nanos >= frames[i].now.nanos,
    decreases j,
{
    if j > i + 1 {
        lemma_last_toggle(start, frames, i, j - 1);
    }
    assert(frames[i].now.nanos <= frames[j - 1].now.nanos);
}

/// However the palms move, two switches are at least two seconds apart.
pub proof fn switches_are_apart(start: ToggleState, frames: Seq<GestureFrame>, i: int, j: int)
    requires
        in_order(frames),
        0 <= i < j < frames.len(),
        switches_at(start, frames, i),
        switches_at(start, frames, j),
    ensures
        frames[j].now.nanos - frames[i].now.nanos >= TOGGLE_INTERVAL_NANOS,
{
    lemma_last_toggle(start, frames, i, j);
}

/// Both palms are up from frame `i` on, up to and without frame `j`.
pub open spec fn palms_up_through(frames: Seq<GestureFrame>, i: int, j: int) -> bool {
    forall|k: int| i <= k < j ==> (#[trigger] frames[k]).palms_up
}

proof fn lemma_held_since(start: ToggleState, frames: Seq<GestureFrame>, j: int) -> (i: int)
    requires
        start.palms_up_since is None,
        0 <= j <= frames.len(),
        gesture_at(start, frames, j).palms_up_since is Some,
    ensures
        0 <= i < j,
        frames[i].now == gesture_at(start, frames, j).palms_up_since->0,
        palms_up_through(frames, i, j),
    decreases j,
{
    let before = gesture_at(start, frames, j - 1);
    if before.palms_up_since is Some {
        lemma_held_since(start, frames, j - 1)
    } else {
        j - 1
    }
}

/// A switch only comes after both palms were up in every frame for 1.4 seconds.
pub proof fn switch_takes_a_held_gesture(start: ToggleState, frames: Seq<GestureFrame>, j: int)
    requires
        start.palms_up_since is None,
        0 <= j < frames.len(),
        switches_at(start, frames, j),
    ensures
        exists|i: int|
            0 <= i < j && #[trigger] palms_up_through(frames, i, j + 1) && elapsed(
                frames[i].now,
                frames[j].now,
            ) >= HOLD_NANOS,
{
    let before = gesture_at(start, frames, j);
    if before.palms_up_since is None {
        assert(elapsed(before.since(frames[j].now), frames[j].now) == 0);
    }
    let i = lemma_held_since(start, frames, j);
    assert(palms_up_through(frames, i, j + 1));
}

/// A gesture that is held long enough switches the interaction, where the last switch
/// is long enough ago.
pub proof fn held_gesture_switches(t: ToggleState, since: Moment, now: Moment)
    requires
        t.palms_up_since == Some(since),
        elapsed(since, now) >= HOLD_NANOS,
        elapsed(t.last_toggle, now) >= TOGGLE_INTERVAL_NANOS,
    ensures
        t.after(true, now).interaction_enabled == !t.interaction_enabled,
        t.after(true, now).last_toggle == now,
{
}

/// Letting a palm down starts the gesture anew, and switches nothing.
pub proof fn lowered_palm_starts_anew(t: ToggleState, now: Moment)
    ensures
        t.after(false, now).palms_up_since is None,
        t.after(false, now).last_toggle_progress_stage == 0,
        t.after(false, now).interaction_enabled == t.interaction_enabled,
        t.notices(false, now) =~= Seq::<ToastView>::empty(),
{
}

/// A stage that was announced is not announced again while it lasts.
pub proof fn stage_is_announced_once(t: ToggleState, now: Moment, later: Moment)
    requires
        t.announces(true, now),
        !t.toggles(true, now),
        t.after(true, now).stage(later) == t.stage(now),
    ensures
        !t.after(true, now).announces(true, later),
{
}

/// With the interaction disabled a bare hand neither clicks nor grabs, nor does
/// anything else.
pub proof fn disabled_hand_does_nothing(p: Pointer, derived: DerivedHandInput, update_pose: bool)
    ensures
        p.driven(derived, update_pose, false).now == PointerState::resting(),
{
}

/// A hand that clicks or grabs keeps on doing so at any strength at which it would
/// start to.
pub proof fn started_input_is_kept(derived: DerivedHandInput)
    ensures
        derived.clicks(false) ==> derived.clicks(true),
        derived.grabs(false) ==> derived.grabs(true),
{
}

/// A hand that clicks does not grab when nothing was held before.
pub proof fn fresh_click_is_no_grab(derived: DerivedHandInput, clicked: bool)
    requires
        derived.clicks(clicked),
    ensures
        !derived.grabs(false),
{
}

/// A hand that shows its palm neither clicks nor grabs.
pub proof fn shown_palm_does_nothing(derived: DerivedHandInput, clicked: bool, grabbed: bool)
    requires
        derived.shows_palm(),
    ensures
        !derived.clicks(clicked),
        !derived.grabs(grabbed),
{
}

/// Troubles of one kind with one hand are logged at least two seconds apart.
pub proof fn trouble_is_logged_rarely(
    hand: HandLogState,
    event: HandEvent,
    now: Moment,
    next: HandEvent,
    later: Moment,
)
    requires
        hand.logs(event, now),
        event is Failed <==> next is Failed,
        !(event is Derived),
        !(next is Derived),
        hand.after(event, now).logs(next, later),
    ensures
        elapsed(now, later) >= LOG_INTERVAL_NANOS,
{
}

/// Success is logged once.
pub proof fn success_is_logged_once(
    hand: HandLogState,
    derived: DerivedHandInput,
    now: Moment,
    event: HandEvent,
    later: Moment,
)
    ensures
        hand.after(HandEvent::Derived(derived), now).after(event, later).logged_joint_success,
{
}

impl TrackingView {
    /// What holds of tracked hands at all times.
    pub open spec fn well_formed(self) -> bool {
        self.hands.len() == 2 && self.toggle.well_formed()
    }
}

/// Tracked hands are well-formed at first and after every frame.
pub proof fn tracking_stays_well_formed(
    tracking: TrackingView,
    pointers: Seq<Pointer>,
    events: Seq<HandEvent>,
    now: Moment,
)
    ensures
        tracking_at_start(now).well_formed(),
        tracking.well_formed() ==> tracking.after(pointers, events, now).well_formed(),
{
}

/// The answer tells whether a pointer has a pose after the frame.
pub proof fn found_hands_have_a_pose(
    tracking: TrackingView,
    pointers: Seq<Pointer>,
    events: Seq<HandEvent>,
    now: Moment,
)
    ensures
        ({
            let after = tracking.pointers_after(pointers, events, now);
            hands_found(pointers, events) <==> after[0].is_tracked || after[1].is_tracked
        }),
{
}

/// A bare hand never moves a pointer that has a pose, and never changes what a pointer
/// did in the last frame.
pub proof fn bare_hand_respects_a_pose(
    tracking: TrackingView,
    pointers: Seq<Pointer>,
    events: Seq<HandEvent>,
    now: Moment,
    i: int,
)
    requires
        0 <= i < 2,
    ensures
        ({
            let after = tracking.pointers_after(pointers, events, now)[i];
            &&& pointers[i].is_tracked ==> {
                &&& after.is_tracked
                &&& after.pose == pointers[i].pose
                &&& after.raw_pose == pointers[i].raw_pose
            }
            &&& after.before == pointers[i].before
        }),
{
}

/// While the interaction is disabled, every hand that was located rests.
pub proof fn disabled_hands_rest(
    tracking: TrackingView,
    pointers: Seq<Pointer>,
    events: Seq<HandEvent>,
    now: Moment,
    i: int,
)
    requires
        0 <= i < 2,
        events[i] is Derived,
        !tracking.after(pointers, events, now).toggle.interaction_enabled,
    ensures
        ({
            let after = tracking.pointers_after(pointers, events, now)[i];
            after.now == PointerState::resting() && !after.interaction_enabled
        }),
{
}

/// In the frame that switches the interaction, whichever way, both pointers rest.
pub proof fn switch_stops_both_pointers(
    tracking: TrackingView,
    pointers: Seq<Pointer>,
    events: Seq<HandEvent>,
    now: Moment,
    i: int,
)
    requires
        0 <= i < 2,
        tracking.toggle.toggles(hands_show_palms(pointers, events), now),
    ensures
        tracking.pointers_after(pointers, events, now)[i].now == PointerState::resting(),
{
    let derived = derived_all(pointers, events);
    assert(derived[i] is Some && (derived[i]->0).1.shows_palm());
    shown_palm_does_nothing(
        (derived[i]->0).1,
        pointers[i].before.click,
        pointers[i].before.grab,
    );
}

} // verus!
