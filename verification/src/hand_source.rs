//! The actions of one hand, and the pointer that they drive.

use crate::click::{
    click_at_start, click_starts_well_formed, click_stays_well_formed, ClickReads,
    ClickSensitivity, ClickView, CustomClickAction, ReadError, RESET_NANOS,
};
use crate::float_bits::FloatBits;
use crate::location::{flags_contain, PoseRead, SmoothedPose, ORIENTATION_VALID};
use crate::moment::Moment;
use crate::names::{action_name, slot_label, slot_text, ClickSlot, SideAction};
use crate::pointer::{Pointer, PointerState};
use vstd::prelude::*;

verus! {

/// The name of an action, and the text that the runtime shows for it.
pub struct ActionName {
    pub name: String,
    pub localized: String,
}

/// The characters of both.
pub ghost struct NameView {
    pub name: Seq<char>,
    pub localized: Seq<char>,
}

impl View for ActionName {
    type V = NameView;

    open spec fn view(&self) -> NameView {
        NameView { name: self.name@, localized: self.localized@ }
    }
}

/// The names of a side's action that is not click-like.
pub open spec fn side_action(side: Seq<char>, suffix: Seq<char>, text: Seq<char>) -> NameView {
    NameView { name: side + suffix, localized: side + text }
}

fn name_side_action(side: &str, suffix: &str, text: &str) -> (name: ActionName)
    ensures
        name@ == side_action(side@, suffix@, text@),
{
    let mut name: String = side.to_owned();
    name.append(suffix);
    let mut localized: String = side.to_owned();
    localized.append(text);
    ActionName { name, localized }
}

/// How far to scroll in this frame.
#[derive(Clone, Copy, Debug, PartialEq, Eq, Structural)]
pub struct ScrollRead {
    pub x: FloatBits,
    pub y: FloatBits,
}

/// The actions of one hand, as read in one frame.
#[derive(Clone, Copy, Debug)]
pub struct HandReads {
    pub click: ClickReads,
    pub grab: ClickReads,
    pub alt_click: ClickReads,
    pub show_hide: ClickReads,
    pub toggle_dashboard: ClickReads,
    pub space_drag: ClickReads,
    pub space_rotate: ClickReads,
    pub space_reset: ClickReads,
    pub modifier_right: ClickReads,
    pub modifier_middle: ClickReads,
    pub move_mouse: ClickReads,
    pub scroll: Result<ScrollRead, ReadError>,
}

impl HandReads {
    /// The reads of one click-like input.
    pub open spec fn of(self, slot: ClickSlot) -> ClickReads {
        match slot {
            ClickSlot::Click => self.click,
            ClickSlot::Grab => self.grab,
            ClickSlot::AltClick => self.alt_click,
            ClickSlot::ShowHide => self.show_hide,
            ClickSlot::ToggleDashboard => self.toggle_dashboard,
            ClickSlot::SpaceDrag => self.space_drag,
            ClickSlot::SpaceRotate => self.space_rotate,
            ClickSlot::SpaceReset => self.space_reset,
            ClickSlot::ModifierRight => self.modifier_right,
            ClickSlot::ModifierMiddle => self.modifier_middle,
            ClickSlot::MoveMouse => self.move_mouse,
        }
    }

    fn reads_of(&self, slot: ClickSlot) -> (reads: ClickReads)
        ensures
            reads == self.of(slot),
    {
        match slot {
            ClickSlot::Click => self.click,
            ClickSlot::Grab => self.grab,
            ClickSlot::AltClick => self.alt_click,
            ClickSlot::ShowHide => self.show_hide,
            ClickSlot::ToggleDashboard => self.toggle_dashboard,
            ClickSlot::SpaceDrag => self.space_drag,
            ClickSlot::SpaceRotate => self.space_rotate,
            ClickSlot::SpaceReset => self.space_reset,
            ClickSlot::ModifierRight => self.modifier_right,
            ClickSlot::ModifierMiddle => self.modifier_middle,
            ClickSlot::MoveMouse => self.move_mouse,
        }
    }
}

/// What the actions of one hand know.
pub ghost struct SourceView {
    pub pose: NameView,
    pub scroll: NameView,
    pub haptics: NameView,
    pub click: ClickView,
    pub grab: ClickView,
    pub alt_click: ClickView,
    pub show_hide: ClickView,
    pub toggle_dashboard: ClickView,
    pub space_drag: ClickView,
    pub space_rotate: ClickView,
    pub space_reset: ClickView,
    pub modifier_right: ClickView,
    pub modifier_middle: ClickView,
    pub move_mouse: ClickView,
}

impl SourceView {
    /// One click-like input.
    pub open spec fn of(self, slot: ClickSlot) -> ClickView {
        match slot {
            ClickSlot::Click => self.click,
            ClickSlot::Grab => self.grab,
            ClickSlot::AltClick => self.alt_click,
            ClickSlot::ShowHide => self.show_hide,
            ClickSlot::ToggleDashboard => self.toggle_dashboard,
            ClickSlot::SpaceDrag => self.space_drag,
            ClickSlot::SpaceRotate => self.space_rotate,
            ClickSlot::SpaceReset => self.space_reset,
            ClickSlot::ModifierRight => self.modifier_right,
            ClickSlot::ModifierMiddle => self.modifier_middle,
            ClickSlot::MoveMouse => self.move_mouse,
        }
    }

    /// Every input in a state that it can get into.
    pub open spec fn well_formed(self) -> bool {
        forall|slot: ClickSlot| (#[trigger] self.of(slot)).well_formed()
    }
}

/// What the actions of a side know at first.
pub open spec fn source_at_start(side: Seq<char>, now: Moment) -> SourceView {
    SourceView {
        pose: side_action(side, "_hand"@, " hand pose"@),
        scroll: side_action(side, "_scroll"@, " hand scroll"@),
        haptics: side_action(side, "_haptics"@, " hand haptics"@),
        click: click_at_start(side, slot_label(ClickSlot::Click), now),
        grab: click_at_start(side, slot_label(ClickSlot::Grab), now),
        alt_click: click_at_start(side, slot_label(ClickSlot::AltClick), now),
        show_hide: click_at_start(side, slot_label(ClickSlot::ShowHide), now),
        toggle_dashboard: click_at_start(side, slot_label(ClickSlot::ToggleDashboard), now),
        space_drag: click_at_start(side, slot_label(ClickSlot::SpaceDrag), now),
        space_rotate: click_at_start(side, slot_label(ClickSlot::SpaceRotate), now),
        space_reset: click_at_start(side, slot_label(ClickSlot::SpaceReset), now),
        modifier_right: click_at_start(side, slot_label(ClickSlot::ModifierRight), now),
        modifier_middle: click_at_start(side, slot_label(ClickSlot::ModifierMiddle), now),
        move_mouse: click_at_start(side, slot_label(ClickSlot::MoveMouse), now),
    }
}

/// The actions of one hand.
pub struct OpenXrHandSource {
    pose: ActionName,
    scroll: ActionName,
    haptics: ActionName,
    click: CustomClickAction,
    grab: CustomClickAction,
    alt_click: CustomClickAction,
    show_hide: CustomClickAction,
    toggle_dashboard: CustomClickAction,
    space_drag: CustomClickAction,
    space_rotate: CustomClickAction,
    space_reset: CustomClickAction,
    modifier_right: CustomClickAction,
    modifier_middle: CustomClickAction,
    move_mouse: CustomClickAction,
}

impl View for OpenXrHandSource {
    type V = SourceView;

    closed spec fn view(&self) -> SourceView {
        SourceView {
            pose: self.pose@,
            scroll: self.scroll@,
            haptics: self.haptics@,
            click: self.click@,
            grab: self.grab@,
            alt_click: self.alt_click@,
            show_hide: self.show_hide@,
            toggle_dashboard: self.toggle_dashboard@,
            space_drag: self.space_drag@,
            space_rotate: self.space_rotate@,
            space_reset: self.space_reset@,
            modifier_right: self.modifier_right@,
            modifier_middle: self.modifier_middle@,
            move_mouse: self.move_mouse@,
        }
    }
}

impl OpenXrHandSource {
    /// The actions of a side.
    pub fn new(side: &str, now: Moment) -> (source: Self)
        ensures
            source@ == source_at_start(side@, now),
            source@.well_formed(),
    {
        proof {
            source_starts_well_formed(side@, now);
        }
        OpenXrHandSource {
            pose: name_side_action(side, "_hand", " hand pose"),
            scroll: name_side_action(side, "_scroll", " hand scroll"),
            haptics: name_side_action(side, "_haptics", " hand haptics"),
            click: CustomClickAction::new(slot_text(ClickSlot::Click), side, now),
            grab: CustomClickAction::new(slot_text(ClickSlot::Grab), side, now),
            alt_click: CustomClickAction::new(slot_text(ClickSlot::AltClick), side, now),
            show_hide: CustomClickAction::new(slot_text(ClickSlot::ShowHide), side, now),
            toggle_dashboard: CustomClickAction::new(slot_text(ClickSlot::ToggleDashboard), side, now),
            space_drag: CustomClickAction::new(slot_text(ClickSlot::SpaceDrag), side, now),
            space_rotate: CustomClickAction::new(slot_text(ClickSlot::SpaceRotate), side, now),
            space_reset: CustomClickAction::new(slot_text(ClickSlot::SpaceReset), side, now),
            modifier_right: CustomClickAction::new(slot_text(ClickSlot::ModifierRight), side, now),
            modifier_middle: CustomClickAction::new(slot_text(ClickSlot::ModifierMiddle), side, now),
            move_mouse: CustomClickAction::new(slot_text(ClickSlot::MoveMouse), side, now),
        }
    }

    /// The action that gives the hand's pose.
    pub fn pose(&self) -> (name: &ActionName)
        ensures
            name@ == self@.pose,
    {
        &self.pose
    }

    /// The action that scrolls.
    pub fn scroll(&self) -> (name: &ActionName)
        ensures
            name@ == self@.scroll,
    {
        &self.scroll
    }

    /// The action that vibrates.
    pub fn haptics(&self) -> (name: &ActionName)
        ensures
            name@ == self@.haptics,
    {
        &self.haptics
    }

    /// One click-like input.
    pub fn click_action(&self, slot: ClickSlot) -> (action: &CustomClickAction)
        ensures
            action@ == self@.of(slot),
    {
        match slot {
            ClickSlot::Click => &self.click,
            ClickSlot::Grab => &self.grab,
            ClickSlot::AltClick => &self.alt_click,
            ClickSlot::ShowHide => &self.show_hide,
            ClickSlot::ToggleDashboard => &self.toggle_dashboard,
            ClickSlot::SpaceDrag => &self.space_drag,
            ClickSlot::SpaceRotate => &self.space_rotate,
            ClickSlot::SpaceReset => &self.space_reset,
            ClickSlot::ModifierRight => &self.modifier_right,
            ClickSlot::ModifierMiddle => &self.modifier_middle,
            ClickSlot::MoveMouse => &self.move_mouse,
        }
    }

    /// Lets one click-like input take note of the frame.
    fn slot_state(
        &mut self,
        slot: ClickSlot,
        before: bool,
        reads: &ClickReads,
        sensitivity: ClickSensitivity,
        now: Moment,
    ) -> (answer: Result<bool, ReadError>)
        requires
            now.nanos - RESET_NANOS >= i64::MIN,
        ensures
            answer == old(self)@.of(slot).answer(*reads, sensitivity.floor(before), now),
            final(self)@.of(slot) == old(self)@.of(slot).after(
                *reads,
                sensitivity.floor(before),
                now,
            ),
            forall|other: ClickSlot|
                other != slot ==> #[trigger] final(self)@.of(other) == old(self)@.of(other),
            final(self)@.pose == old(self)@.pose,
            final(self)@.scroll == old(self)@.scroll,
            final(self)@.haptics == old(self)@.haptics,
    {
        match slot {
            ClickSlot::Click => self.click.state(before, reads, sensitivity, now),
            ClickSlot::Grab => self.grab.state(before, reads, sensitivity, now),
            ClickSlot::AltClick => self.alt_click.state(before, reads, sensitivity, now),
            ClickSlot::ShowHide => self.show_hide.state(before, reads, sensitivity, now),
            ClickSlot::ToggleDashboard => self.toggle_dashboard.state(before, reads, sensitivity, now),
            ClickSlot::SpaceDrag => self.space_drag.state(before, reads, sensitivity, now),
            ClickSlot::SpaceRotate => self.space_rotate.state(before, reads, sensitivity, now),
            ClickSlot::SpaceReset => self.space_reset.state(before, reads, sensitivity, now),
            ClickSlot::ModifierRight => self.modifier_right.state(before, reads, sensitivity, now),
            ClickSlot::ModifierMiddle => self.modifier_middle.state(before, reads, sensitivity, now),
            ClickSlot::MoveMouse => self.move_mouse.state(before, reads, sensitivity, now),
        }
    }
}

/// One step of loading a hand's actions.
#[derive(Clone, Copy, Debug, PartialEq, Eq, Structural)]
pub enum LoadStep {
    Slot(ClickSlot),
    Scroll,
}

/// How many steps there are.
pub const LOAD_STEPS: usize = 12;

/// The step at each place of the order in which actions are loaded.
pub open spec fn step_at(place: int) -> LoadStep {
    if place == 0 {
        LoadStep::Slot(ClickSlot::Click)
    } else if place == 1 {
        LoadStep::Slot(ClickSlot::Grab)
    } else if place == 2 {
        LoadStep::Scroll
    } else if place == 3 {
        LoadStep::Slot(ClickSlot::AltClick)
    } else if place == 4 {
        LoadStep::Slot(ClickSlot::ShowHide)
    } else if place == 5 {
        LoadStep::Slot(ClickSlot::ModifierRight)
    } else if place == 6 {
        LoadStep::Slot(ClickSlot::ToggleDashboard)
    } else if place == 7 {
        LoadStep::Slot(ClickSlot::ModifierMiddle)
    } else if place == 8 {
        LoadStep::Slot(ClickSlot::MoveMouse)
    } else if place == 9 {
        LoadStep::Slot(ClickSlot::SpaceDrag)
    } else if place == 10 {
        LoadStep::Slot(ClickSlot::SpaceRotate)
    } else {
        LoadStep::Slot(ClickSlot::SpaceReset)
    }
}

/// The place of a slot in that order.
pub open spec fn place_of(slot: ClickSlot) -> int {
    match slot {
        ClickSlot::Click => 0,
        ClickSlot::Grab => 1,
        ClickSlot::AltClick => 3,
        ClickSlot::ShowHide => 4,
        ClickSlot::ModifierRight => 5,
        ClickSlot::ToggleDashboard => 6,
        ClickSlot::ModifierMiddle => 7,
        ClickSlot::MoveMouse => 8,
        ClickSlot::SpaceDrag => 9,
        ClickSlot::SpaceRotate => 10,
        ClickSlot::SpaceReset => 11,
    }
}

/// The place of scrolling in that order.
pub open spec fn scroll_place() -> int {
    2
}

fn load_step(place: usize) -> (step: LoadStep)
    requires
        place < LOAD_STEPS,
    ensures
        step == step_at(place as int),
{
    match place {
        0 => LoadStep::Slot(ClickSlot::Click),
        1 => LoadStep::Slot(ClickSlot::Grab),
        2 => LoadStep::Scroll,
        3 => LoadStep::Slot(ClickSlot::AltClick),
        4 => LoadStep::Slot(ClickSlot::ShowHide),
        5 => LoadStep::Slot(ClickSlot::ModifierRight),
        6 => LoadStep::Slot(ClickSlot::ToggleDashboard),
        7 => LoadStep::Slot(ClickSlot::ModifierMiddle),
        8 => LoadStep::Slot(ClickSlot::MoveMouse),
        9 => LoadStep::Slot(ClickSlot::SpaceDrag),
        10 => LoadStep::Slot(ClickSlot::SpaceRotate),
        _ => LoadStep::Slot(ClickSlot::SpaceReset),
    }
}

/// All that loading a hand's actions depends on.
pub ghost struct ActionLoad {
    pub source: SourceView,
    pub pointer: Pointer,
    pub reads: HandReads,
    pub sensitivity: ClickSensitivity,
    pub now: Moment,
}

impl ActionLoad {
    /// What one click-like input answers.
    pub open spec fn answer(self, slot: ClickSlot) -> Result<bool, ReadError> {
        self.source.of(slot).answer(
            self.reads.of(slot),
            self.sensitivity.floor(self.pointer.before.on(slot)),
            self.now,
        )
    }

    /// The error of a step, if it has one.
    pub open spec fn error(self, step: LoadStep) -> Option<ReadError> {
        match step {
            LoadStep::Slot(slot) => match self.answer(slot) {
                Err(e) => Some(e),
                Ok(_) => None,
            },
            LoadStep::Scroll => match self.reads.scroll {
                Err(e) => Some(e),
                Ok(_) => None,
            },
        }
    }

    /// The first place from `place` on whose step fails; behind the last one where none
    /// does.
    pub open spec fn failure_from(self, place: int) -> int
        decreases LOAD_STEPS - place,
    {
        if place >= LOAD_STEPS {
            LOAD_STEPS as int
        } else if self.error(step_at(place)) is Some {
            place
        } else {
            self.failure_from(place + 1)
        }
    }

    /// Where it ends: the place of the first step that fails.
    pub open spec fn stop(self) -> int {
        self.failure_from(0)
    }

    /// What an input knows afterwards: it takes note of the frame where its step is
    /// reached.
    pub open spec fn known(self, slot: ClickSlot) -> ClickView {
        if place_of(slot) <= self.stop() {
            self.source.of(slot).after(
                self.reads.of(slot),
                self.sensitivity.floor(self.pointer.before.on(slot)),
                self.now,
            )
        } else {
            self.source.of(slot)
        }
    }

    /// Whether an input is on afterwards: as it answered, where its step succeeded, and
    /// else as it was.
    pub open spec fn on(self, slot: ClickSlot) -> bool {
        if place_of(slot) < self.stop() {
            self.answer(slot) == Ok::<bool, ReadError>(true)
        } else {
            self.pointer.now.on(slot)
        }
    }

    /// How far to scroll afterwards: as was read, where that step succeeded.
    pub open spec fn scrolled(self) -> ScrollRead {
        if scroll_place() < self.stop() {
            self.reads.scroll->Ok_0
        } else {
            ScrollRead { x: self.pointer.now.scroll_x, y: self.pointer.now.scroll_y }
        }
    }

    /// The inputs afterwards; `load_in_parts` tells them one by one.
    #[verifier::opaque]
    pub open spec fn source_after(self) -> SourceView {
        SourceView {
            pose: self.source.pose,
            scroll: self.source.scroll,
            haptics: self.source.haptics,
            click: self.known(ClickSlot::Click),
            grab: self.known(ClickSlot::Grab),
            alt_click: self.known(ClickSlot::AltClick),
            show_hide: self.known(ClickSlot::ShowHide),
            toggle_dashboard: self.known(ClickSlot::ToggleDashboard),
            space_drag: self.known(ClickSlot::SpaceDrag),
            space_rotate: self.known(ClickSlot::SpaceRotate),
            space_reset: self.known(ClickSlot::SpaceReset),
            modifier_right: self.known(ClickSlot::ModifierRight),
            modifier_middle: self.known(ClickSlot::ModifierMiddle),
            move_mouse: self.known(ClickSlot::MoveMouse),
        }
    }

    /// The pointer afterwards; `load_in_parts` tells it part by part.
    #[verifier::opaque]
    pub open spec fn pointer_after(self) -> Pointer {
        Pointer {
            now: PointerState {
                click: self.on(ClickSlot::Click),
                grab: self.on(ClickSlot::Grab),
                alt_click: self.on(ClickSlot::AltClick),
                show_hide: self.on(ClickSlot::ShowHide),
                toggle_dashboard: self.on(ClickSlot::ToggleDashboard),
                space_drag: self.on(ClickSlot::SpaceDrag),
                space_rotate: self.on(ClickSlot::SpaceRotate),
                space_reset: self.on(ClickSlot::SpaceReset),
                click_modifier_right: self.on(ClickSlot::ModifierRight),
                click_modifier_middle: self.on(ClickSlot::ModifierMiddle),
                move_mouse: self.on(ClickSlot::MoveMouse),
                scroll_x: self.scrolled().x,
                scroll_y: self.scrolled().y,
            },
            ..self.pointer
        }
    }

    /// How it ends: with the error of the step that fails, if one does.
    #[verifier::opaque]
    pub open spec fn result(self) -> Result<(), ReadError> {
        if self.stop() < LOAD_STEPS {
            Err(self.error(step_at(self.stop()))->0)
        } else {
            Ok(())
        }
    }
}

/// The inputs, the pointer and the outcome of a frame.
pub ghost struct PointerOutcome {
    pub source: SourceView,
    pub pointer: Pointer,
    pub result: Result<(), ReadError>,
}

/// What loading the frame's actions leads to.
pub open spec fn acted(
    source: SourceView,
    pointer: Pointer,
    reads: HandReads,
    sensitivity: ClickSensitivity,
    now: Moment,
) -> PointerOutcome {
    let load = ActionLoad { source, pointer, reads, sensitivity, now };
    PointerOutcome {
        source: load.source_after(),
        pointer: load.pointer_after(),
        result: load.result(),
    }
}

/// A hand, as read in one frame.
#[derive(Clone, Copy, Debug)]
pub struct PointerReads {
    pub pose: Result<PoseRead, ReadError>,
    pub actions: HandReads,
}

/// What a frame with a hand leads to: the pose is loaded first, then the actions.
pub open spec fn hand_updated(
    source: SourceView,
    pointer: Pointer,
    reads: PointerReads,
    sensitivity: ClickSensitivity,
    now: Moment,
) -> PointerOutcome {
    let enabled = Pointer { interaction_enabled: true, handsfree: false, ..pointer };
    match reads.pose {
        Err(e) => PointerOutcome { source, pointer: enabled, result: Err(e) },
        Ok(_) => acted(source, enabled.posed(reads.pose), reads.actions, sensitivity, now),
    }
}

/// What drives the pointer while no hand does.
#[derive(Clone, Copy, Debug, PartialEq, Eq, Structural)]
pub enum HandsfreePointer {
    Off,
    Hmd,
    HmdOnly,
    EyeTracking,
    EyeTrackingOnly,
}

impl HandsfreePointer {
    /// The pointer follows the head.
    pub open spec fn by_head(self) -> bool {
        self == HandsfreePointer::Hmd || self == HandsfreePointer::HmdOnly
    }

    /// The pointer moves, but there are no actions.
    pub open spec fn pose_only(self) -> bool {
        self == HandsfreePointer::HmdOnly || self == HandsfreePointer::EyeTrackingOnly
    }
}

/// What can drive the pointer without hands, as read in one frame.
#[derive(Clone, Copy, Debug)]
pub struct HandsfreeReads {
    /// The pointer moved to the head.
    pub hmd: SmoothedPose,
    /// The pointer moved to where the eyes look.
    pub eye: Result<PoseRead, ReadError>,
    pub actions: HandReads,
}

/// The pointer after it was moved without hands.
pub open spec fn handsfree_moved(
    pointer: Pointer,
    mode: HandsfreePointer,
    hmd_valid: bool,
    reads: HandsfreeReads,
) -> Pointer {
    let moved = if mode.by_head() {
        Pointer {
            is_tracked: hmd_valid,
            raw_pose: reads.hmd.raw_pose,
            pose: reads.hmd.pose,
            ..pointer
        }
    } else {
        pointer.posed(reads.eye)
    };
    Pointer { interaction_enabled: true, handsfree: moved.is_tracked, ..moved }
}

/// What a frame without hands leads to.
pub open spec fn handsfree_updated(
    source: SourceView,
    pointer: Pointer,
    mode: HandsfreePointer,
    hmd_valid: bool,
    reads: HandsfreeReads,
    sensitivity: ClickSensitivity,
    now: Moment,
) -> PointerOutcome {
    let moved = handsfree_moved(pointer, mode, hmd_valid, reads);
    if mode == HandsfreePointer::Off {
        PointerOutcome { source, pointer, result: Ok(()) }
    } else if !mode.by_head() && reads.eye is Err {
        PointerOutcome { source, pointer, result: Err(reads.eye->Err_0) }
    } else if mode.pose_only() {
        PointerOutcome { source, pointer: moved, result: Ok(()) }
    } else {
        acted(source, moved, reads.actions, sensitivity, now)
    }
}

/// The inputs and the pointer where the steps before `place` are done.
spec fn partly_loaded(load: ActionLoad, place: int, source: SourceView, pointer: Pointer) -> bool {
    &&& load.stop() == load.failure_from(place)
    &&& source.pose == load.source.pose
    &&& source.scroll == load.source.scroll
    &&& source.haptics == load.source.haptics
    &&& forall|slot: ClickSlot| #[trigger]
        source.of(slot) == (if place_of(slot) < place {
            load.known(slot)
        } else {
            load.source.of(slot)
        })
    &&& forall|slot: ClickSlot| #[trigger]
        pointer.now.on(slot) == (if place_of(slot) < place {
            load.on(slot)
        } else {
            load.pointer.now.on(slot)
        })
    &&& pointer.now.scroll_x == (if place > scroll_place() {
        load.reads.scroll->Ok_0.x
    } else {
        load.pointer.now.scroll_x
    })
    &&& pointer.now.scroll_y == (if place > scroll_place() {
        load.reads.scroll->Ok_0.y
    } else {
        load.pointer.now.scroll_y
    })
    &&& pointer == (Pointer { now: pointer.now, ..load.pointer })
}

/// What the step at `place` does, told apart from the inputs that it leaves alone.
spec fn performed(
    load: ActionLoad,
    place: int,
    source_before: SourceView,
    pointer_before: Pointer,
    source: SourceView,
    pointer: Pointer,
    done: Result<(), ReadError>,
) -> bool {
    let step = step_at(place);
    &&& source.pose == source_before.pose
    &&& source.scroll == source_before.scroll
    &&& source.haptics == source_before.haptics
    &&& forall|slot: ClickSlot|
        step != LoadStep::Slot(slot) ==> #[trigger] source.of(slot) == source_before.of(slot)
    &&& forall|slot: ClickSlot|
        step != LoadStep::Slot(slot) || done is Err ==> #[trigger] pointer.now.on(slot)
            == pointer_before.now.on(slot)
    &&& step matches LoadStep::Slot(slot) ==> {
        &&& source.of(slot) == load.source.of(slot).after(
            load.reads.of(slot),
            load.sensitivity.floor(load.pointer.before.on(slot)),
            load.now,
        )
        &&& done is Ok ==> pointer.now.on(slot) == (load.answer(slot) == Ok::<bool, ReadError>(
            true,
        ))
    }
    &&& done == (match load.error(step) {
        Some(e) => Err::<(), ReadError>(e),
        None => Ok::<(), ReadError>(()),
    })
    &&& pointer.now.scroll_x == (if step == LoadStep::Scroll && done is Ok {
        load.reads.scroll->Ok_0.x
    } else {
        pointer_before.now.scroll_x
    })
    &&& pointer.now.scroll_y == (if step == LoadStep::Scroll && done is Ok {
        load.reads.scroll->Ok_0.y
    } else {
        pointer_before.now.scroll_y
    })
    &&& pointer == (Pointer { now: pointer.now, ..pointer_before })
}

/// A step takes a partial load one place further, or ends it.
proof fn lemma_performed(
    load: ActionLoad,
    place: int,
    source_before: SourceView,
    pointer_before: Pointer,
    source: SourceView,
    pointer: Pointer,
    done: Result<(), ReadError>,
)
    requires
        0 <= place < LOAD_STEPS,
        partly_loaded(load, place, source_before, pointer_before),
        performed(load, place, source_before, pointer_before, source, pointer, done),
    ensures
        done is Ok ==> partly_loaded(load, place + 1, source, pointer),
        done is Err ==> source == load.source_after() && pointer == load.pointer_after()
            && load.result() == done,
{
    reveal(ActionLoad::result);
    assert forall|slot: ClickSlot| (step_at(place) == LoadStep::Slot(slot)) == (place_of(slot)
        == place) by {}
    if done is Ok {
        lemma_failure_from(load, place + 1);
        assert forall|slot: ClickSlot|
            place_of(slot) < place + 1 implies #[trigger] source.of(slot) == load.known(slot) by {}
        assert forall|slot: ClickSlot|
            place_of(slot) < place + 1 implies #[trigger] pointer.now.on(slot) == load.on(slot) by {}
    } else {
        assert forall|slot: ClickSlot| #[trigger] source.of(slot) == load.known(slot) by {}
        assert forall|slot: ClickSlot| #[trigger] pointer.now.on(slot) == load.on(slot) by {}
        lemma_agrees(load, source, pointer);
    }
}

/// Inputs and a pointer that agree with a load in every part are those of the load.
proof fn lemma_agrees(load: ActionLoad, source: SourceView, pointer: Pointer)
    requires
        source.pose == load.source.pose,
        source.scroll == load.source.scroll,
        source.haptics == load.source.haptics,
        forall|slot: ClickSlot| #[trigger] source.of(slot) == load.known(slot),
        forall|slot: ClickSlot| #[trigger] pointer.now.on(slot) == load.on(slot),
        pointer.now.scroll_x == load.scrolled().x,
        pointer.now.scroll_y == load.scrolled().y,
        pointer == (Pointer { now: pointer.now, ..load.pointer }),
    ensures
        source == load.source_after(),
        pointer == load.pointer_after(),
{
    reveal(ActionLoad::source_after);
    reveal(ActionLoad::pointer_after);
    assert(source.of(ClickSlot::Click) == load.known(ClickSlot::Click));
    assert(source.of(ClickSlot::Grab) == load.known(ClickSlot::Grab));
    assert(source.of(ClickSlot::AltClick) == load.known(ClickSlot::AltClick));
    assert(source.of(ClickSlot::ShowHide) == load.known(ClickSlot::ShowHide));
    assert(source.of(ClickSlot::ToggleDashboard) == load.known(ClickSlot::ToggleDashboard));
    assert(source.of(ClickSlot::SpaceDrag) == load.known(ClickSlot::SpaceDrag));
    assert(source.of(ClickSlot::SpaceRotate) == load.known(ClickSlot::SpaceRotate));
    assert(source.of(ClickSlot::SpaceReset) == load.known(ClickSlot::SpaceReset));
    assert(source.of(ClickSlot::ModifierRight) == load.known(ClickSlot::ModifierRight));
    assert(source.of(ClickSlot::ModifierMiddle) == load.known(ClickSlot::ModifierMiddle));
    assert(source.of(ClickSlot::MoveMouse) == load.known(ClickSlot::MoveMouse));
    assert(pointer.now.on(ClickSlot::Click) == load.on(ClickSlot::Click));
    assert(pointer.now.on(ClickSlot::Grab) == load.on(ClickSlot::Grab));
    assert(pointer.now.on(ClickSlot::AltClick) == load.on(ClickSlot::AltClick));
    assert(pointer.now.on(ClickSlot::ShowHide) == load.on(ClickSlot::ShowHide));
    assert(pointer.now.on(ClickSlot::ToggleDashboard) == load.on(ClickSlot::ToggleDashboard));
    assert(pointer.now.on(ClickSlot::SpaceDrag) == load.on(ClickSlot::SpaceDrag));
    assert(pointer.now.on(ClickSlot::SpaceRotate) == load.on(ClickSlot::SpaceRotate));
    assert(pointer.now.on(ClickSlot::SpaceReset) == load.on(ClickSlot::SpaceReset));
    assert(pointer.now.on(ClickSlot::ModifierRight) == load.on(ClickSlot::ModifierRight));
    assert(pointer.now.on(ClickSlot::ModifierMiddle) == load.on(ClickSlot::ModifierMiddle));
    assert(pointer.now.on(ClickSlot::MoveMouse) == load.on(ClickSlot::MoveMouse));
}

/// What a load leads to, part by part.
pub proof fn load_in_parts(load: ActionLoad, slot: ClickSlot)
    ensures
        load.source_after().of(slot) == load.known(slot),
        load.source_after().pose == load.source.pose,
        load.source_after().scroll == load.source.scroll,
        load.source_after().haptics == load.source.haptics,
        load.pointer_after().now.on(slot) == load.on(slot),
        load.pointer_after().now.scroll_x == load.scrolled().x,
        load.pointer_after().now.scroll_y == load.scrolled().y,
        load.pointer_after() == (Pointer { now: load.pointer_after().now, ..load.pointer }),
        load.result() == (if load.stop() < LOAD_STEPS {
            Err::<(), ReadError>(load.error(step_at(load.stop()))->0)
        } else {
            Ok::<(), ReadError>(())
        }),
{
    reveal(ActionLoad::source_after);
    reveal(ActionLoad::pointer_after);
    reveal(ActionLoad::result);
}

/// Where every input can be read, all of them are loaded.
pub proof fn readable_frame_is_loaded(load: ActionLoad, slot: ClickSlot)
    requires
        forall|any: ClickSlot| (#[trigger] load.answer(any)) is Ok,
        load.reads.scroll is Ok,
    ensures
        load.result() == Ok::<(), ReadError>(()),
        load.answer(slot) == Ok::<bool, ReadError>(load.pointer_after().now.on(slot)),
        load.pointer_after().now.scroll_x == load.reads.scroll->Ok_0.x,
        load.pointer_after().now.scroll_y == load.reads.scroll->Ok_0.y,
{
    load_stops_at_the_first_failure(load);
    load_in_parts(load, slot);
    if load.stop() < LOAD_STEPS {
        let step = step_at(load.stop());
        if let LoadStep::Slot(failed) = step {
            assert(load.answer(failed) is Ok);
        }
    }
    assert(load.answer(slot) is Ok);
}

/// Loading never touches what the pointer did in the last frame, nor where it is.
pub proof fn loading_keeps_the_pose(load: ActionLoad)
    ensures
        load.pointer_after().before == load.pointer.before,
        load.pointer_after().pose == load.pointer.pose,
        load.pointer_after().raw_pose == load.pointer.raw_pose,
        load.pointer_after().is_tracked == load.pointer.is_tracked,
{
    load_in_parts(load, ClickSlot::Click);
}

/// The names of a side's actions, which all differ.
pub proof fn source_names_its_actions(side: Seq<char>, slot: ClickSlot, now: Moment)
    ensures
        ({
            let source = source_at_start(side, now);
            let handler = |count: nat| SideAction::Handler { slot, count, numeric: false };
            &&& source.pose.name == action_name(side, SideAction::Pose)
            &&& source.scroll.name == action_name(side, SideAction::Scroll)
            &&& source.haptics.name == action_name(side, SideAction::Haptics)
            &&& source.of(slot).single.name == action_name(side, handler(0))
            &&& source.of(slot).double.name == action_name(side, handler(1))
            &&& source.of(slot).triple.name == action_name(side, handler(2))
        }),
{
}

/// The inputs of a side are well-formed at first.
pub proof fn source_starts_well_formed(side: Seq<char>, now: Moment)
    ensures
        source_at_start(side, now).well_formed(),
{
    assert forall|slot: ClickSlot| (#[trigger] source_at_start(side, now).of(
        slot,
    )).well_formed() by {
        click_starts_well_formed(side, slot_label(slot), now);
    }
}

/// The inputs stay well-formed, however a load ends.
pub proof fn source_stays_well_formed(load: ActionLoad)
    requires
        load.source.well_formed(),
    ensures
        load.source_after().well_formed(),
{
    assert forall|slot: ClickSlot| (#[trigger] load.source_after().of(slot)).well_formed() by {
        load_in_parts(load, slot);
        assert(load.source.of(slot).well_formed());
        click_stays_well_formed(
            load.source.of(slot),
            load.reads.of(slot),
            load.sensitivity.floor(load.pointer.before.on(slot)),
            load.now,
        );
    }
}

/// The first failure is at or behind the place from which it is looked for.
proof fn lemma_failure_from(load: ActionLoad, place: int)
    requires
        0 <= place <= LOAD_STEPS,
    ensures
        place <= load.failure_from(place) <= LOAD_STEPS,
    decreases LOAD_STEPS - place,
{
    if place < LOAD_STEPS {
        lemma_failure_from(load, place + 1);
    }
}

/// A load ends at the first step that fails: no earlier one does.
pub proof fn load_stops_at_the_first_failure(load: ActionLoad)
    ensures
        0 <= load.stop() <= LOAD_STEPS,
        load.stop() < LOAD_STEPS ==> load.error(step_at(load.stop())) is Some,
        forall|place: int|
            0 <= place < load.stop() ==> load.error(#[trigger] step_at(place)) is None,
{
    lemma_no_failure_before(load, 0);
}

proof fn lemma_no_failure_before(load: ActionLoad, from: int)
    requires
        0 <= from <= LOAD_STEPS,
    ensures
        from <= load.failure_from(from) <= LOAD_STEPS,
        load.failure_from(from) < LOAD_STEPS ==> load.error(
            step_at(load.failure_from(from)),
        ) is Some,
        forall|place: int|
            from <= place < load.failure_from(from) ==> load.error(
                #[trigger] step_at(place),
            ) is None,
    decreases LOAD_STEPS - from,
{
    if from < LOAD_STEPS && load.error(step_at(from)) is None {
        lemma_no_failure_before(load, from + 1);
    }
}

/// The inputs of one pointer.
pub struct OpenXrPointer {
    source: OpenXrHandSource,
}

impl View for OpenXrPointer {
    type V = SourceView;

    closed spec fn view(&self) -> SourceView {
        self.source@
    }
}

impl OpenXrPointer {
    /// A pointer that is driven by these actions.
    pub fn new(source: OpenXrHandSource) -> (pointer: Self)
        ensures
            pointer@ == source@,
    {
        OpenXrPointer { source }
    }

    /// The actions.
    pub fn source(&self) -> (source: &OpenXrHandSource)
        ensures
            source@ == self@,
    {
        &self.source
    }

    /// Performs one step of a load.
    fn perform(
        &mut self,
        step: LoadStep,
        pointer: &mut Pointer,
        reads: &HandReads,
        sensitivity: ClickSensitivity,
        now: Moment,
    ) -> (done: Result<(), ReadError>)
        requires
            now.nanos - RESET_NANOS >= i64::MIN,
        ensures
            final(self)@.pose == old(self)@.pose,
            final(self)@.scroll == old(self)@.scroll,
            final(self)@.haptics == old(self)@.haptics,
            forall|slot: ClickSlot|
                step != LoadStep::Slot(slot) ==> #[trigger] final(self)@.of(slot) == old(self)@.of(
                    slot,
                ),
            forall|slot: ClickSlot|
                step != LoadStep::Slot(slot) || done is Err ==> #[trigger] final(pointer).now.on(
                    slot,
                ) == old(pointer).now.on(slot),
            step matches LoadStep::Slot(slot) ==> {
                let floor = sensitivity.floor(old(pointer).before.on(slot));
                &&& final(self)@.of(slot) == old(self)@.of(slot).after(reads.of(slot), floor, now)
                &&& done == (match old(self)@.of(slot).answer(reads.of(slot), floor, now) {
                    Err(e) => Err::<(), ReadError>(e),
                    Ok(_) => Ok::<(), ReadError>(()),
                })
                &&& done is Ok ==> final(pointer).now.on(slot) == (old(self)@.of(slot).answer(
                    reads.of(slot),
                    floor,
                    now,
                ) == Ok::<bool, ReadError>(true))
            },
            step == LoadStep::Scroll ==> done == (match reads.scroll {
                Err(e) => Err::<(), ReadError>(e),
                Ok(_) => Ok::<(), ReadError>(()),
            }),
            final(pointer).now.scroll_x == (if step == LoadStep::Scroll && done is Ok {
                reads.scroll->Ok_0.x
            } else {
                old(pointer).now.scroll_x
            }),
            final(pointer).now.scroll_y == (if step == LoadStep::Scroll && done is Ok {
                reads.scroll->Ok_0.y
            } else {
                old(pointer).now.scroll_y
            }),
            *final(pointer) == (Pointer { now: final(pointer).now, ..*old(pointer) }),
    {
        match step {
            LoadStep::Slot(slot) => {
                let before: bool = pointer.before.is_on(slot);
                let slot_reads: ClickReads = reads.reads_of(slot);
                match self.source.slot_state(slot, before, &slot_reads, sensitivity, now) {
                    Err(e) => Err(e),
                    Ok(answer) => {
                        pointer.now.switch(slot, answer);
                        Ok(())
                    },
                }
            },
            LoadStep::Scroll => match reads.scroll {
                Err(e) => Err(e),
                Ok(scroll) => {
                    pointer.now.scroll_x = scroll.x;
                    pointer.now.scroll_y = scroll.y;
                    Ok(())
                },
            },
        }
    }

    /// Loads the frame's actions into the pointer, one after the other. The first that
    /// could not be read ends it, and what was loaded before stays.
    pub fn pointer_load_actions(
        &mut self,
        pointer: &mut Pointer,
        reads: &HandReads,
        sensitivity: ClickSensitivity,
        now: Moment,
    ) -> (done: Result<(), ReadError>)
        requires
            now.nanos - RESET_NANOS >= i64::MIN,
        ensures
            ({
                let load = ActionLoad {
                    source: old(self)@,
                    pointer: *old(pointer),
                    reads: *reads,
                    sensitivity,
                    now,
                };
                &&& final(self)@ == load.source_after()
                &&& *final(pointer) == load.pointer_after()
                &&& done == load.result()
            }),
            old(self)@.well_formed() ==> final(self)@.well_formed(),
    {
        let ghost load = ActionLoad {
            source: self@,
            pointer: *pointer,
            reads: *reads,
            sensitivity,
            now,
        };
        proof {
            if self@.well_formed() {
                source_stays_well_formed(load);
            }
        }
        let mut place: usize = 0;
        while place < LOAD_STEPS
            invariant
                place <= LOAD_STEPS,
                now.nanos - RESET_NANOS >= i64::MIN,
                load.reads == *reads,
                load.sensitivity == sensitivity,
                load.now == now,
                load.source == old(self)@,
                load.pointer == *old(pointer),
                partly_loaded(load, place as int, self@, *pointer),
            decreases LOAD_STEPS - place,
        {
            let step: LoadStep = load_step(place);
            let ghost source_before = self@;
            let ghost pointer_before = *pointer;
            let done: Result<(), ReadError> = self.perform(step, pointer, reads, sensitivity, now);
            proof {
                lemma_performed(
                    load,
                    place as int,
                    source_before,
                    pointer_before,
                    self@,
                    *pointer,
                    done,
                );
            }
            if let Err(e) = done {
                return Err(e);
            }
            place += 1;
        }
        proof {
            reveal(ActionLoad::result);
            lemma_agrees(load, self@, *pointer);
        }
        Ok(())
    }

    /// Moves a pointer to where its space was located.
    pub fn pointer_load_pose(
        pointer: &mut Pointer,
        read: &Result<PoseRead, ReadError>,
    ) -> (done: Result<(), ReadError>)
        ensures
            *final(pointer) == old(pointer).posed(*read),
            done == (match *read {
                Err(e) => Err::<(), ReadError>(e),
                Ok(_) => Ok::<(), ReadError>(()),
            }),
    {
        match read {
            Err(e) => Err(*e),
            Ok(location) => {
                if flags_contain(location.location_flags, ORIENTATION_VALID) {
                    pointer.raw_pose = location.located.raw_pose;
                    pointer.pose = location.located.pose;
                    pointer.is_tracked = true;
                } else {
                    pointer.is_tracked = false;
                }
                Ok(())
            },
        }
    }

    /// Drives a pointer by a hand for one frame.
    pub fn update(
        &mut self,
        pointer: &mut Pointer,
        reads: &PointerReads,
        sensitivity: ClickSensitivity,
        now: Moment,
    ) -> (done: Result<(), ReadError>)
        requires
            now.nanos - RESET_NANOS >= i64::MIN,
        ensures
            hand_updated(old(self)@, *old(pointer), *reads, sensitivity, now) == (PointerOutcome {
                source: final(self)@,
                pointer: *final(pointer),
                result: done,
            }),
    {
        pointer.interaction_enabled = true;
        pointer.handsfree = false;
        if let Err(e) = Self::pointer_load_pose(pointer, &reads.pose) {
            return Err(e);
        }
        self.pointer_load_actions(pointer, &reads.actions, sensitivity, now)
    }

    /// Drives a pointer without hands for one frame.
    pub fn update_handsfree(
        &mut self,
        pointer: &mut Pointer,
        mode: HandsfreePointer,
        hmd_valid: bool,
        reads: &HandsfreeReads,
        sensitivity: ClickSensitivity,
        now: Moment,
    ) -> (done: Result<(), ReadError>)
        requires
            now.nanos - RESET_NANOS >= i64::MIN,
        ensures
            handsfree_updated(
                old(self)@,
                *old(pointer),
                mode,
                hmd_valid,
                *reads,
                sensitivity,
                now,
            ) == (PointerOutcome { source: final(self)@, pointer: *final(pointer), result: done }),
    {
        match mode {
            HandsfreePointer::Off => return Ok(()),
            HandsfreePointer::Hmd | HandsfreePointer::HmdOnly => {
                pointer.is_tracked = hmd_valid;
                pointer.raw_pose = reads.hmd.raw_pose;
                pointer.pose = reads.hmd.pose;
            },
            HandsfreePointer::EyeTracking | HandsfreePointer::EyeTrackingOnly => {
                if let Err(e) = Self::pointer_load_pose(pointer, &reads.eye) {
                    return Err(e);
                }
            },
        }
        pointer.interaction_enabled = true;
        pointer.handsfree = pointer.is_tracked;
        if mode == HandsfreePointer::HmdOnly || mode == HandsfreePointer::EyeTrackingOnly {
            return Ok(());
        }
        self.pointer_load_actions(pointer, &reads.actions, sensitivity, now)
    }
}

} // verus!
