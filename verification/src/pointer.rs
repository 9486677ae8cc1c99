//! The pointers that the inputs drive.

use crate::click::ReadError;
use crate::float_bits::FloatBits;
use crate::location::{Pose, PoseRead};
use crate::names::ClickSlot;
use vstd::prelude::*;

verus! {

/// What a pointer is doing.
#[derive(Clone, Copy, Debug, PartialEq, Eq, Structural)]
pub struct PointerState {
    pub click: bool,
    pub grab: bool,
    pub alt_click: bool,
    pub show_hide: bool,
    pub toggle_dashboard: bool,
    pub space_drag: bool,
    pub space_rotate: bool,
    pub space_reset: bool,
    pub click_modifier_right: bool,
    pub click_modifier_middle: bool,
    pub move_mouse: bool,
    pub scroll_x: FloatBits,
    pub scroll_y: FloatBits,
}

impl PointerState {
    /// Whether one of the click-like inputs is on.
    pub open spec fn on(self, slot: ClickSlot) -> bool {
        match slot {
            ClickSlot::Click => self.click,
            ClickSlot::Grab => self.grab,
            ClickSlot::AltClick => self.alt_click,
            ClickSlot::ShowHide => self.show_hide,
            ClickSlot::ToggleDashboard => self.toggle_dashboard,
            ClickSlot::SpaceDrag => self.space_drag,
            ClickSlot::SpaceRotate => self.space_rotate,
            ClickSlot::SpaceReset => self.space_reset,
            ClickSlot::ModifierRight => self.click_modifier_right,
            ClickSlot::ModifierMiddle => self.click_modifier_middle,
            ClickSlot::MoveMouse => self.move_mouse,
        }
    }

    /// Whether one of the click-like inputs is on.
    pub fn is_on(&self, slot: ClickSlot) -> (answer: bool)
        ensures
            answer == self.on(slot),
    {
        match slot {
            ClickSlot::Click => self.click,
            ClickSlot::Grab => self.grab,
            ClickSlot::AltClick => self.alt_click,
            ClickSlot::ShowHide => self.show_hide,
            ClickSlot::ToggleDashboard => self.toggle_dashboard,
            ClickSlot::SpaceDrag => self.space_drag,
            ClickSlot::SpaceRotate => self.space_rotate,
            ClickSlot::SpaceReset => self.space_reset,
            ClickSlot::ModifierRight => self.click_modifier_right,
            ClickSlot::ModifierMiddle => self.click_modifier_middle,
            ClickSlot::MoveMouse => self.move_mouse,
        }
    }

    /// Switches one of the click-like inputs and leaves all else alone.
    pub fn switch(&mut self, slot: ClickSlot, value: bool)
        ensures
            final(self).on(slot) == value,
            forall|other: ClickSlot|
                other != slot ==> #[trigger] final(self).on(other) == old(self).on(other),
            final(self).scroll_x == old(self).scroll_x,
            final(self).scroll_y == old(self).scroll_y,
    {
        match slot {
            ClickSlot::Click => { self.click = value; },
            ClickSlot::Grab => { self.grab = value; },
            ClickSlot::AltClick => { self.alt_click = value; },
            ClickSlot::ShowHide => { self.show_hide = value; },
            ClickSlot::ToggleDashboard => { self.toggle_dashboard = value; },
            ClickSlot::SpaceDrag => { self.space_drag = value; },
            ClickSlot::SpaceRotate => { self.space_rotate = value; },
            ClickSlot::SpaceReset => { self.space_reset = value; },
            ClickSlot::ModifierRight => { self.click_modifier_right = value; },
            ClickSlot::ModifierMiddle => { self.click_modifier_middle = value; },
            ClickSlot::MoveMouse => { self.move_mouse = value; },
        }
    }
}

/// A pointer: where it is, whether it may be used, and what it does in this frame and
/// did in the last one.
#[derive(Clone, Copy, Debug, PartialEq, Eq, Structural)]
pub struct Pointer {
    pub raw_pose: Pose,
    pub pose: Pose,
    pub is_tracked: bool,
    pub handsfree: bool,
    pub interaction_enabled: bool,
    pub now: PointerState,
    pub before: PointerState,
}

impl Pointer {
    /// The pointer after its space was located: without a valid orientation it is lost
    /// where it was; a failed read changes nothing.
    pub open spec fn posed(self, read: Result<PoseRead, ReadError>) -> Pointer {
        match read {
            Err(_) => self,
            Ok(location) => if location.oriented() {
                Pointer {
                    raw_pose: location.located.raw_pose,
                    pose: location.located.pose,
                    is_tracked: true,
                    ..self
                }
            } else {
                Pointer { is_tracked: false, ..self }
            },
        }
    }
}

} // verus!
