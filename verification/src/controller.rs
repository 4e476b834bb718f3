//! The visibility controller: from one observation to exactly one action.

use vstd::prelude::*;
use crate::action::commands_of;
use crate::action::Action;
use crate::action::Command;
use crate::hotkey::Hotkey;
use crate::hotkey::HotkeyEvent;
use crate::hotkey::KeyState;
use crate::window::WindowState;

verus! {

/// The action for an observation. The rows are tried in order and the first
/// that applies wins; a failed query on either flag falls through to the last.
pub open spec fn chosen_action(window: WindowState) -> Action {
    if !window.exists {
        Action::Create
    } else if window.shown() && window.iconified() {
        Action::Restore
    } else if window.shown() && window.upright() {
        Action::Minimize
    } else {
        Action::Reveal
    }
}

/// Chooses the action for one observation of the window.
pub fn decide(window: &WindowState) -> (action: Action)
    ensures
        action == chosen_action(*window),
{
    if !window.exists {
        return Action::Create;
    }
    match (window.visible, window.minimized) {
        (Ok(true), Ok(true)) => Action::Restore,
        (Ok(true), Ok(false)) => Action::Minimize,
        _ => Action::Reveal,
    }
}

/// Routes hotkey notifications: it knows the one hotkey that was registered
/// and answers only to presses of it.
#[derive(Clone, Copy, Debug, PartialEq, Eq, Structural)]
pub struct Controller {
    pub hotkey: Hotkey,
}

impl Controller {
    /// A controller that answers to `hotkey` and to nothing else.
    pub fn new(hotkey: Hotkey) -> (c: Controller)
        ensures
            c.hotkey == hotkey,
    {
        Controller { hotkey }
    }

    /// Whether `event` calls for an action at all: it must be a press, and of
    /// the registered hotkey.
    pub open spec fn accepts_event(self, event: HotkeyEvent) -> bool {
        event.hotkey == self.hotkey && event.state == KeyState::Pressed
    }

    /// What `event` leads to when the window is observed as `window`: the
    /// table's action for an accepted press, and nothing for any other event.
    pub open spec fn response(self, event: HotkeyEvent, window: WindowState) -> Option<Action> {
        if self.accepts_event(event) {
            Some(chosen_action(window))
        } else {
            None
        }
    }

    /// The window-manager commands that `event` leads to, in order.
    pub open spec fn calls(self, event: HotkeyEvent, window: WindowState) -> Seq<Command> {
        match self.response(event, window) {
            Some(action) => commands_of(action),
            None => Seq::empty(),
        }
    }

    /// Tells whether the host should observe the window and act on `event`.
    /// A release, or any hotkey but the registered one, is turned away here,
    /// before the window manager is asked anything.
    pub fn accepts(&self, event: &HotkeyEvent) -> (r: bool)
        ensures
            r == self.accepts_event(*event),
            event.state == KeyState::Released ==> !r,
            event.hotkey != self.hotkey ==> !r,
    {
        self.hotkey.same_as(&event.hotkey) && event.is_press()
    }

    /// Handles one notification given the observation taken for it.
    pub fn respond(&self, event: &HotkeyEvent, window: &WindowState) -> (r: Option<Action>)
        ensures
            r == self.response(*event, *window),
            event.state == KeyState::Released ==> r is None,
            event.hotkey != self.hotkey ==> r is None,
            event.state == KeyState::Pressed && event.hotkey == self.hotkey ==> r == Some(
                chosen_action(*window),
            ),
    {
        if self.accepts(event) {
            Some(decide(window))
        } else {
            None
        }
    }
}

} // verus!
