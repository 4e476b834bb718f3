//! Hotkey identity and the notifications a host delivers for it.

use vstd::prelude::*;

verus! {

/// Whether the hotkey went down or came back up.
#[derive(Clone, Copy, Debug, PartialEq, Eq, Structural)]
pub enum KeyState {
    Pressed,
    Released,
}

/// A key combination: a set of modifier bits and one key code.
///
/// Two hotkeys are the same combination exactly when both numbers agree.
#[derive(Clone, Copy, Debug, PartialEq, Eq, Structural)]
pub struct Hotkey {
    pub modifiers: u32,
    pub key: u32,
}

/// One notification from the host: which hotkey fired, and how.
#[derive(Clone, Copy, Debug, PartialEq, Eq, Structural)]
pub struct HotkeyEvent {
    pub hotkey: Hotkey,
    pub state: KeyState,
}

impl Hotkey {
    /// The combination of `modifiers` and `key`.
    pub fn new(modifiers: u32, key: u32) -> (h: Hotkey)
        ensures
            h == (Hotkey { modifiers, key }),
    {
        Hotkey { modifiers, key }
    }

    /// Identity comparison: true exactly when `other` is the same combination.
    pub fn same_as(&self, other: &Hotkey) -> (r: bool)
        ensures
            r == (*self == *other),
            r == (self.modifiers == other.modifiers && self.key == other.key),
    {
        self.modifiers == other.modifiers && self.key == other.key
    }
}

impl HotkeyEvent {
    /// A key-down notification for `hotkey`.
    pub fn pressed(hotkey: Hotkey) -> (e: HotkeyEvent)
        ensures
            e == (HotkeyEvent { hotkey, state: KeyState::Pressed }),
    {
        HotkeyEvent { hotkey, state: KeyState::Pressed }
    }

    /// A key-up notification for `hotkey`.
    pub fn released(hotkey: Hotkey) -> (e: HotkeyEvent)
        ensures
            e == (HotkeyEvent { hotkey, state: KeyState::Released }),
    {
        HotkeyEvent { hotkey, state: KeyState::Released }
    }

    /// True exactly for a key-down notification.
    pub fn is_press(&self) -> (r: bool)
        ensures
            r == (self.state == KeyState::Pressed),
    {
        match self.state {
            KeyState::Pressed => true,
            KeyState::Released => false,
        }
    }
}

} // verus!
