//! Matching pumped window messages against a registered global hotkey.
//! Registering the hotkey with the OS and pumping messages is the
//! surrounding program's work; the decision which messages fire a toggle
//! batch lives here.

use vstd::prelude::*;

verus! {

/// The window message id of a hotkey event (`WM_HOTKEY`).
pub const WM_HOTKEY: u32 = 0x0312;

/// A registered global hotkey, identified by its registration id.
#[derive(Clone, Copy, Debug, PartialEq, Eq, Structural)]
pub struct Hotkey(pub i32);

impl Hotkey {
    /// The hotkey with the id the registration call returned.
    pub fn with_id(id: i32) -> (h: Hotkey)
        ensures
            h.0 == id,
    {
        Hotkey(id)
    }

    /// The registration id.
    pub fn id(&self) -> (r: i32)
        ensures
            r == self.0,
    {
        self.0
    }

    /// Whether a pumped message is this hotkey's event: a `WM_HOTKEY`
    /// message whose parameter carries this hotkey's id.
    pub fn matches(&self, message: u32, w_param: usize) -> (b: bool)
        ensures
            b == (message == WM_HOTKEY && #[verifier::truncate] (w_param as i32) == self.0),
    {
        message == WM_HOTKEY && #[verifier::truncate] (w_param as i32) == self.0
    }
}

} // verus!
