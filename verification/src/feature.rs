use vstd::prelude::*;

use crate::hotkeys::HotkeyAction;
use crate::mode::AppMode;

verus! {

/// A part of the application that reacts to global hotkeys.
pub trait Feature {
    /// Handles a hotkey action; `Some` names the mode the application switches to.
    fn handle_hotkey(&mut self, action: HotkeyAction) -> Option<AppMode>;
}

} // verus!
