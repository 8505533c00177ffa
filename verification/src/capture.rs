use vstd::prelude::*;

use crate::history::{ScreenshotAction, WindowPrevState};

verus! {

/// How to restore the window when a screenshot session ends: hidden when the settings ask
/// screenshots to hide the main window, normal after text recognition (whose panel must be
/// seen), and as it was before the session otherwise.
pub fn resolve_effective_prev_state(
    screenshot_hides_main_window: bool,
    action: ScreenshotAction,
    prev_window_state: WindowPrevState,
) -> (r: WindowPrevState)
    ensures
        r == if screenshot_hides_main_window {
            WindowPrevState::Tray
        } else if action == ScreenshotAction::Ocr {
            WindowPrevState::Normal
        } else {
            prev_window_state
        },
{
    if screenshot_hides_main_window {
        return WindowPrevState::Tray;
    }
    if action == ScreenshotAction::Ocr {
        WindowPrevState::Normal
    } else {
        prev_window_state
    }
}

} // verus!
