use vstd::prelude::*;

verus! {

/// What the single-screen screenshot overlay asks for.
#[derive(PartialEq, Eq, Clone, Copy, Debug, Structural)]
pub enum ScreenshotAction {
    /// The overlay stays open.
    NoAction,
    Close,
    SaveAndClose,
}

} // verus!
