use vstd::prelude::*;

verus! {

/// The top-level mode of the application.
#[derive(Clone, Copy, PartialEq, Eq, Debug, Structural)]
pub enum AppMode {
    /// The image viewer.
    Viewer,
    /// The screenshot tool.
    Screenshot,
}

/// Which side panel the viewer shows.
#[derive(Clone, Copy, PartialEq, Eq, Debug, Structural)]
pub enum PanelMode {
    /// No side panel.
    Hidden,
    /// The image properties panel.
    Properties,
}

/// Consumes a request, made by a click on the tray icon, to show the window again: a
/// pending request sends the application back to the viewer.
pub fn take_tray_restore(requested: &mut bool, mode: &mut AppMode)
    ensures
        !*final(requested),
        *final(mode) == (if *old(requested) {
            AppMode::Viewer
        } else {
            *old(mode)
        }),
{
    if *requested {
        *requested = false;
        *mode = AppMode::Viewer;
    }
}

} // verus!
