use vstd::prelude::*;

use crate::feature::Feature;
use crate::history::{
    HistoryShape, ScreenshotAction, ScreenshotState, SelectionAnchor, WindowPrevState,
};
use crate::hotkeys::HotkeyAction;
use crate::mode::AppMode;
use crate::text::{chars_of, range_eq};

verus! {

/// Temporary OCR images older than this (one day, in nanoseconds) are removed.
pub const OCR_TEMP_MAX_AGE_NANOS: u128 = 86_400_000_000_000;

/// The screenshot feature: the session state and whether a session is running.
pub struct ScreenshotFeature<S, R, P> {
    pub state: ScreenshotState<S, R, P>,
    pub is_active: bool,
}

/// A session state as a fresh one, opened from a window in `prev`.
pub open spec fn is_fresh_session<S: HistoryShape, R: Copy + SelectionAnchor<P>, P>(
    st: ScreenshotState<S, R, P>,
    prev: WindowPrevState,
) -> bool {
    &&& st.model().shapes.len() == 0
    &&& st.model().selection is None
    &&& st.model().history.len() == 0
    &&& st.model().redo.len() == 0
    &&& st.select.drag_start is None
    &&& st.select.toolbar_pos is None
    &&& st.select.hovered_window is None
    &&& !st.runtime.window_configured
    &&& st.runtime.prev_window_state == prev
}

/// What a frame of the screenshot mode asks of the application before drawing.
#[derive(PartialEq, Eq, Clone, Copy, Debug, Structural)]
pub enum FrameRequest {
    /// Nothing to do in this frame.
    Nothing,
    /// Run the capture stage and configure the window for the session.
    PrepareFrame,
}

impl<S: HistoryShape, R: Copy + SelectionAnchor<P>, P> ScreenshotFeature<S, R, P> {
    /// No session running, and an empty session state.
    pub fn new() -> (r: Self)
        ensures
            !r.is_active,
            is_fresh_session(r.state, WindowPrevState::Normal),
    {
        Self { state: ScreenshotState::new(WindowPrevState::Normal), is_active: false }
    }

    /// Starts a session from a window in `prev_state`, with a fresh state.
    pub fn enter_screenshot_mode(&mut self, prev_state: WindowPrevState)
        ensures
            final(self).is_active,
            is_fresh_session(final(self).state, prev_state),
    {
        self.state = ScreenshotState::new(prev_state);
        self.is_active = true;
    }

    /// The part of a frame before the capture stage. In the screenshot mode, a session is
    /// started from a normal window if none runs; `PrepareFrame` is asked for exactly when a
    /// session runs in the screenshot mode. In another mode nothing changes.
    pub fn logic(&mut self, mode: &mut AppMode) -> (r: FrameRequest)
        ensures
            *old(mode) != AppMode::Screenshot ==> {
                &&& r == FrameRequest::Nothing
                &&& *final(mode) == *old(mode)
                &&& final(self).is_active == old(self).is_active
                &&& final(self).state == old(self).state
            },
            *old(mode) == AppMode::Screenshot ==> {
                &&& r == FrameRequest::PrepareFrame
                &&& *final(mode) == AppMode::Screenshot
                &&& final(self).is_active
                &&& !old(self).is_active ==> is_fresh_session(
                    final(self).state,
                    WindowPrevState::Normal,
                )
                &&& old(self).is_active ==> final(self).state == old(self).state
            },
    {
        if *mode == AppMode::Screenshot && !self.is_active {
            self.enter_screenshot_mode(WindowPrevState::Normal);
        }
        if *mode != AppMode::Screenshot {
            return FrameRequest::Nothing;
        }
        if !self.is_active {
            *mode = AppMode::Viewer;
            return FrameRequest::Nothing;
        }
        FrameRequest::PrepareFrame
    }

    /// The part of a frame after the capture stage: `capture_exited` says the capture was
    /// abandoned, which ends the session; `prepared` says the window is ready to draw. An
    /// ended session that is not ready to draw sends the application back to the viewer.
    pub fn after_prepare(&mut self, prepared: bool, capture_exited: bool, mode: &mut AppMode)
        ensures
            final(self).is_active == (old(self).is_active && !capture_exited),
            final(self).state == old(self).state,
            *final(mode) == (if !prepared && !final(self).is_active {
                AppMode::Viewer
            } else {
                *old(mode)
            }),
    {
        if capture_exited {
            self.is_active = false;
        }
        if !prepared && !self.is_active {
            *mode = AppMode::Viewer;
        }
    }

    /// Whether this frame draws the session: in the screenshot mode, with a session running,
    /// the screens captured and the window configured.
    pub fn should_draw(&self, mode: AppMode, captures_ready: bool) -> (r: bool)
        ensures
            r == (mode == AppMode::Screenshot && self.is_active && captures_ready
                && self.state.runtime.window_configured),
    {
        mode == AppMode::Screenshot && self.is_active && captures_ready
            && self.state.runtime.window_configured
    }

    /// After drawing: any action but `NoAction` ends the session and is to be carried out
    /// (the result says so); an ended session sends the application back to the viewer.
    pub fn finish_frame(&mut self, action: ScreenshotAction, mode: &mut AppMode) -> (r: bool)
        ensures
            r == (action != ScreenshotAction::NoAction),
            final(self).is_active == (old(self).is_active && !r),
            final(self).state == old(self).state,
            *final(mode) == (if final(self).is_active {
                *old(mode)
            } else {
                AppMode::Viewer
            }),
    {
        let finalize = action != ScreenshotAction::NoAction;
        if finalize {
            self.is_active = false;
        }
        if !self.is_active {
            *mode = AppMode::Viewer;
        }
        finalize
    }
}

impl<S: HistoryShape, R: Copy + SelectionAnchor<P>, P> Feature for ScreenshotFeature<S, R, P> {
    /// A screenshot hotkey starts a session from the window state it names and switches to
    /// the screenshot mode.
    fn handle_hotkey(&mut self, action: HotkeyAction) -> (r: Option<AppMode>)
        ensures
            r == Some(AppMode::Screenshot),
            final(self).is_active,
            action matches HotkeyAction::SetScreenshotMode { prev_state } ==> is_fresh_session(
                final(self).state,
                prev_state,
            ),
    {
        match action {
            HotkeyAction::SetScreenshotMode { prev_state } => {
                self.enter_screenshot_mode(prev_state);
                Some(AppMode::Screenshot)
            },
        }
    }
}

/// Whether a file of the temporary directory is an OCR image to remove: its name starts
/// with `ocr_temp_` and it is more than a day old.
pub open spec fn is_expired_ocr_temp_spec(file_name: Seq<char>, age_nanos: u128) -> bool {
    &&& "ocr_temp_"@.is_prefix_of(file_name)
    &&& age_nanos > OCR_TEMP_MAX_AGE_NANOS
}

/// Whether a file of the temporary directory, of this name and age, is an expired OCR image.
pub fn is_expired_ocr_temp(file_name: &str, age_nanos: u128) -> (r: bool)
    ensures
        r == is_expired_ocr_temp_spec(file_name@, age_nanos),
{
    let prefix = chars_of("ocr_temp_");
    let name = chars_of(file_name);
    let has_prefix = prefix.len() <= name.len() && range_eq(&name, 0, prefix.len(), &prefix);
    has_prefix && age_nanos > OCR_TEMP_MAX_AGE_NANOS
}

/// The keys of one frame that the screenshot canvas reads.
#[derive(PartialEq, Eq, Clone, Copy, Debug, Structural)]
pub struct ScreenshotKeys {
    pub ctrl: bool,
    pub shift: bool,
    /// `Z` was pressed in this frame.
    pub z: bool,
    /// `Y` was pressed in this frame.
    pub y: bool,
    /// Enter was pressed in this frame.
    pub enter: bool,
    /// Escape was pressed in this frame.
    pub escape: bool,
}

/// What the keys of a frame ask of a screenshot session.
#[derive(PartialEq, Eq, Clone, Copy, Debug, Structural)]
pub struct KeyDecision {
    /// Undo the last edit (Ctrl+Z).
    pub undo: bool,
    /// Redo the last undone edit (Ctrl+Y or Ctrl+Shift+Z), after any undo.
    pub redo: bool,
    /// The action of the frame.
    pub action: ScreenshotAction,
}

/// The decision for the keys of a frame, given the action the canvas and toolbar asked for:
/// Ctrl+Z undoes, Ctrl+Y and Ctrl+Shift+Z redo; Enter copies the selection to the clipboard
/// when it is positive and no text is being typed; Escape closes the session, whatever else
/// was asked.
pub fn screenshot_key_decision(
    keys: ScreenshotKeys,
    action: ScreenshotAction,
    positive_selection: bool,
    typing_text: bool,
) -> (r: KeyDecision)
    ensures
        r.undo == (keys.ctrl && !keys.shift && keys.z),
        r.redo == (keys.ctrl && (keys.y || (keys.shift && keys.z))),
        r.action == if keys.escape {
            ScreenshotAction::Close
        } else if keys.enter && positive_selection && !typing_text {
            ScreenshotAction::SaveToClipboard
        } else {
            action
        },
{
    let mut result = action;
    if keys.enter && positive_selection && !typing_text {
        result = ScreenshotAction::SaveToClipboard;
    }
    if keys.escape {
        result = ScreenshotAction::Close;
    }
    KeyDecision {
        undo: keys.ctrl && !keys.shift && keys.z,
        redo: keys.ctrl && (keys.y || (keys.shift && keys.z)),
        action: result,
    }
}

} // verus!
