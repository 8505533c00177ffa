use vstd::prelude::*;

use std::sync::Arc;
use std::sync::Mutex;

verus! {

/// A lock shared between threads, carried through unchanged.
#[verifier::external_type_specification]
#[verifier::external_body]
#[verifier::reject_recursive_types(T)]
pub struct ExMutex<T: ?Sized>(Mutex<T>);

/// A new lock holding `value` (`std::sync::Mutex::new`). The lock is opaque here, so
/// nothing is stated of it.
#[verifier::external_body]
fn new_flag(value: bool) -> (r: Mutex<bool>) {
    Mutex::new(value)
}

/// Window flags shared between the user interface, the tray and the hotkey thread.
pub struct WindowState {
    /// Whether the window is shown.
    pub visible: Arc<Mutex<bool>>,
    /// Whether closing the window quits the application.
    pub allow_quit: Arc<Mutex<bool>>,
    /// Whether the window is minimized.
    pub minimized: Arc<Mutex<bool>>,
    /// The native window handle.
    pub hwnd_usize: usize,
}

impl WindowState {
    /// Window flags sharing `visible` and `allow_quit`, with a fresh minimized flag.
    pub fn new(visible: Arc<Mutex<bool>>, allow_quit: Arc<Mutex<bool>>, hwnd_usize: usize) -> (r:
        Arc<Self>)
        ensures
            r.visible == visible,
            r.allow_quit == allow_quit,
            r.hwnd_usize == hwnd_usize,
    {
        let minimized = Arc::new(new_flag(false));
        Arc::new(Self { visible, allow_quit, minimized, hwnd_usize })
    }
}

} // verus!
