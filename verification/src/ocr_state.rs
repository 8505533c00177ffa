use vstd::prelude::*;

use std::sync::mpsc::Receiver;

verus! {

/// The receiving end of a channel, carried through unchanged.
#[verifier::external_type_specification]
#[verifier::external_body]
#[verifier::reject_recursive_types(T)]
pub struct ExReceiver<T>(Receiver<T>);

/// The state of the text recognition panel.
#[derive(Default)]
pub struct OcrState {
    pub is_panel_open: bool,
    pub is_processing: bool,
    pub text: Option<String>,
    /// Where the recognized text, or the reason it failed, arrives.
    pub receiver: Option<Receiver<Result<String, String>>>,
}

} // verus!
