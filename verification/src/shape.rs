use vstd::prelude::*;

use std::sync::Arc;

use crate::history::{HistoryShape, ScreenshotTool};

verus! {

/// Another handle to the same shared value (`Clone::clone` of `std::sync::Arc`), which by
/// its documentation points to the same allocation, so the value is the same.
#[verifier::external_body]
fn share<T: ?Sized>(a: &Arc<T>) -> (r: Arc<T>)
    ensures
        r == *a,
{
    Arc::clone(a)
}

/// A shape drawn on a screenshot: its kind, end points, color, stroke width, text and pen
/// points, with the laid-out text and the mosaic texture kept between frames as caches.
/// Points, colors and widths are of the drawing layer's types.
pub struct DrawnShape<P, K, W, T: ?Sized, G, M> {
    pub tool: ScreenshotTool,
    pub start: P,
    pub end: P,
    pub color: K,
    pub stroke_width: W,
    pub text: Option<Arc<T>>,
    pub points: Option<Arc<Vec<P>>>,
    pub cached_galley: Option<G>,
    pub cached_mosaic: Option<M>,
}

impl<P: Copy, K: Copy, W: Copy, T: ?Sized, G, M> HistoryShape for DrawnShape<P, K, W, T, G, M> {
    /// The shape without its caches.
    open spec fn kept(&self) -> Self {
        DrawnShape { cached_galley: None, cached_mosaic: None, ..*self }
    }

    proof fn lemma_kept_idempotent(&self) {
    }

    /// A copy that shares the text and the pen points and drops both caches.
    fn clone_for_history(&self) -> (r: Self)
        ensures
            r == self.kept(),
    {
        let text = match &self.text {
            Some(t) => Some(share(t)),
            None => None,
        };
        let points = match &self.points {
            Some(p) => Some(share(p)),
            None => None,
        };
        DrawnShape {
            tool: self.tool,
            start: self.start,
            end: self.end,
            color: self.color,
            stroke_width: self.stroke_width,
            text,
            points,
            cached_galley: None,
            cached_mosaic: None,
        }
    }
}

} // verus!
