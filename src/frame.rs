use vstd::prelude::*;

use crate::decimal::Decimal;
use crate::input::{after_drag, after_zoom, drag_applies, zoom_applies, ScrollEvent, ZoomKeys};
use crate::orbit::{orbit, Sample};
use crate::view::{aspect_of, pixel_size_of, RenderParams, ViewState};

verus! {

/// The input gathered since the last tick.
#[derive(Clone, Debug)]
pub struct TickInput {
    /// Cursor position in pixels, if the cursor is over the window.
    pub cursor: Option<(Decimal, Decimal)>,
    pub scroll: Vec<ScrollEvent>,
    pub keys: ZoomKeys,
    /// Whether the drag button is held.
    pub drag_held: bool,
    /// Pointer movements in pixels.
    pub drag: Vec<(Decimal, Decimal)>,
}

/// What a tick hands to the renderer: the scalars, and a new reference
/// orbit when the centre moved (otherwise the previous orbit stays valid).
#[derive(Clone, Debug)]
pub struct Frame {
    pub params: RenderParams,
    pub orbit: Option<Vec<Sample>>,
}

impl ViewState {
    /// One tick: zoom, then pan, then the orbit (only when the centre was
    /// moved), then the published scalars.
    pub fn update(&mut self, input: &TickInput) -> (r: Frame)
        requires
            old(self).wf(),
        ensures
            final(self).wf(),
            *final(self) == after_drag(
                after_zoom(*old(self), input.cursor, input.scroll@, input.keys),
                input.drag_held,
                input.drag@,
            ),
            r.params == (RenderParams {
                num_iterations: final(self).num_iterations,
                range: final(self).range,
                aspect_ratio: aspect_of(*final(self)),
                pixel_size: pixel_size_of(*final(self)),
            }),
            r.orbit is Some <==> (zoom_applies(*old(self), input.cursor, input.scroll@, input.keys)
                || drag_applies(
                after_zoom(*old(self), input.cursor, input.scroll@, input.keys),
                input.drag_held,
                input.drag@,
            )),
            r.orbit is Some ==> r.orbit->0@ == orbit(
                final(self).center_re,
                final(self).center_im,
                final(self).num_iterations as nat,
            ),
    {
        let zoomed = self.zoom_tick(input.cursor, &input.scroll, input.keys);
        let dragged = self.drag_tick(input.drag_held, &input.drag);
        let orbit = if zoomed || dragged {
            Some(self.orbit())
        } else {
            None
        };
        Frame { params: self.publish(), orbit }
    }
}

} // verus!
