//! The protocol builder: turns decoded frames into the capability-specific
//! renderable handles that the render loop draws, applying the fixed
//! pre-scale on the way. The handles themselves come from the
//! `ratatui_image` crate and are opaque here.

use vstd::prelude::*;

use crate::frame::Frame;
use crate::scale::Still;
use crate::scale::ZOOM;
use crate::scale::image_dims;

verus! {

#[verifier::external_type_specification]
#[verifier::external_body]
pub struct ExPicker(ratatui_image::picker::Picker);

#[verifier::external_type_specification]
#[verifier::external_body]
pub struct ExStatefulProtocol(ratatui_image::protocol::StatefulProtocol);

/// Relies on `ratatui_image::picker::Picker::new_resize_protocol`: wraps an
/// image into a stateful renderable handle for the picker's capability; the
/// handle does its own fit-to-area resize lazily, at first render.
#[verifier::external_body]
fn make_protocol(
    picker: &ratatui_image::picker::Picker,
    img: image::DynamicImage,
) -> (r: ratatui_image::protocol::StatefulProtocol) {
    picker.new_resize_protocol(img)
}

/// One renderable handle, with the dimensions of the pre-scaled image it was
/// built from held as plain values beside it.
pub struct Renderable {
    pub proto: ratatui_image::protocol::StatefulProtocol,
    pub width: u32,
    pub height: u32,
}

/// The width a frame's pre-scaled image ends up with: `ZOOM` times the
/// frame's own width, except that a frame with a zero dimension is not
/// resampled at all.
pub open spec fn prescaled(dim: u32, w: u32, h: u32) -> int {
    if w >= 1 && h >= 1 {
        ZOOM * dim
    } else {
        dim as int
    }
}

/// Builds one renderable handle per decoded frame, in order, pre-scaling
/// each frame by the fixed `ZOOM` factor first.
pub fn build_renderables(frames: Vec<Frame>, picker: &ratatui_image::picker::Picker) -> (r: Vec<
    Renderable,
>)
    requires
        forall|i: int| 0 <= i < frames@.len() ==> #[trigger] frames@[i].wf(),
    ensures
        r@.len() == frames@.len(),
        forall|i: int|
            0 <= i < r@.len() ==> {
                &&& #[trigger] r@[i].width == prescaled(
                    frames@[i].width,
                    frames@[i].width,
                    frames@[i].height,
                )
                &&& r@[i].height == prescaled(
                    frames@[i].height,
                    frames@[i].width,
                    frames@[i].height,
                )
            },
{
    let mut out: Vec<Renderable> = Vec::new();
    let mut j: usize = 0;
    while j < frames.len()
        invariant
            j <= frames@.len(),
            out@.len() == j,
            forall|i: int| 0 <= i < frames@.len() ==> #[trigger] frames@[i].wf(),
            forall|i: int|
                0 <= i < out@.len() ==> {
                    &&& #[trigger] out@[i].width == prescaled(
                        frames@[i].width,
                        frames@[i].width,
                        frames@[i].height,
                    )
                    &&& out@[i].height == prescaled(
                        frames@[i].height,
                        frames@[i].width,
                        frames@[i].height,
                    )
                },
        decreases frames@.len() - j,
    {
        assert(frames@[j as int].wf());
        let base = Still::from_frame(&frames[j]);
        let still = base.prescale(ZOOM);
        let (img, w, h) = still.into_image();
        let proto = make_protocol(picker, img);
        out.push(Renderable { proto, width: w, height: h });
        j = j + 1;
    }
    out
}

} // verus!
