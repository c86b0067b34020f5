//! The frame model: one fully decoded image of the animation.

use vstd::prelude::*;

verus! {

/// One fully decoded animation frame: RGBA pixel bytes in row-major order.
///
/// GIF dimensions are 16-bit in the container, so a well-formed frame never
/// exceeds `0xFFFF` on either axis.
#[derive(Clone, Debug)]
pub struct Frame {
    pub width: u32,
    pub height: u32,
    pub pixels: Vec<u8>,
}

impl Frame {
    /// A frame is well formed when its pixel buffer holds exactly four bytes
    /// per pixel and its dimensions fit the container's 16-bit fields.
    pub open spec fn wf(self) -> bool {
        &&& self.pixels@.len() == self.width * self.height * 4
        &&& self.width <= 0xFFFF
        &&& self.height <= 0xFFFF
    }

    /// Builds a frame from container-sized dimensions and a pixel buffer,
    /// rejecting a buffer whose length is not `width * height * 4`.
    pub fn new(width: u16, height: u16, pixels: Vec<u8>) -> (r: Option<Frame>)
        ensures
            match r {
                Some(f) => {
                    &&& f.wf()
                    &&& f.width == width
                    &&& f.height == height
                    &&& f.pixels@ == pixels@
                },
                None => pixels@.len() != width * height * 4,
            },
    {
        assert((width as int) * (height as int) * 4 <= 0xFFFF * 0xFFFF * 4) by (nonlinear_arith)
            requires
                width <= 0xFFFF,
                height <= 0xFFFF,
        ;
        let expected: u64 = (width as u64) * (height as u64) * 4;
        if pixels.len() as u64 == expected {
            Some(Frame { width: width as u32, height: height as u32, pixels })
        } else {
            None
        }
    }
}

} // verus!
