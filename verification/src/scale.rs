//! The fixed pre-scale step: each decoded frame becomes a true-color image
//! and is upscaled by a constant integer factor with nearest-neighbour
//! resampling, once, before playback. The pixel work is done by the `image`
//! crate; this module owns the dimension logic.

use vstd::prelude::*;

use crate::frame::Frame;

verus! {

/// The fixed linear upscale factor applied to every frame before playback.
pub const ZOOM: u32 = 2;

#[verifier::external_type_specification]
#[verifier::external_body]
pub struct ExDynamicImage(image::DynamicImage);

/// The dimensions, width then height, of a true-color image. An image is a
/// container of pixels; its dimensions are fixed at construction.
pub uninterp spec fn image_dims(img: image::DynamicImage) -> (u32, u32);

/// The RGBA bytes, row-major, that a true-color image holds.
pub uninterp spec fn image_pixels(img: image::DynamicImage) -> Seq<u8>;

/// Relies on `image::ImageBuffer::from_raw` and `DynamicImage::ImageRgba8`:
/// a buffer of exactly `width * height * 4` bytes becomes an RGBA image of
/// those dimensions, holding that buffer.
#[verifier::external_body]
fn frame_to_image(f: &Frame) -> (r: image::DynamicImage)
    requires
        f.wf(),
    ensures
        image_dims(r) == (f.width, f.height),
        image_pixels(r) == f.pixels@,
{
    match image::ImageBuffer::from_raw(f.width, f.height, f.pixels.clone()) {
        Some(buf) => image::DynamicImage::ImageRgba8(buf),
        None => image::DynamicImage::new_rgba8(f.width, f.height),
    }
}

/// Relies on `image::DynamicImage::resize` with `FilterType::Nearest`: the
/// result keeps the source's aspect ratio and fills the given bounds as far
/// as it can, so a target that is an exact multiple of the source dimensions
/// comes back with exactly the target dimensions.
#[verifier::external_body]
fn resize_nearest(img: &image::DynamicImage, factor: u32, nw: u32, nh: u32) -> (r:
    image::DynamicImage)
    requires
        image_dims(*img).0 >= 1,
        image_dims(*img).1 >= 1,
        1 <= factor,
        nw == image_dims(*img).0 * factor,
        nh == image_dims(*img).1 * factor,
    ensures
        image_dims(r) == (nw, nh),
{
    img.resize(nw, nh, image::imageops::FilterType::Nearest)
}

/// A frame converted to a true-color image, with its dimensions held as
/// plain values beside it.
pub struct Still {
    pub img: image::DynamicImage,
    pub width: u32,
    pub height: u32,
}

impl Still {
    /// The recorded dimensions are those of the image itself.
    pub open spec fn wf(self) -> bool {
        &&& self.width == image_dims(self.img).0
        &&& self.height == image_dims(self.img).1
    }

    /// The pixel bytes of the held image.
    pub open spec fn pixels(self) -> Seq<u8> {
        image_pixels(self.img)
    }

    /// Converts a decoded frame into a true-color image of the same
    /// dimensions and pixels.
    pub fn from_frame(f: &Frame) -> (s: Still)
        requires
            f.wf(),
        ensures
            s.wf(),
            s.width == f.width,
            s.height == f.height,
            s.pixels() == f.pixels@,
    {
        let img = frame_to_image(f);
        Still { img, width: f.width, height: f.height }
    }

    /// The fixed pre-scale: multiplies both dimensions by `factor` with
    /// nearest-neighbour resampling. An image with a zero dimension has no
    /// pixels to resample and is returned unchanged.
    pub fn prescale(self, factor: u32) -> (r: Still)
        requires
            self.wf(),
            1 <= factor,
            self.width * factor <= u32::MAX,
            self.height * factor <= u32::MAX,
        ensures
            r.wf(),
            self.width >= 1 && self.height >= 1 ==> {
                &&& r.width == self.width * factor
                &&& r.height == self.height * factor
            },
            self.width == 0 || self.height == 0 ==> {
                &&& r.width == self.width
                &&& r.height == self.height
            },
    {
        if self.width == 0 || self.height == 0 {
            return self;
        }
        let nw = self.width * factor;
        let nh = self.height * factor;
        let scaled = resize_nearest(&self.img, factor, nw, nh);
        Still { img: scaled, width: nw, height: nh }
    }

    /// Hands the image over to whatever consumes it, with its dimensions.
    pub fn into_image(self) -> (r: (image::DynamicImage, u32, u32))
        requires
            self.wf(),
        ensures
            image_dims(r.0) == (r.1, r.2),
            r.1 == self.width,
            r.2 == self.height,
    {
        let Still { img, width, height } = self;
        (img, width, height)
    }
}

} // verus!
