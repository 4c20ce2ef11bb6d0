//! Decoded images: a width, a height and four bytes per pixel.

use vstd::prelude::*;

verus! {

/// A decoded image as a mathematical value: `pixels` holds red, green, blue
/// and alpha of each pixel, row after row from the top.
pub struct ImageView {
    pub width: nat,
    pub height: nat,
    pub pixels: Seq<u8>,
}

impl ImageView {
    /// The image has at least one pixel and exactly the bytes of its
    /// pixels.
    pub open spec fn wf(self) -> bool {
        &&& 1 <= self.width
        &&& 1 <= self.height
        &&& self.pixels.len() == 4 * self.width * self.height
    }

    /// The place in `pixels` of channel `channel` of the pixel at `(x, y)`.
    pub open spec fn offset(self, x: int, y: int, channel: int) -> int {
        4 * (y * self.width + x) + channel
    }
}

/// Whether width, height and a buffer of `len` bytes make an image.
pub open spec fn is_image_shape(width: nat, height: nat, len: nat) -> bool {
    &&& 1 <= width
    &&& 1 <= height
    &&& len == 4 * width * height
}

/// A decoded image. Once made it does not change.
#[derive(Clone, Debug)]
pub struct ProcessedImage {
    width: u32,
    height: u32,
    pixels: Vec<u8>,
}

impl View for ProcessedImage {
    type V = ImageView;

    closed spec fn view(&self) -> ImageView {
        ImageView {
            width: self.width as nat,
            height: self.height as nat,
            pixels: self.pixels@,
        }
    }
}

impl ProcessedImage {
    /// The image is well formed.
    pub open spec fn wf(&self) -> bool {
        self@.wf()
    }

    /// An image from its size and pixel bytes, if they go together.
    pub fn from_rgba(width: u32, height: u32, pixels: Vec<u8>) -> (out: Option<ProcessedImage>)
        ensures
            out is Some <==> is_image_shape(width as nat, height as nat, pixels@.len()),
            out matches Some(image) ==> {
                &&& image.wf()
                &&& image@.width == width
                &&& image@.height == height
                &&& image@.pixels == pixels@
            },
    {
        if width < 1 || height < 1 {
            return None;
        }
        assert(4 * (width as nat) * (height as nat) <= 4 * 0xffff_ffff * 0xffff_ffff)
            by (nonlinear_arith)
            requires
                width <= 0xffff_ffff,
                height <= 0xffff_ffff,
        ;
        let expected: u128 = 4 * (width as u128) * (height as u128);
        if pixels.len() as u128 != expected {
            return None;
        }
        Some(ProcessedImage { width, height, pixels })
    }

    /// Width in pixels.
    pub fn width(&self) -> (w: u32)
        ensures
            w == self@.width,
    {
        self.width
    }

    /// Height in pixels.
    pub fn height(&self) -> (h: u32)
        ensures
            h == self@.height,
    {
        self.height
    }

    /// The pixel bytes.
    pub fn pixels(&self) -> (p: &Vec<u8>)
        ensures
            p@ == self@.pixels,
    {
        &self.pixels
    }

    /// A copy of the image.
    pub fn duplicate(&self) -> (copy: ProcessedImage)
        ensures
            copy@ == self@,
    {
        let pixels = self.pixels.clone();
        assert(pixels@ == self.pixels@);
        ProcessedImage { width: self.width, height: self.height, pixels }
    }

    /// The image's parts, given back to the caller.
    pub fn into_parts(self) -> (parts: (u32, u32, Vec<u8>))
        ensures
            parts.0 == self@.width,
            parts.1 == self@.height,
            parts.2@ == self@.pixels,
    {
        (self.width, self.height, self.pixels)
    }
}

} // verus!
