//! The image transformer: decoding, resizing and masking.

pub mod mask;
pub mod sizing;

use vstd::prelude::*;
use crate::codec::{
    decoded, encode_png, load_rgba, png_encoding, resample_rgba, resamples, RawImage,
    MAX_TARGET_DIMENSION,
};
use crate::error::LoadError;
use crate::pixels::{is_image_shape, ImageView, ProcessedImage};
use crate::transform::mask::{circle_mask, masked};
use crate::transform::sizing::AttachmentSizing;

verus! {

/// The width and height, in pixels, of a processed avatar.
pub const AVATAR_SIZE: u32 = 128;

/// What a decoder handed over, as a mathematical value.
pub open spec fn raw_view(raw: Result<RawImage, image::ImageError>) -> Option<(u32, u32, Seq<u8>)> {
    match raw {
        Ok(r) => Some((r.width, r.height, r.rgba@)),
        Err(_) => None,
    }
}

/// What a decoder's outcome amounts to: an image, where the decoder gave
/// one of at least one pixel with exactly the bytes of its pixels.
pub open spec fn accepted(outcome: Option<(u32, u32, Seq<u8>)>) -> Option<ImageView> {
    match outcome {
        Some((width, height, pixels)) => if is_image_shape(
            width as nat,
            height as nat,
            pixels.len(),
        ) {
            Some(ImageView { width: width as nat, height: height as nat, pixels })
        } else {
            None
        },
        None => None,
    }
}

/// The image that the bytes of an image file decode to, if they decode to
/// one.
pub open spec fn decoded_image(bytes: Seq<u8>) -> Option<ImageView> {
    accepted(decoded(bytes))
}

/// Takes the outcome of a decoder: an image of at least one pixel is kept
/// as it is, and everything else is a decode error.
pub fn accept_decoded(raw: Result<RawImage, image::ImageError>) -> (out: Result<
    ProcessedImage,
    LoadError,
>)
    ensures
        match accepted(raw_view(raw)) {
            Some(v) => out matches Ok(img) && img@ == v && img.wf(),
            None => out == Err::<ProcessedImage, LoadError>(LoadError::Decode),
        },
{
    match raw {
        Ok(r) => match ProcessedImage::from_rgba(r.width, r.height, r.rgba) {
            Some(img) => Ok(img),
            None => Err(LoadError::Decode),
        },
        Err(_) => Err(LoadError::Decode),
    }
}

/// Decodes the bytes of an image file: the image that they decode to, or a
/// decode error where they decode to none.
pub fn decode(bytes: &[u8]) -> (out: Result<ProcessedImage, LoadError>)
    ensures
        match decoded_image(bytes@) {
            Some(v) => out matches Ok(img) && img@ == v && img.wf(),
            None => out == Err::<ProcessedImage, LoadError>(LoadError::Decode),
        },
{
    accept_decoded(load_rgba(bytes))
}

/// The PNG file of an image, where one can be written; an I/O error
/// otherwise.
pub fn encode(img: &ProcessedImage) -> (out: Result<Vec<u8>, LoadError>)
    requires
        img.wf(),
    ensures
        match png_encoding(img@.width as u32, img@.height as u32, img@.pixels) {
            Some(bytes) => out matches Ok(b) && b@ == bytes,
            None => out == Err::<Vec<u8>, LoadError>(LoadError::Io),
        },
{
    match encode_png(img.width(), img.height(), img.pixels()) {
        Ok(bytes) => Ok(bytes),
        Err(_) => Err(LoadError::Io),
    }
}

/// Whether this machine can resample an image that is `width` pixels wide
/// to `new_height` rows.
pub fn can_resample(width: u32, new_height: u32) -> (can: bool)
    ensures
        can == resamples(width as nat, new_height as nat),
{
    assert(16 * (width as nat) * (new_height as nat) <= 16 * 0xffff_ffff * 0xffff_ffff)
        by (nonlinear_arith)
        requires
            width <= 0xffff_ffff,
            new_height <= 0xffff_ffff,
    ;
    let needed: u128 = 16 * (width as u128) * (new_height as u128);
    needed <= isize::MAX as u128
}

/// Resamples an image to exactly `width` by `height` pixels, without regard
/// to its aspect ratio. An image that has that size already comes out as it
/// went in. The size asked for is one that this machine can resample the
/// image to.
pub fn resize_exact(img: &ProcessedImage, width: u32, height: u32) -> (out: ProcessedImage)
    requires
        img.wf(),
        resamples(img@.width, height as nat),
        1 <= width <= MAX_TARGET_DIMENSION,
        1 <= height <= MAX_TARGET_DIMENSION,
    ensures
        out.wf(),
        out@.width == width,
        out@.height == height,
        img@.width == width && img@.height == height ==> out@ == img@,
{
    let raw = resample_rgba(img.width(), img.height(), img.pixels(), width, height);
    let out = ProcessedImage::from_rgba(raw.width, raw.height, raw.rgba);
    out.unwrap()
}

/// Whether an image is a processed avatar: square, of the avatar size, and
/// transparent outside the inscribed circle.
pub open spec fn is_avatar_image(v: ImageView) -> bool {
    &&& v.wf()
    &&& v.width == AVATAR_SIZE
    &&& v.height == AVATAR_SIZE
    &&& masked(v) == v
}

/// Makes an avatar of a picture: resamples it to the avatar size and masks it
/// to a circle. A picture that has the avatar size already is only masked.
/// The picture is one that this machine can resample to the avatar size.
pub fn resize_for_avatar(img: &ProcessedImage) -> (out: ProcessedImage)
    requires
        img.wf(),
        resamples(img@.width, AVATAR_SIZE as nat),
    ensures
        is_avatar_image(out@),
        img@.width == AVATAR_SIZE && img@.height == AVATAR_SIZE ==> out@ == masked(img@),
{
    let square = resize_exact(img, AVATAR_SIZE, AVATAR_SIZE);
    proof {
        crate::transform::mask::lemma_mask_is_idempotent(square@);
    }
    circle_mask(square)
}

/// An attachment ready to be shown: the image at the size it is shown at and
/// the terminal cells that it covers.
pub struct SizedImage {
    pub image: ProcessedImage,
    pub terminal_width: u16,
    pub terminal_height: u16,
}

/// Whether this machine can bring an image of `w` by `h` pixels to the size
/// it is shown at within the given limits: the image has that size already,
/// or can be resampled to it.
pub open spec fn fits_limits(sizing: AttachmentSizing, w: nat, h: nat) -> bool {
    sizing.keeps_size(w, h) || resamples(w, sizing.target_px(w, h).1)
}

/// Brings an attachment to the size it is shown at within the given limits,
/// and says how many cells it covers. An image that already has that size is
/// handed back as it is, and any other is one that this machine can
/// resample to that size.
pub fn resize_for_attachment(img: ProcessedImage, sizing: &AttachmentSizing) -> (out: SizedImage)
    requires
        img.wf(),
        fits_limits(*sizing, img@.width, img@.height),
    ensures
        out.image.wf(),
        (
            out.image@.width,
            out.image@.height,
            out.terminal_width as nat,
            out.terminal_height as nat,
        ) == sizing.target(img@.width, img@.height),
        sizing.target(img@.width, img@.height).0 == img@.width && sizing.target(
            img@.width,
            img@.height,
        ).1 == img@.height ==> out.image@ == img@,
{
    let target = sizing.target_size(img.width(), img.height());
    let image = if target.width != img.width() || target.height != img.height() {
        resize_exact(&img, target.width, target.height)
    } else {
        img
    };
    SizedImage { image, terminal_width: target.cols, terminal_height: target.rows }
}

} // verus!
