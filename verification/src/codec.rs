//! The calls into the `image` crate: decoding, resampling and PNG encoding.
//!
//! Nothing in this file is proved. Each function states what the `image`
//! crate documents of the call it makes, and the rest of the library is
//! verified against these statements.

use vstd::prelude::*;
use crate::pixels::is_image_shape;

verus! {

/// The largest width or height, in pixels, that an image is resampled to.
pub const MAX_TARGET_DIMENSION: u32 = 4_096;

/// `image::ImageError`: why the `image` crate could not decode or encode.
/// Nothing inside it is read here.
#[verifier::external_type_specification]
#[verifier::external_body]
pub struct ExImageError(image::ImageError);

/// An image as it comes out of the `image` crate: a size and a buffer of
/// bytes, four to a pixel.
pub struct RawImage {
    pub width: u32,
    pub height: u32,
    pub rgba: Vec<u8>,
}

/// The PNG file that the `image` crate writes for an image of this size and
/// these pixels, or nothing where it refuses to write one.
pub uninterp spec fn png_encoding(width: u32, height: u32, rgba: Seq<u8>) -> Option<Seq<u8>>;

/// What the decoders built into the `image` crate make of the bytes of an
/// image file: the width, the height and the pixels in eight-bit RGBA, or
/// nothing where they do not take the bytes for an image.
pub uninterp spec fn decoded(bytes: Seq<u8>) -> Option<(u32, u32, Seq<u8>)>;

/// `image::guess_format`, then `image::load_from_memory_with_format` and
/// `DynamicImage::into_rgba8`.
///
/// `guess_format` tells the format from the signature at the head of
/// `bytes`, by the table built into the `image` crate;
/// `load_from_memory_with_format` hands the bytes to that format's built-in
/// decoder. Neither call reads a format or a decoder that the process has
/// registered, and the decoders work on the bytes alone, in whole numbers.
/// So the outcome is given a name, [`decoded`]; what it is is not stated,
/// and the callers look at the size and the buffer themselves.
#[verifier::external_body]
pub(crate) fn load_rgba(bytes: &[u8]) -> (out: Result<RawImage, image::ImageError>)
    ensures
        match out {
            Ok(raw) => decoded(bytes@) == Some((raw.width, raw.height, raw.rgba@)),
            Err(_) => decoded(bytes@) is None,
        },
{
    let format = image::guess_format(bytes)?;
    let img = image::load_from_memory_with_format(bytes, format)?.into_rgba8();
    Ok(RawImage { width: img.width(), height: img.height(), rgba: img.into_raw() })
}

/// Whether this machine can resample an image that is `width` pixels wide
/// to `new_height` rows: the buffer that the image passes through on the
/// way, `width` by `new_height` pixels of sixteen bytes each, is one that a
/// vector holds.
pub open spec fn resamples(width: nat, new_height: nat) -> bool {
    16 * width * new_height <= isize::MAX
}

/// `image::imageops::resize` with the Lanczos filter of window 3.
///
/// The result has the width and height asked for, whatever the size of the
/// source, and where that is the size of the source the result is a copy of
/// it. The call resamples the rows first, into a buffer as wide as the
/// source and as high as the result, of sixteen bytes per pixel, and then
/// the columns; it panics where a buffer is larger than a vector holds. The
/// bounds leave those sizes out: the first for the buffer in between, the
/// other two for the result.
#[verifier::external_body]
pub(crate) fn resample_rgba(
    width: u32,
    height: u32,
    rgba: &Vec<u8>,
    new_width: u32,
    new_height: u32,
) -> (out: RawImage)
    requires
        is_image_shape(width as nat, height as nat, rgba@.len()),
        resamples(width as nat, new_height as nat),
        1 <= new_width <= MAX_TARGET_DIMENSION,
        1 <= new_height <= MAX_TARGET_DIMENSION,
    ensures
        out.width == new_width,
        out.height == new_height,
        out.rgba@.len() == 4 * (new_width as nat) * (new_height as nat),
        new_width == width && new_height == height ==> out.rgba@ == rgba@,
{
    let src = image::RgbaImage::from_raw(width, height, rgba.clone()).unwrap();
    let filter = image::imageops::FilterType::Lanczos3;
    let out = image::imageops::resize(&src, new_width, new_height, filter);
    RawImage { width: out.width(), height: out.height(), rgba: out.into_raw() }
}

/// `DynamicImage::write_to` with `ImageFormat::Png`, into memory.
///
/// The bytes written depend on the size and the pixels alone, so they are
/// given a name, [`png_encoding`]; what they are is not stated.
#[verifier::external_body]
pub(crate) fn encode_png(width: u32, height: u32, rgba: &Vec<u8>) -> (out: Result<
    Vec<u8>,
    image::ImageError,
>)
    requires
        is_image_shape(width as nat, height as nat, rgba@.len()),
    ensures
        match out {
            Ok(bytes) => png_encoding(width, height, rgba@) == Some(bytes@),
            Err(_) => png_encoding(width, height, rgba@) is None,
        },
{
    let img = image::RgbaImage::from_raw(width, height, rgba.clone()).unwrap();
    let mut out: Vec<u8> = Vec::new();
    let mut cursor = std::io::Cursor::new(&mut out);
    image::DynamicImage::ImageRgba8(img).write_to(&mut cursor, image::ImageFormat::Png)?;
    Ok(out)
}

} // verus!
