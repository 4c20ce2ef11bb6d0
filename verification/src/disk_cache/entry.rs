//! Reading and writing one entry of the disk cache.
//!
//! An entry is a pair of files: the image and its sidecar record. The image
//! is written first. An image without a readable record beside it is not an
//! entry, so a write that was cut short between the two files heals itself:
//! the key reads as absent and is written again.

use vstd::prelude::*;
use crate::codec::png_encoding;
use crate::disk_cache::names::{image_file, key_stem, sidecar_file, CacheKey};
use crate::disk_cache::sidecar::{
    format_sidecar, lemma_sidecar_round_trip, parse_sidecar, read_sidecar, sidecar_text,
};
use crate::error::LoadError;
use crate::pixels::ProcessedImage;
use crate::transform::encode;

verus! {

/// An entry as it was found on disk: the bytes of the image file and the size
/// that the record beside it gives.
pub struct StoredImage {
    pub bytes: Vec<u8>,
    pub width: u32,
    pub height: u32,
}

/// What the two files of a key amount to: an entry where both are there and
/// the record reads as a size, and nothing otherwise.
pub open spec fn stored_entry(image: Option<Seq<u8>>, sidecar: Option<Seq<u8>>) -> Option<
    (Seq<u8>, u32, u32),
> {
    match (image, sidecar) {
        (Some(bytes), Some(record)) => match parse_sidecar(record) {
            Some((width, height)) => Some((bytes, width, height)),
            None => None,
        },
        _ => None,
    }
}

/// The views of two files that may be absent.
pub open spec fn file_view(file: Option<Vec<u8>>) -> Option<Seq<u8>> {
    match file {
        Some(bytes) => Some(bytes@),
        None => None,
    }
}

/// The files to write for one entry, in the order in which to write them.
pub struct WritePlan {
    /// The name of the image file.
    pub image_file: String,
    /// Its contents.
    pub image_bytes: Vec<u8>,
    /// The name of the sidecar file.
    pub sidecar_file: String,
    /// Its contents.
    pub sidecar_bytes: Vec<u8>,
}

/// A write plan as a mathematical value.
pub struct WritePlanView {
    pub image_file: Seq<char>,
    pub image_bytes: Seq<u8>,
    pub sidecar_file: Seq<char>,
    pub sidecar_bytes: Seq<u8>,
}

impl View for WritePlan {
    type V = WritePlanView;

    open spec fn view(&self) -> WritePlanView {
        WritePlanView {
            image_file: self.image_file@,
            image_bytes: self.image_bytes@,
            sidecar_file: self.sidecar_file@,
            sidecar_bytes: self.sidecar_bytes@,
        }
    }
}

/// The plan for writing an image of the given size, encoded as `png`, under
/// the name `stem`.
pub open spec fn plan_for(stem: Seq<char>, png: Seq<u8>, width: u32, height: u32) -> WritePlanView {
    WritePlanView {
        image_file: image_file(stem),
        image_bytes: png,
        sidecar_file: sidecar_file(stem),
        sidecar_bytes: sidecar_text(width, height),
    }
}

/// The round trip. What a plan writes reads back as an entry of the same
/// bytes and of the size recorded at write time.
pub proof fn lemma_written_entry_reads_back(stem: Seq<char>, png: Seq<u8>, width: u32, height: u32)
    ensures
        stored_entry(
            Some(plan_for(stem, png, width, height).image_bytes),
            Some(plan_for(stem, png, width, height).sidecar_bytes),
        ) == Some((png, width, height)),
{
    lemma_sidecar_round_trip(width, height);
}

/// Takes what was read of the two files of a key, `None` standing for a file
/// that is not there. A missing file, and a record that does not read as a
/// size, make a miss; they are never an error.
pub fn get(image: Option<Vec<u8>>, sidecar: Option<Vec<u8>>) -> (out: Option<StoredImage>)
    ensures
        match stored_entry(file_view(image), file_view(sidecar)) {
            Some((bytes, width, height)) => out matches Some(stored) && stored.bytes@ == bytes
                && stored.width == width && stored.height == height,
            None => out is None,
        },
{
    match (image, sidecar) {
        (Some(bytes), Some(record)) => match read_sidecar(&record) {
            Some((width, height)) => Some(StoredImage { bytes, width, height }),
            None => None,
        },
        _ => None,
    }
}

/// Plans the write of an image under a key: the image file first, then the
/// sidecar that records the image's size.
pub fn put(key: &CacheKey, image: &ProcessedImage) -> (out: Result<WritePlan, LoadError>)
    requires
        image.wf(),
    ensures
        match png_encoding(image@.width as u32, image@.height as u32, image@.pixels) {
            Some(png) => out matches Ok(plan) && plan@ == plan_for(
                key_stem(key@),
                png,
                image@.width as u32,
                image@.height as u32,
            ),
            None => out matches Err(e) && e == LoadError::Io,
        },
{
    match encode(image) {
        Ok(image_bytes) => Ok(
            WritePlan {
                image_file: key.image_file_name(),
                image_bytes,
                sidecar_file: key.sidecar_file_name(),
                sidecar_bytes: format_sidecar(image.width(), image.height()),
            },
        ),
        Err(e) => Err(e),
    }
}

} // verus!
