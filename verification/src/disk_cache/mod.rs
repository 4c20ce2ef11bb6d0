//! The persistent tier of the image cache, as far as it can be decided
//! without touching the disk: how files are named, what a directory listing
//! amounts to, which files a clear removes, and when a stored pair is valid.
//!
//! The caller reads and writes the files; every decision about them is made
//! here.

pub mod clear;
pub mod entry;
pub mod listing;
pub mod names;
pub mod sidecar;
