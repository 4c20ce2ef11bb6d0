//! The failure taxonomy of the image subsystem.

use vstd::prelude::*;

verus! {

/// Why an image could not be made available.
///
/// None of these is fatal: the caller shows a textual placeholder instead of
/// the image and may simply ask again later.
#[derive(Clone, Copy, Debug, PartialEq, Eq, Structural)]
pub enum LoadError {
    /// The bytes could not be fetched from their URL.
    Network,
    /// The bytes are not an image this client can decode and hold.
    Decode,
    /// The cache directory could not be read or written.
    Io,
    /// The terminal cannot display images at all.
    UnsupportedProtocol,
}

impl LoadError {
    /// A short description for logs and placeholders.
    pub fn describe(&self) -> (text: &'static str)
        ensures
            text@ == match *self {
                LoadError::Network => "image could not be fetched"@,
                LoadError::Decode => "image could not be decoded"@,
                LoadError::Io => "image cache could not be accessed"@,
                LoadError::UnsupportedProtocol => "terminal cannot display images"@,
            },
    {
        match self {
            LoadError::Network => "image could not be fetched",
            LoadError::Decode => "image could not be decoded",
            LoadError::Io => "image cache could not be accessed",
            LoadError::UnsupportedProtocol => "terminal cannot display images",
        }
    }
}

} // verus!
