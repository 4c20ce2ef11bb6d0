//! What a listing of the cache directory amounts to: the statistics shown to
//! the user and the set of files that each kind of clear removes.

use vstd::prelude::*;
use crate::disk_cache::names::{is_avatar_file, is_avatar_name, is_sidecar_file, is_sidecar_name};

verus! {

/// One entry of the cache directory, as the caller found it.
#[derive(Clone, Debug)]
pub struct FileEntry {
    /// The entry's name within the directory.
    pub name: String,
    /// Its size in bytes.
    pub size: u64,
    /// Whether it is a regular file.
    pub is_file: bool,
}

/// A directory entry as a mathematical value.
pub struct FileEntryView {
    pub name: Seq<char>,
    pub size: nat,
    pub is_file: bool,
}

impl View for FileEntry {
    type V = FileEntryView;

    open spec fn view(&self) -> FileEntryView {
        FileEntryView { name: self.name@, size: self.size as nat, is_file: self.is_file }
    }
}

/// A listing as a sequence of mathematical values.
pub open spec fn listing_view(entries: Seq<FileEntry>) -> Seq<FileEntryView> {
    entries.map_values(|e: FileEntry| e@)
}

/// An entry counts toward the statistics if it is a regular file and not a
/// sidecar: a sidecar only describes the image beside it.
pub open spec fn is_counted(e: FileEntryView) -> bool {
    e.is_file && !is_sidecar_name(e.name)
}

/// The totals of a listing.
pub struct Tally {
    pub bytes: nat,
    pub files: nat,
    pub avatars: nat,
    pub attachments: nat,
}

/// The totals of the empty listing.
pub open spec fn empty_tally() -> Tally {
    Tally { bytes: 0, files: 0, avatars: 0, attachments: 0 }
}

/// The totals after one more entry.
pub open spec fn tally_with(t: Tally, e: FileEntryView) -> Tally {
    if !is_counted(e) {
        t
    } else if is_avatar_name(e.name) {
        Tally { bytes: t.bytes + e.size, files: t.files + 1, avatars: t.avatars + 1, ..t }
    } else {
        Tally { bytes: t.bytes + e.size, files: t.files + 1, attachments: t.attachments + 1, ..t }
    }
}

/// The totals of a listing: each counted entry adds its size and one file,
/// of the kind its name says.
pub open spec fn tally(entries: Seq<FileEntryView>) -> Tally
    decreases entries.len(),
{
    if entries.len() == 0 {
        empty_tally()
    } else {
        tally_with(tally(entries.drop_last()), entries.last())
    }
}

/// Every counted file is an avatar or an attachment, never both, and no more
/// files are counted than were listed.
pub proof fn lemma_tally_adds_up(entries: Seq<FileEntryView>)
    ensures
        tally(entries).files == tally(entries).avatars + tally(entries).attachments,
        tally(entries).files <= entries.len(),
    decreases entries.len(),
{
    if entries.len() > 0 {
        lemma_tally_adds_up(entries.drop_last());
    }
}

/// Statistics of the cache directory.
#[derive(Clone, Debug)]
pub struct CacheStats {
    /// Bytes held by cached images, capped at `u64::MAX`.
    pub total_size_bytes: u64,
    /// Number of cached images.
    pub total_files: usize,
    /// How many of them are avatars.
    pub avatar_files: usize,
    /// How many of them are attachments.
    pub attachment_files: usize,
    /// The directory that was listed.
    pub cache_path: String,
}

impl CacheStats {
    /// These statistics say exactly what `listing` holds.
    pub open spec fn describes(&self, listing: Seq<FileEntryView>) -> bool {
        let t = tally(listing);
        &&& self.total_size_bytes == if t.bytes <= u64::MAX { t.bytes } else { u64::MAX as nat }
        &&& self.total_files == t.files
        &&& self.avatar_files == t.avatars
        &&& self.attachment_files == t.attachments
    }

    /// The statistics of an empty cache at `cache_path`.
    pub fn empty(cache_path: &str) -> (stats: CacheStats)
        ensures
            stats.describes(Seq::empty()),
            stats.cache_path@ == cache_path@,
    {
        CacheStats {
            total_size_bytes: 0,
            total_files: 0,
            avatar_files: 0,
            attachment_files: 0,
            cache_path: cache_path.to_owned(),
        }
    }

    /// Whole mebibytes held by cached images, rounded down.
    pub fn total_size_mb(&self) -> (mb: u64)
        ensures
            mb == self.total_size_bytes / 1_048_576,
    {
        self.total_size_bytes / 1_048_576
    }
}

/// Walks a listing once and totals it: files are told apart by the avatar
/// prefix, and sidecars are left out so that no image is counted twice.
pub fn stats(entries: &Vec<FileEntry>, cache_path: &str) -> (out: CacheStats)
    ensures
        out.describes(listing_view(entries@)),
        out.cache_path@ == cache_path@,
{
    let ghost listing = listing_view(entries@);
    let mut total_size: u64 = 0;
    let mut file_count: usize = 0;
    let mut avatar_count: usize = 0;
    let mut attachment_count: usize = 0;
    let mut i: usize = 0;
    while i < entries.len()
        invariant
            i <= entries.len(),
            listing == listing_view(entries@),
            total_size == if tally(listing.take(i as int)).bytes <= u64::MAX {
                tally(listing.take(i as int)).bytes
            } else {
                u64::MAX as nat
            },
            file_count == tally(listing.take(i as int)).files,
            avatar_count == tally(listing.take(i as int)).avatars,
            attachment_count == tally(listing.take(i as int)).attachments,
            file_count <= i,
            file_count == avatar_count + attachment_count,
        decreases entries.len() - i,
    {
        let entry = &entries[i];
        proof {
            assert(listing.take(i + 1).drop_last() == listing.take(i as int));
            assert(listing.take(i + 1).last() == entry@);
        }
        if entry.is_file && !is_sidecar_file(entry.name.as_str()) {
            total_size = total_size.saturating_add(entry.size);
            file_count += 1;
            if is_avatar_file(entry.name.as_str()) {
                avatar_count += 1;
            } else {
                attachment_count += 1;
            }
        }
        i += 1;
    }
    assert(listing.take(entries.len() as int) == listing);
    CacheStats {
        total_size_bytes: total_size,
        total_files: file_count,
        avatar_files: avatar_count,
        attachment_files: attachment_count,
        cache_path: cache_path.to_owned(),
    }
}

} // verus!
