//! Clearing the cache, whole or by kind.
//!
//! A clear is decided from a listing of the directory: it names the files to
//! delete and leaves every other file alone. Clearing one kind never touches
//! the other.

use vstd::prelude::*;
use crate::disk_cache::listing::{empty_tally, listing_view, tally, FileEntry, FileEntryView};
use crate::disk_cache::names::{is_avatar_file, is_avatar_name};

verus! {

/// How much of the cache a clear removes.
#[derive(Clone, Copy, Debug, PartialEq, Eq, Structural)]
pub enum ClearScope {
    /// Everything in the directory.
    All,
    /// The files of avatars: those whose name starts with `avatar_`.
    Avatars,
    /// The files of attachments: all other files.
    Attachments,
}

/// Whether a clear of this scope removes this entry.
pub open spec fn is_removed(scope: ClearScope, e: FileEntryView) -> bool {
    match scope {
        ClearScope::All => true,
        ClearScope::Avatars => e.is_file && is_avatar_name(e.name),
        ClearScope::Attachments => e.is_file && !is_avatar_name(e.name),
    }
}

/// The names a clear deletes, in the order of the listing.
pub open spec fn removed_names(scope: ClearScope, entries: Seq<FileEntryView>) -> Seq<Seq<char>>
    decreases entries.len(),
{
    if entries.len() == 0 {
        Seq::empty()
    } else if is_removed(scope, entries.last()) {
        removed_names(scope, entries.drop_last()).push(entries.last().name)
    } else {
        removed_names(scope, entries.drop_last())
    }
}

/// The entries a clear leaves behind, in the order of the listing.
pub open spec fn surviving(scope: ClearScope, entries: Seq<FileEntryView>) -> Seq<FileEntryView>
    decreases entries.len(),
{
    if entries.len() == 0 {
        Seq::empty()
    } else if is_removed(scope, entries.last()) {
        surviving(scope, entries.drop_last())
    } else {
        surviving(scope, entries.drop_last()).push(entries.last())
    }
}

/// The views of a vector of names.
pub open spec fn names_view(names: Seq<String>) -> Seq<Seq<char>> {
    names.map_values(|n: String| n@)
}

/// A clear deletes exactly the entries within its scope and keeps exactly the
/// others: whatever is listed is in one of the two, and nothing is in both.
pub proof fn lemma_clear_splits_listing(scope: ClearScope, entries: Seq<FileEntryView>)
    ensures
        forall|i: int|
            0 <= i < entries.len() && is_removed(scope, #[trigger] entries[i])
                ==> removed_names(scope, entries).contains(entries[i].name),
        forall|i: int|
            0 <= i < entries.len() && !is_removed(scope, #[trigger] entries[i])
                ==> surviving(scope, entries).contains(entries[i]),
        forall|e: FileEntryView| #[trigger]
            surviving(scope, entries).contains(e) ==> entries.contains(e) && !is_removed(scope, e),
        forall|n: Seq<char>| #[trigger]
            removed_names(scope, entries).contains(n) ==> exists|i: int|
                0 <= i < entries.len() && (#[trigger] entries[i]).name == n && is_removed(
                    scope,
                    entries[i],
                ),
        removed_names(scope, entries).len() + surviving(scope, entries).len() == entries.len(),
    decreases entries.len(),
{
    if entries.len() > 0 {
        let head = entries.drop_last();
        let last = entries.last();
        lemma_clear_splits_listing(scope, head);
        let removed = removed_names(scope, entries);
        let kept = surviving(scope, entries);
        assert forall|i: int|
            0 <= i < entries.len() && is_removed(scope, #[trigger] entries[i]) implies removed.contains(
            entries[i].name,
        ) by {
            if i < head.len() {
                assert(entries[i] == head[i]);
                let old_removed = removed_names(scope, head);
                assert(old_removed.contains(head[i].name));
                let j = choose|j: int| 0 <= j < old_removed.len() && old_removed[j] == head[i].name;
                assert(removed[j] == head[i].name);
            } else {
                assert(removed[removed.len() - 1] == last.name);
            }
        }
        assert forall|i: int|
            0 <= i < entries.len() && !is_removed(scope, #[trigger] entries[i]) implies kept.contains(
            entries[i],
        ) by {
            if i < head.len() {
                assert(entries[i] == head[i]);
                let old_kept = surviving(scope, head);
                assert(old_kept.contains(head[i]));
                let j = choose|j: int| 0 <= j < old_kept.len() && old_kept[j] == head[i];
                assert(kept[j] == head[i]);
            } else {
                assert(kept[kept.len() - 1] == last);
            }
        }
        assert forall|e: FileEntryView| #[trigger] kept.contains(e) implies entries.contains(e)
            && !is_removed(scope, e) by {
            let j = choose|j: int| 0 <= j < kept.len() && kept[j] == e;
            let old_kept = surviving(scope, head);
            if j < old_kept.len() {
                assert(old_kept[j] == e);
                assert(old_kept.contains(e));
                let k = choose|k: int| 0 <= k < head.len() && head[k] == e;
                assert(entries[k] == e);
            } else {
                assert(e == last);
                assert(entries[entries.len() - 1] == e);
            }
        }
        assert forall|n: Seq<char>| #[trigger] removed.contains(n) implies exists|i: int|
            0 <= i < entries.len() && (#[trigger] entries[i]).name == n && is_removed(
                scope,
                entries[i],
            ) by {
            let j = choose|j: int| 0 <= j < removed.len() && removed[j] == n;
            let old_removed = removed_names(scope, head);
            if j < old_removed.len() {
                assert(old_removed[j] == n);
                assert(old_removed.contains(n));
                let k = choose|k: int|
                    0 <= k < head.len() && (#[trigger] head[k]).name == n && is_removed(
                        scope,
                        head[k],
                    );
                assert(entries[k] == head[k]);
            } else {
                assert(entries[entries.len() - 1] == last);
            }
        }
    }
}

/// What the statistics say after a clear: a clear of the avatars leaves no
/// avatar and every attachment, a clear of the attachments leaves no
/// attachment and every avatar, and a clear of everything leaves nothing.
pub proof fn lemma_selective_eviction(entries: Seq<FileEntryView>)
    ensures
        tally(surviving(ClearScope::Avatars, entries)).avatars == 0,
        tally(surviving(ClearScope::Avatars, entries)).attachments == tally(entries).attachments,
        tally(surviving(ClearScope::Attachments, entries)).attachments == 0,
        tally(surviving(ClearScope::Attachments, entries)).avatars == tally(entries).avatars,
        surviving(ClearScope::All, entries).len() == 0,
        tally(surviving(ClearScope::All, entries)) == empty_tally(),
    decreases entries.len(),
{
    if entries.len() > 0 {
        let head = entries.drop_last();
        let last = entries.last();
        lemma_selective_eviction(head);
        let kept_a = surviving(ClearScope::Avatars, head);
        let kept_b = surviving(ClearScope::Attachments, head);
        if !is_removed(ClearScope::Avatars, last) {
            assert(kept_a.push(last).drop_last() == kept_a);
        }
        if !is_removed(ClearScope::Attachments, last) {
            assert(kept_b.push(last).drop_last() == kept_b);
        }
    }
}

/// The bytes left after a clear of one kind are the bytes of the other kind:
/// together the two kinds make up the whole cache.
pub proof fn lemma_eviction_splits_bytes(entries: Seq<FileEntryView>)
    ensures
        tally(surviving(ClearScope::Avatars, entries)).bytes + tally(
            surviving(ClearScope::Attachments, entries),
        ).bytes == tally(entries).bytes,
    decreases entries.len(),
{
    if entries.len() > 0 {
        let head = entries.drop_last();
        let last = entries.last();
        lemma_eviction_splits_bytes(head);
        let kept_a = surviving(ClearScope::Avatars, head);
        let kept_b = surviving(ClearScope::Attachments, head);
        if !is_removed(ClearScope::Avatars, last) {
            assert(kept_a.push(last).drop_last() == kept_a);
        }
        if !is_removed(ClearScope::Attachments, last) {
            assert(kept_b.push(last).drop_last() == kept_b);
        }
    }
}

/// Names the files that a clear of the given scope deletes.
pub fn clear_plan(entries: &Vec<FileEntry>, scope: ClearScope) -> (names: Vec<String>)
    ensures
        names_view(names@) == removed_names(scope, listing_view(entries@)),
{
    let ghost listing = listing_view(entries@);
    let mut names: Vec<String> = Vec::new();
    let mut i: usize = 0;
    assert(names_view(names@) == removed_names(scope, listing.take(0)));
    while i < entries.len()
        invariant
            i <= entries.len(),
            listing == listing_view(entries@),
            names_view(names@) == removed_names(scope, listing.take(i as int)),
        decreases entries.len() - i,
    {
        let entry = &entries[i];
        proof {
            assert(listing.take(i + 1).drop_last() == listing.take(i as int));
            assert(listing.take(i + 1).last() == entry@);
        }
        let remove = match scope {
            ClearScope::All => true,
            ClearScope::Avatars => entry.is_file && is_avatar_file(entry.name.as_str()),
            ClearScope::Attachments => entry.is_file && !is_avatar_file(entry.name.as_str()),
        };
        if remove {
            let ghost before = names@;
            let name = entry.name.clone();
            names.push(name);
            assert(names_view(names@) == names_view(before).push(entry.name@));
        }
        i += 1;
    }
    assert(listing.take(entries.len() as int) == listing);
    names
}

} // verus!
