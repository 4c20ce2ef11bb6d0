//! Cache keys and the file names they stand for.
//!
//! An avatar is stored under `avatar_<user id>`, an attachment under its bare
//! id. The image lives in `<key>.png` and its record in `<key>.meta`. The
//! `avatar_` prefix is the only thing that tells the two kinds of file apart.

use vstd::prelude::*;
use crate::text::{concat2, ends_with, is_prefix, is_suffix, starts_with};

verus! {

/// What an image is cached under.
#[derive(Clone, Debug)]
pub enum CacheKey {
    /// The avatar of the user with this id.
    Avatar(String),
    /// The attachment with this id.
    Attachment(String),
}

/// A cache key as a mathematical value.
pub enum CacheKeyView {
    Avatar(Seq<char>),
    Attachment(Seq<char>),
}

impl View for CacheKey {
    type V = CacheKeyView;

    open spec fn view(&self) -> CacheKeyView {
        match *self {
            CacheKey::Avatar(id) => CacheKeyView::Avatar(id@),
            CacheKey::Attachment(id) => CacheKeyView::Attachment(id@),
        }
    }
}

/// The name, without extension, under which the avatar of `user_id` is kept.
pub open spec fn avatar_stem(user_id: Seq<char>) -> Seq<char> {
    "avatar_"@ + user_id
}

/// The name, without extension, that a key stands for.
pub open spec fn key_stem(key: CacheKeyView) -> Seq<char> {
    match key {
        CacheKeyView::Avatar(id) => avatar_stem(id),
        CacheKeyView::Attachment(id) => id,
    }
}

/// The name of the image file of a stem.
pub open spec fn image_file(stem: Seq<char>) -> Seq<char> {
    stem + ".png"@
}

/// The name of the sidecar file of a stem.
pub open spec fn sidecar_file(stem: Seq<char>) -> Seq<char> {
    stem + ".meta"@
}

/// A file of this name belongs to an avatar.
pub open spec fn is_avatar_name(name: Seq<char>) -> bool {
    is_prefix("avatar_"@, name)
}

/// A file of this name is a sidecar record.
pub open spec fn is_sidecar_name(name: Seq<char>) -> bool {
    is_suffix(".meta"@, name)
}

/// Both files of an avatar carry the avatar prefix, whatever the user id.
pub proof fn lemma_avatar_files_are_avatar_names(user_id: Seq<char>)
    ensures
        is_avatar_name(avatar_stem(user_id)),
        is_avatar_name(image_file(avatar_stem(user_id))),
        is_avatar_name(sidecar_file(avatar_stem(user_id))),
{
    let p = "avatar_"@;
    let stem = avatar_stem(user_id);
    assert(stem.subrange(0, p.len() as int) == p);
    assert(image_file(stem).subrange(0, p.len() as int) == p);
    assert(sidecar_file(stem).subrange(0, p.len() as int) == p);
}

/// An attachment's files carry the avatar prefix only if its id does.
pub proof fn lemma_attachment_files_follow_their_id(id: Seq<char>)
    ensures
        is_avatar_name(image_file(id)) == is_avatar_name(id),
        is_avatar_name(sidecar_file(id)) == is_avatar_name(id),
{
    reveal_strlit("avatar_");
    reveal_strlit(".png");
    reveal_strlit(".meta");
    let p = "avatar_"@;
    if is_avatar_name(id) {
        assert(image_file(id).subrange(0, p.len() as int) == id.subrange(0, p.len() as int));
        assert(sidecar_file(id).subrange(0, p.len() as int) == id.subrange(0, p.len() as int));
    }
    if is_avatar_name(image_file(id)) {
        let f = image_file(id);
        assert(f.subrange(0, 7)[6] == '_');
        assert(forall|i: int| 0 <= i < 7 ==> f.subrange(0, 7)[i] == p[i]);
        assert(id.len() >= 7) by {
            if id.len() < 7 {
                let k = id.len() as int;
                assert(f[k] == '.');
                assert(f.subrange(0, 7)[k] == p[k]);
            }
        }
        assert(id.subrange(0, 7) == f.subrange(0, 7));
    }
    if is_avatar_name(sidecar_file(id)) {
        let f = sidecar_file(id);
        assert(forall|i: int| 0 <= i < 7 ==> f.subrange(0, 7)[i] == p[i]);
        assert(id.len() >= 7) by {
            if id.len() < 7 {
                let k = id.len() as int;
                assert(f[k] == '.');
                assert(f.subrange(0, 7)[k] == p[k]);
            }
        }
        assert(id.subrange(0, 7) == f.subrange(0, 7));
    }
}

/// An image file is never taken for a sidecar, and a sidecar always is.
pub proof fn lemma_extensions_tell_files_apart(stem: Seq<char>)
    ensures
        !is_sidecar_name(image_file(stem)),
        is_sidecar_name(sidecar_file(stem)),
{
    reveal_strlit(".png");
    reveal_strlit(".meta");
    let img = image_file(stem);
    let meta = sidecar_file(stem);
    assert(meta.subrange(meta.len() - 5, meta.len() as int) == ".meta"@);
    if is_sidecar_name(img) {
        let tail = img.subrange(img.len() - 5, img.len() as int);
        assert(tail[4] == img[img.len() - 1]);
        assert(img[img.len() - 1] == 'g');
        assert(".meta"@[4] == 'a');
    }
}

/// Two keys of one kind with the same stem are the same key.
pub proof fn lemma_stem_tells_keys_of_a_kind_apart(a: CacheKeyView, b: CacheKeyView)
    requires
        key_stem(a) == key_stem(b),
        (a is Avatar) == (b is Avatar),
    ensures
        a == b,
{
    match (a, b) {
        (CacheKeyView::Avatar(x), CacheKeyView::Avatar(y)) => {
            let p = "avatar_"@;
            assert((p + x).subrange(p.len() as int, (p + x).len() as int) == x);
            assert((p + y).subrange(p.len() as int, (p + y).len() as int) == y);
        },
        _ => {},
    }
}

impl CacheKey {
    /// Whether this is the key of an avatar.
    pub fn is_avatar(&self) -> (r: bool)
        ensures
            r == (self@ is Avatar),
    {
        match self {
            CacheKey::Avatar(_) => true,
            CacheKey::Attachment(_) => false,
        }
    }

    /// The name, without extension, of this key's files.
    pub fn stem(&self) -> (out: String)
        ensures
            out@ == key_stem(self@),
    {
        match self {
            CacheKey::Avatar(id) => concat2("avatar_", id.as_str()),
            CacheKey::Attachment(id) => id.clone(),
        }
    }

    /// The name of this key's image file.
    pub fn image_file_name(&self) -> (out: String)
        ensures
            out@ == image_file(key_stem(self@)),
    {
        let stem = self.stem();
        concat2(stem.as_str(), ".png")
    }

    /// The name of this key's sidecar file.
    pub fn sidecar_file_name(&self) -> (out: String)
        ensures
            out@ == sidecar_file(key_stem(self@)),
    {
        let stem = self.stem();
        concat2(stem.as_str(), ".meta")
    }
}

/// Whether a file of this name belongs to an avatar.
pub fn is_avatar_file(name: &str) -> (r: bool)
    ensures
        r == is_avatar_name(name@),
{
    starts_with(name, "avatar_")
}

/// Whether a file of this name is a sidecar record.
pub fn is_sidecar_file(name: &str) -> (r: bool)
    ensures
        r == is_sidecar_name(name@),
{
    ends_with(name, ".meta")
}

} // verus!
