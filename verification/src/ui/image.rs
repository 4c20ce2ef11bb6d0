//! The image renderer: the two-tier image cache as the rest of the client
//! sees it.
//!
//! The renderer owns the memory tier and the protocol adapter. It decides
//! what is loaded and when, and leaves every wait to its caller: a request
//! is answered with an action, and the caller reports back what came of the
//! action until no action is left.

use vstd::prelude::*;
use crate::coordinator::{
    after_request, answer_view, disk_read, disk_read_outcome, fetched, fetched_outcome, key_id,
    request, request_answer, write_event, written, DiskRead, FetchOutcome, LoadAction,
    WriteOutcome,
};
use crate::disk_cache::clear::{clear_plan, names_view, removed_names, ClearScope};
use crate::disk_cache::listing::{listing_view, stats, FileEntry};
use crate::disk_cache::names::{CacheKey, CacheKeyView};
use crate::error::LoadError;
use crate::loader::{CacheView, KindCache, LoadState};
use crate::protocol::{protocol_name_of, ProtocolAdapter, ProtocolKind};
use crate::text::chars_of;
use crate::transform::sizing::AttachmentSizing;

pub use crate::disk_cache::listing::CacheStats;

verus! {

/// Which of the five default avatars a user without an avatar of their own
/// is shown: the last character of the id, if it is a digit, modulo five.
pub open spec fn default_avatar_index(user_id: Seq<char>) -> nat {
    if user_id.len() == 0 {
        0
    } else {
        let c = user_id.last() as u32;
        if 48 <= c <= 57 {
            ((c - 48) % 5) as nat
        } else {
            0
        }
    }
}

/// The name of a default avatar.
pub open spec fn default_avatar_name(index: nat) -> Seq<char> {
    if index == 0 {
        "0"@
    } else if index == 1 {
        "1"@
    } else if index == 2 {
        "2"@
    } else if index == 3 {
        "3"@
    } else {
        "4"@
    }
}

/// Where the avatar of a user is fetched from: the user's own avatar where
/// the user has one, and one of the default avatars otherwise.
pub open spec fn avatar_url(user_id: Seq<char>, avatar_hash: Option<Seq<char>>) -> Seq<char> {
    match avatar_hash {
        Some(hash) => "https://cdn.discordapp.com/avatars/"@ + user_id + "/"@ + hash
            + ".png?size=128"@,
        None => "https://cdn.discordapp.com/embed/avatars/"@ + default_avatar_name(
            default_avatar_index(user_id),
        ) + ".png"@,
    }
}

/// The view of a string that may be absent.
pub open spec fn text_view(text: Option<&str>) -> Option<Seq<char>> {
    match text {
        Some(t) => Some(t@),
        None => None,
    }
}

/// The images of the client: what is in memory, what is on its way there,
/// and the terminal's means of showing them.
pub struct ImageRenderer {
    adapter: ProtocolAdapter,
    avatars: KindCache,
    attachments: KindCache,
}

impl ImageRenderer {
    /// Where the avatars stand, by user id.
    pub closed spec fn avatars(&self) -> CacheView {
        self.avatars@
    }

    /// Where the attachments stand, by attachment id.
    pub closed spec fn attachments(&self) -> CacheView {
        self.attachments@
    }

    /// The protocol in use.
    pub closed spec fn protocol(&self) -> ProtocolKind {
        self.adapter.kind()
    }

    /// Width and height of a terminal cell, in pixels.
    pub closed spec fn cell(&self) -> (u16, u16) {
        self.adapter.cell_size()
    }

    /// Whether the terminal shows images as images.
    pub open spec fn supported(&self) -> bool {
        self.protocol() != ProtocolKind::Halfblocks
    }

    /// Where the keys of the kind of `key` stand.
    pub open spec fn cache_of(&self, key: CacheKeyView) -> CacheView {
        match key {
            CacheKeyView::Avatar(_) => self.avatars(),
            CacheKeyView::Attachment(_) => self.attachments(),
        }
    }

    /// Where the keys of the other kind stand.
    pub open spec fn other_cache(&self, key: CacheKeyView) -> CacheView {
        match key {
            CacheKeyView::Avatar(_) => self.attachments(),
            CacheKeyView::Attachment(_) => self.avatars(),
        }
    }

    /// The stores are in order.
    pub closed spec fn inv(&self) -> bool {
        self.avatars.inv() && self.attachments.inv()
    }

    /// The renderer is in order.
    pub open spec fn wf(&self) -> bool {
        self.inv() && self.avatars().wf() && self.attachments().wf()
    }

    /// A renderer for the terminal that `picker` was made for, with nothing
    /// in memory.
    pub fn new(picker: ratatui_image::picker::Picker) -> (renderer: ImageRenderer)
        ensures
            renderer.wf(),
            forall|key: CacheKeyView|
                (#[trigger] renderer.cache_of(key)).state_of(key_id(key)) == LoadState::Unrequested,
    {
        ImageRenderer {
            adapter: ProtocolAdapter::new(picker),
            avatars: KindCache::new(),
            attachments: KindCache::new(),
        }
    }

    /// Whether the terminal shows images as images. Where it does not, the
    /// screens reserve no room for images.
    pub fn is_supported(&self) -> (yes: bool)
        ensures
            yes == self.supported(),
    {
        self.adapter.is_supported()
    }

    /// The name of the protocol in use.
    pub fn protocol_name(&self) -> (name: &'static str)
        ensures
            name@ == protocol_name_of(self.protocol()),
    {
        self.adapter.protocol_name()
    }

    /// Width and height of a terminal cell, in pixels.
    pub fn cell_size(&self) -> (size: (u16, u16))
        ensures
            size == self.cell(),
    {
        (self.adapter.cell_width(), self.adapter.cell_height())
    }

    /// Where the avatar of a user is fetched from. The answer depends on the
    /// id and the hash alone.
    pub fn get_avatar_url(user_id: &str, avatar_hash: Option<&str>) -> (url: String)
        ensures
            url@ == avatar_url(user_id@, text_view(avatar_hash)),
    {
        match avatar_hash {
            Some(hash) => {
                let mut url = "https://cdn.discordapp.com/avatars/".to_owned();
                url.append(user_id);
                url.append("/");
                url.append(hash);
                url.append(".png?size=128");
                url
            },
            None => {
                let name = Self::default_avatar(user_id);
                let mut url = "https://cdn.discordapp.com/embed/avatars/".to_owned();
                url.append(name);
                url.append(".png");
                url
            },
        }
    }

    /// The name of the default avatar of a user.
    fn default_avatar(user_id: &str) -> (name: &'static str)
        ensures
            name@ == default_avatar_name(default_avatar_index(user_id@)),
    {
        let chars = chars_of(user_id);
        let index: u32 = if chars.len() == 0 {
            0
        } else {
            let last: char = chars[chars.len() - 1];
            assert(last == user_id@.last());
            let c: u32 = last as u32;
            if 48 <= c && c <= 57 {
                (c - 48) % 5
            } else {
                0
            }
        };
        assert(index == default_avatar_index(user_id@));
        if index == 0 {
            "0"
        } else if index == 1 {
            "1"
        } else if index == 2 {
            "2"
        } else if index == 3 {
            "3"
        } else {
            "4"
        }
    }

    /// Whether the image of a key is in memory: what is asked before any
    /// load.
    pub fn contains(&self, key: &CacheKey) -> (ready: bool)
        ensures
            ready == self.cache_of(key@).ready.dom().contains(key_id(key@)),
    {
        match key {
            CacheKey::Avatar(id) => self.avatars.contains(id.as_str()),
            CacheKey::Attachment(id) => self.attachments.contains(id.as_str()),
        }
    }

    /// Where a key stands.
    pub fn state_of(&self, key: &CacheKey) -> (state: LoadState)
        requires
            self.wf(),
        ensures
            state == self.cache_of(key@).state_of(key_id(key@)),
    {
        match key {
            CacheKey::Avatar(id) => self.avatars.state(id.as_str()),
            CacheKey::Attachment(id) => self.attachments.state(id.as_str()),
        }
    }

    /// Asks for the avatar of a user.
    ///
    /// Nothing is done for an avatar that is in memory or on its way there,
    /// whatever the terminal and whatever the hash. Otherwise a load begins,
    /// with reading the disk; on a terminal that shows no images the
    /// request is refused instead.
    pub fn load_avatar(&mut self, user_id: &str, avatar_hash: Option<&str>) -> (out: Result<
        LoadAction,
        LoadError,
    >)
        requires
            old(self).wf(),
        ensures
            final(self).wf(),
            final(self).protocol() == old(self).protocol(),
            final(self).attachments() == old(self).attachments(),
            answer_view(out) == request_answer(
                old(self).avatars().admits(user_id@),
                old(self).supported(),
                CacheKeyView::Avatar(user_id@),
            ),
            final(self).avatars() == after_request(
                old(self).avatars(),
                old(self).supported(),
                user_id@,
                avatar_url(user_id@, text_view(avatar_hash)),
                None,
            ),
    {
        let url = Self::get_avatar_url(user_id, avatar_hash);
        let key = CacheKey::Avatar(user_id.to_owned());
        let supported = self.adapter.is_supported();
        request(&mut self.avatars, supported, &key, url.as_str(), None)
    }

    /// Asks for an attachment, to be shown within the given limits.
    ///
    /// Nothing is done for an attachment that is in memory or on its way
    /// there, whatever the terminal, the URL and the limits: it stays as it
    /// was first shown. Otherwise a load begins, with reading the disk; on
    /// a terminal that shows no images the request is refused instead.
    pub fn load_attachment(&mut self, attachment_id: &str, url: &str, sizing: AttachmentSizing) -> (out:
        Result<LoadAction, LoadError>)
        requires
            old(self).wf(),
        ensures
            final(self).wf(),
            final(self).protocol() == old(self).protocol(),
            final(self).avatars() == old(self).avatars(),
            answer_view(out) == request_answer(
                old(self).attachments().admits(attachment_id@),
                old(self).supported(),
                CacheKeyView::Attachment(attachment_id@),
            ),
            final(self).attachments() == after_request(
                old(self).attachments(),
                old(self).supported(),
                attachment_id@,
                url@,
                Some(sizing),
            ),
    {
        let key = CacheKey::Attachment(attachment_id.to_owned());
        let supported = self.adapter.is_supported();
        request(&mut self.attachments, supported, &key, url, Some(sizing))
    }

    /// Takes what was read of the two files of a key, and says what to do
    /// next.
    pub fn disk_read(&mut self, key: &CacheKey, read: DiskRead) -> (action: LoadAction)
        requires
            old(self).wf(),
        ensures
            final(self).wf(),
            final(self).protocol() == old(self).protocol(),
            final(self).other_cache(key@) == old(self).other_cache(key@),
            disk_read_outcome(
                old(self).cache_of(key@),
                key@,
                read,
                final(self).cache_of(key@),
                action@,
            ),
    {
        match key {
            CacheKey::Avatar(_) => disk_read(&mut self.avatars, &self.adapter, key, read),
            CacheKey::Attachment(_) => disk_read(&mut self.attachments, &self.adapter, key, read),
        }
    }

    /// Takes what came of the fetch for a key, and says what to do next.
    pub fn fetched(&mut self, key: &CacheKey, outcome: FetchOutcome) -> (action: LoadAction)
        requires
            old(self).wf(),
        ensures
            final(self).wf(),
            final(self).protocol() == old(self).protocol(),
            final(self).other_cache(key@) == old(self).other_cache(key@),
            fetched_outcome(
                old(self).cache_of(key@),
                key@,
                outcome,
                final(self).cache_of(key@),
                action@,
            ),
    {
        match key {
            CacheKey::Avatar(_) => fetched(&mut self.avatars, key, outcome),
            CacheKey::Attachment(_) => fetched(&mut self.attachments, key, outcome),
        }
    }

    /// Takes the report on the write of a key. After a good write the image
    /// is in memory; after a bad one it is not, and asking again starts
    /// over.
    pub fn written(&mut self, key: &CacheKey, outcome: WriteOutcome)
        requires
            old(self).wf(),
        ensures
            final(self).wf(),
            final(self).protocol() == old(self).protocol(),
            final(self).other_cache(key@) == old(self).other_cache(key@),
            final(self).cache_of(key@) == old(self).cache_of(key@).after(
                key_id(key@),
                write_event(outcome),
            ),
    {
        match key {
            CacheKey::Avatar(_) => written(&mut self.avatars, &self.adapter, key, outcome),
            CacheKey::Attachment(_) => written(&mut self.attachments, &self.adapter, key, outcome),
        }
    }

    /// The statistics of the cache directory at `cache_path`, from a listing
    /// of it.
    pub fn get_cache_stats(entries: &Vec<FileEntry>, cache_path: &str) -> (out: CacheStats)
        ensures
            out.describes(listing_view(entries@)),
            out.cache_path@ == cache_path@,
    {
        stats(entries, cache_path)
    }

    /// Clears the whole cache: forgets what is in memory and names every
    /// entry of the listing for deletion.
    pub fn clear_cache(&mut self, entries: &Vec<FileEntry>) -> (names: Vec<String>)
        requires
            old(self).wf(),
        ensures
            final(self).wf(),
            final(self).protocol() == old(self).protocol(),
            final(self).avatars() == old(self).avatars().forgotten(),
            final(self).attachments() == old(self).attachments().forgotten(),
            names_view(names@) == removed_names(ClearScope::All, listing_view(entries@)),
    {
        self.avatars.clear_ready();
        self.attachments.clear_ready();
        clear_plan(entries, ClearScope::All)
    }

    /// Clears the avatars: forgets those in memory and names the avatar
    /// files of the listing for deletion. Attachments are left alone.
    pub fn clear_avatar_cache(&mut self, entries: &Vec<FileEntry>) -> (names: Vec<String>)
        requires
            old(self).wf(),
        ensures
            final(self).wf(),
            final(self).protocol() == old(self).protocol(),
            final(self).avatars() == old(self).avatars().forgotten(),
            final(self).attachments() == old(self).attachments(),
            names_view(names@) == removed_names(ClearScope::Avatars, listing_view(entries@)),
    {
        self.avatars.clear_ready();
        clear_plan(entries, ClearScope::Avatars)
    }

    /// Clears the attachments: forgets those in memory and names the
    /// attachment files of the listing for deletion. Avatars are left alone.
    pub fn clear_attachment_cache(&mut self, entries: &Vec<FileEntry>) -> (names: Vec<String>)
        requires
            old(self).wf(),
        ensures
            final(self).wf(),
            final(self).protocol() == old(self).protocol(),
            final(self).attachments() == old(self).attachments().forgotten(),
            final(self).avatars() == old(self).avatars(),
            names_view(names@) == removed_names(ClearScope::Attachments, listing_view(entries@)),
    {
        self.attachments.clear_ready();
        clear_plan(entries, ClearScope::Attachments)
    }

    /// Forgets what is in memory. What is on disk stays, and fills memory
    /// again when it is next asked for.
    pub fn clear_memory_cache(&mut self)
        requires
            old(self).wf(),
        ensures
            final(self).wf(),
            final(self).protocol() == old(self).protocol(),
            final(self).avatars() == old(self).avatars().forgotten(),
            final(self).attachments() == old(self).attachments().forgotten(),
    {
        self.avatars.clear_ready();
        self.attachments.clear_ready();
    }

    /// The handle kept for the avatar of a user.
    pub closed spec fn avatar_handle(&self, user_id: Seq<char>) -> ratatui_image::protocol::StatefulProtocol {
        self.avatars.entry_of(user_id).handle()
    }

    /// The handle for drawing the avatar of a user, if the avatar is in
    /// memory: the one that was made when the avatar was loaded, handed out
    /// to be drawn through. What drawing makes of it is kept; nothing else
    /// changes.
    pub fn get_avatar(&mut self, user_id: &str) -> (handle: Option<
        &mut ratatui_image::protocol::StatefulProtocol,
    >)
        requires
            old(self).wf(),
        ensures
            match handle {
                Some(h) => {
                    &&& old(self).avatars().ready.dom().contains(user_id@)
                    &&& *h == old(self).avatar_handle(user_id@)
                    &&& final(self).avatar_handle(user_id@) == *final(h)
                },
                None => !old(self).avatars().ready.dom().contains(user_id@),
            },
            final(self).wf(),
            final(self).protocol() == old(self).protocol(),
            final(self).avatars() == old(self).avatars(),
            final(self).attachments() == old(self).attachments(),
    {
        match self.avatars.get_mut(user_id) {
            Some(entry) => Some(entry.handle_mut()),
            None => None,
        }
    }

    /// A fresh handle for drawing an attachment, if the attachment is in
    /// memory.
    pub fn get_attachment(&self, attachment_id: &str) -> (handle: Option<
        ratatui_image::protocol::StatefulProtocol,
    >)
        requires
            self.wf(),
        ensures
            handle is Some <==> self.attachments().ready.dom().contains(attachment_id@),
    {
        match self.attachments.get(attachment_id) {
            Some(entry) => Some(self.adapter.make_render_handle(entry.image())),
            None => None,
        }
    }

    /// The height of an attachment in terminal cells, if the attachment is
    /// in memory.
    pub fn get_attachment_height(&self, attachment_id: &str) -> (height: Option<u16>)
        requires
            self.wf(),
        ensures
            height == if self.attachments().ready.dom().contains(attachment_id@) {
                Some(self.attachments().ready[attachment_id@].terminal_height)
            } else {
                None
            },
    {
        match self.attachments.get(attachment_id) {
            Some(entry) => Some(entry.terminal_height()),
            None => None,
        }
    }

    /// The width of an attachment in terminal cells, if the attachment is in
    /// memory.
    pub fn get_attachment_width(&self, attachment_id: &str) -> (width: Option<u16>)
        requires
            self.wf(),
        ensures
            width == if self.attachments().ready.dom().contains(attachment_id@) {
                Some(self.attachments().ready[attachment_id@].terminal_width)
            } else {
                None
            },
    {
        match self.attachments.get(attachment_id) {
            Some(entry) => Some(entry.terminal_width()),
            None => None,
        }
    }
}

} // verus!
