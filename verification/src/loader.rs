//! The load coordinator's bookkeeping: where each key of one kind stands
//! between being asked for and being ready to draw.
//!
//! A key goes from unrequested to loading and from there to ready or to
//! failed. While it is loading, the load is at one of three stages: waiting
//! for the disk to be read, for the bytes to be fetched, or for the processed
//! image to be written. A key that is ready or loading is never asked for
//! again, which is what keeps a second request from fetching a second time.

use vstd::prelude::*;
use crate::error::LoadError;
use crate::memory_cache::KeyedStore;
use crate::pixels::{ImageView, ProcessedImage};
use crate::transform::sizing::AttachmentSizing;
use crate::transform::SizedImage;

verus! {

/// Where a key stands.
#[derive(Clone, Copy, Debug, PartialEq, Eq, Structural)]
pub enum LoadState {
    /// Never asked for, or forgotten since.
    Unrequested,
    /// Asked for and not yet there.
    Loading,
    /// In memory, ready to draw.
    Ready,
    /// The last load failed. Asking again starts over.
    Failed(LoadError),
}

/// What a load in progress waits for.
#[derive(Clone, Copy, Debug, PartialEq, Eq, Structural)]
pub enum Stage {
    /// The two files of the key to be read from the cache directory.
    AwaitingDisk,
    /// The bytes to be fetched from the URL.
    AwaitingFetch,
    /// The processed image and its record to be written.
    AwaitingWrite,
}

/// An image in memory: the pixels, the handle that draws them and the
/// terminal cells they cover.
pub struct CachedEntry {
    image: ProcessedImage,
    handle: ratatui_image::protocol::StatefulProtocol,
    terminal_width: u16,
    terminal_height: u16,
}

/// An entry as a mathematical value. The handle is opaque and has no part in
/// it.
pub struct EntryView {
    pub image: ImageView,
    pub terminal_width: u16,
    pub terminal_height: u16,
}

impl View for CachedEntry {
    type V = EntryView;

    closed spec fn view(&self) -> EntryView {
        EntryView {
            image: self.image@,
            terminal_width: self.terminal_width,
            terminal_height: self.terminal_height,
        }
    }
}

impl View for SizedImage {
    type V = EntryView;

    open spec fn view(&self) -> EntryView {
        EntryView {
            image: self.image@,
            terminal_width: self.terminal_width,
            terminal_height: self.terminal_height,
        }
    }
}

impl CachedEntry {
    /// The handle that draws the image.
    pub closed spec fn handle(&self) -> ratatui_image::protocol::StatefulProtocol {
        self.handle
    }

    /// An entry of the sized image and the handle made for it.
    pub fn new(sized: SizedImage, handle: ratatui_image::protocol::StatefulProtocol) -> (entry:
        CachedEntry)
        ensures
            entry@ == sized@,
            entry.handle() == handle,
    {
        CachedEntry {
            image: sized.image,
            handle,
            terminal_width: sized.terminal_width,
            terminal_height: sized.terminal_height,
        }
    }

    /// The pixels.
    pub fn image(&self) -> (image: &ProcessedImage)
        ensures
            image@ == self@.image,
    {
        &self.image
    }

    /// The handle that draws the image, to be drawn through. What is handed
    /// out is the entry's own handle: whatever drawing makes of it is what
    /// the entry holds afterwards, and the image and its size in cells stay
    /// as they are.
    pub fn handle_mut(&mut self) -> (handle: &mut ratatui_image::protocol::StatefulProtocol)
        ensures
            *handle == old(self).handle(),
            final(self).handle() == *final(handle),
            final(self)@ == old(self)@,
    {
        &mut self.handle
    }

    /// Width in terminal cells.
    pub fn terminal_width(&self) -> (w: u16)
        ensures
            w == self@.terminal_width,
    {
        self.terminal_width
    }

    /// Height in terminal cells.
    pub fn terminal_height(&self) -> (h: u16)
        ensures
            h == self@.terminal_height,
    {
        self.terminal_height
    }
}

/// A load in progress.
pub struct Pending {
    url: String,
    sizing: Option<AttachmentSizing>,
    stage: Stage,
    staged: Option<SizedImage>,
}

/// A load in progress as a mathematical value.
pub struct PendingView {
    /// Where the bytes are fetched from, should the disk not have them.
    pub url: Seq<char>,
    /// The limits within which an attachment is shown; nothing for an avatar.
    pub sizing: Option<AttachmentSizing>,
    /// What the load waits for.
    pub stage: Stage,
    /// The processed image, while it is being written.
    pub staged: Option<EntryView>,
}

impl View for Pending {
    type V = PendingView;

    closed spec fn view(&self) -> PendingView {
        PendingView {
            url: self.url@,
            sizing: self.sizing,
            stage: self.stage,
            staged: match self.staged {
                Some(sized) => Some(sized@),
                None => None,
            },
        }
    }
}

impl PendingView {
    /// A processed image is held exactly while it is being written, and it
    /// is well formed.
    pub open spec fn wf(self) -> bool {
        &&& self.staged is Some <==> self.stage == Stage::AwaitingWrite
        &&& self.staged matches Some(entry) ==> entry.image.wf()
    }
}

/// The keys of one kind as a mathematical value: what is ready, what is
/// loading and what has failed.
pub struct CacheView {
    pub ready: Map<Seq<char>, EntryView>,
    pub loading: Map<Seq<char>, PendingView>,
    pub failed: Map<Seq<char>, LoadError>,
}

impl CacheView {
    /// Every image held is well formed, and every load is at a stage that
    /// agrees with what it holds.
    pub open spec fn wf(self) -> bool {
        &&& forall|id: Seq<char>| #[trigger]
            self.ready.dom().contains(id) ==> self.ready[id].image.wf()
        &&& forall|id: Seq<char>| #[trigger]
            self.loading.dom().contains(id) ==> self.loading[id].wf()
    }

    /// Where a key stands.
    pub open spec fn state_of(self, id: Seq<char>) -> LoadState {
        if self.ready.dom().contains(id) {
            LoadState::Ready
        } else if self.loading.dom().contains(id) {
            LoadState::Loading
        } else if self.failed.dom().contains(id) {
            LoadState::Failed(self.failed[id])
        } else {
            LoadState::Unrequested
        }
    }

    /// What the load of a key waits for, if the key is loading.
    pub open spec fn stage_of(self, id: Seq<char>) -> Option<Stage> {
        if self.loading.dom().contains(id) {
            Some(self.loading[id].stage)
        } else {
            None
        }
    }

    /// Whether a request for the key starts a load: not if the key is ready,
    /// and not if it is loading already.
    pub open spec fn admits(self, id: Seq<char>) -> bool {
        !self.ready.dom().contains(id) && !self.loading.dom().contains(id)
    }

    /// After a load of the key has begun.
    pub open spec fn begun(
        self,
        id: Seq<char>,
        url: Seq<char>,
        sizing: Option<AttachmentSizing>,
    ) -> CacheView {
        CacheView {
            ready: self.ready,
            loading: self.loading.insert(
                id,
                PendingView { url, sizing, stage: Stage::AwaitingDisk, staged: None },
            ),
            failed: self.failed.remove(id),
        }
    }

    /// After the disk was found not to hold the key.
    pub open spec fn fetching(self, id: Seq<char>) -> CacheView {
        CacheView {
            loading: self.loading.insert(
                id,
                PendingView { stage: Stage::AwaitingFetch, ..self.loading[id] },
            ),
            ..self
        }
    }

    /// After the fetched bytes were processed into `staged`.
    pub open spec fn writing(self, id: Seq<char>, staged: EntryView) -> CacheView {
        CacheView {
            loading: self.loading.insert(
                id,
                PendingView {
                    stage: Stage::AwaitingWrite,
                    staged: Some(staged),
                    ..self.loading[id]
                },
            ),
            ..self
        }
    }

    /// After the key's load was given up or taken over by the caller.
    pub open spec fn dropped(self, id: Seq<char>) -> CacheView {
        CacheView { loading: self.loading.remove(id), ..self }
    }

    /// After the key became ready with `entry`.
    pub open spec fn completed(self, id: Seq<char>, entry: EntryView) -> CacheView {
        CacheView {
            ready: self.ready.insert(id, entry),
            loading: self.loading.remove(id),
            failed: self.failed.remove(id),
        }
    }

    /// After the key's load failed with `error`.
    pub open spec fn failed_with(self, id: Seq<char>, error: LoadError) -> CacheView {
        CacheView {
            ready: self.ready,
            loading: self.loading.remove(id),
            failed: self.failed.insert(id, error),
        }
    }

    /// After memory was cleared: nothing is ready, and the loads in progress
    /// go on.
    pub open spec fn forgotten(self) -> CacheView {
        CacheView { ready: Map::empty(), ..self }
    }
}

/// What can happen to a key.
pub enum LoadEvent {
    /// The image was asked for.
    Requested { url: Seq<char>, sizing: Option<AttachmentSizing> },
    /// The cache directory could not be read.
    DiskFailed,
    /// The cache directory holds no valid pair of files for the key.
    DiskMissed,
    /// The cache directory held the image.
    DiskHit(EntryView),
    /// The bytes could not be fetched, or nothing could be made of them.
    FetchFailed(LoadError),
    /// The bytes were fetched and processed into an image.
    Processed(EntryView),
    /// The processed image could not be written.
    WriteFailed,
    /// The processed image was written.
    Written,
    /// Memory was cleared.
    MemoryCleared,
}

impl LoadEvent {
    /// Whether the event is a failure of the network, the decoder or the
    /// disk.
    pub open spec fn is_failure(self) -> bool {
        self is DiskFailed || self is FetchFailed || self is WriteFailed
    }
}

impl CacheView {
    /// Where the keys stand after an event on one of them. An event that the
    /// key does not wait for changes nothing.
    pub open spec fn after(self, id: Seq<char>, event: LoadEvent) -> CacheView {
        match event {
            LoadEvent::Requested { url, sizing } => if self.admits(id) {
                self.begun(id, url, sizing)
            } else {
                self
            },
            LoadEvent::DiskFailed => if self.stage_of(id) == Some(Stage::AwaitingDisk) {
                self.failed_with(id, LoadError::Io)
            } else {
                self
            },
            LoadEvent::DiskMissed => if self.stage_of(id) == Some(Stage::AwaitingDisk) {
                self.fetching(id)
            } else {
                self
            },
            LoadEvent::DiskHit(entry) => if self.stage_of(id) == Some(Stage::AwaitingDisk) {
                self.completed(id, entry)
            } else {
                self
            },
            LoadEvent::FetchFailed(error) => if self.stage_of(id) == Some(Stage::AwaitingFetch) {
                self.failed_with(id, error)
            } else {
                self
            },
            LoadEvent::Processed(staged) => if self.stage_of(id) == Some(Stage::AwaitingFetch) {
                self.writing(id, staged)
            } else {
                self
            },
            LoadEvent::WriteFailed => if self.stage_of(id) == Some(Stage::AwaitingWrite) {
                self.failed_with(id, LoadError::Io)
            } else {
                self
            },
            LoadEvent::Written => if self.stage_of(id) == Some(Stage::AwaitingWrite)
                && self.loading[id].staged is Some {
                self.completed(id, self.loading[id].staged->0)
            } else {
                self
            },
            LoadEvent::MemoryCleared => self.forgotten(),
        }
    }

    /// Whether an event on a key sends the caller to the network: only a
    /// miss on disk does, and only for a load that waits for the disk.
    pub open spec fn fetches_on(self, id: Seq<char>, event: LoadEvent) -> bool {
        event is DiskMissed && self.stage_of(id) == Some(Stage::AwaitingDisk)
    }

    /// The number of times a run of events on a key sends the caller to the
    /// network.
    pub open spec fn fetches(self, id: Seq<char>, events: Seq<LoadEvent>) -> nat
        decreases events.len(),
    {
        if events.len() == 0 {
            0
        } else {
            let now = if self.fetches_on(id, events.first()) {
                1nat
            } else {
                0nat
            };
            now + self.after(id, events.first()).fetches(id, events.drop_first())
        }
    }
}

/// A key that is past the disk, on its way to being ready or ready already,
/// is never fetched again for as long as nothing fails and memory is kept.
proof fn lemma_no_fetch_once_past_the_disk(v: CacheView, id: Seq<char>, events: Seq<LoadEvent>)
    requires
        forall|i: int| 0 <= i < events.len() ==> !(#[trigger] events[i]).is_failure() && !(events[i] is MemoryCleared),
        !v.admits(id),
        v.stage_of(id) != Some(Stage::AwaitingDisk),
    ensures
        v.fetches(id, events) == 0,
    decreases events.len(),
{
    if events.len() > 0 {
        let e = events.first();
        assert(e == events[0]);
        let next = v.after(id, e);
        assert forall|i: int| 0 <= i < events.drop_first().len() implies !(
        #[trigger] events.drop_first()[i]).is_failure() && !(events.drop_first()[i] is MemoryCleared) by {
            assert(events.drop_first()[i] == events[i + 1]);
        }
        lemma_no_fetch_once_past_the_disk(next, id, events.drop_first());
    }
}

/// Loading is idempotent. However often an image is asked for, and whatever
/// else happens to its key in between, the network is asked at most once for
/// as long as nothing fails and memory is kept.
pub proof fn lemma_at_most_one_fetch(v: CacheView, id: Seq<char>, events: Seq<LoadEvent>)
    requires
        forall|i: int| 0 <= i < events.len() ==> !(#[trigger] events[i]).is_failure() && !(events[i] is MemoryCleared),
    ensures
        v.fetches(id, events) <= 1,
    decreases events.len(),
{
    if events.len() > 0 {
        let e = events.first();
        assert(e == events[0]);
        let next = v.after(id, e);
        assert forall|i: int| 0 <= i < events.drop_first().len() implies !(
        #[trigger] events.drop_first()[i]).is_failure() && !(events.drop_first()[i] is MemoryCleared) by {
            assert(events.drop_first()[i] == events[i + 1]);
        }
        if v.fetches_on(id, e) {
            lemma_no_fetch_once_past_the_disk(next, id, events.drop_first());
        } else {
            lemma_at_most_one_fetch(next, id, events.drop_first());
        }
    }
}

/// Nothing is written that was not fetched, and nothing is fetched that
/// was found on disk: a load comes to wait for its write only from waiting
/// for the fetch, and to wait for the fetch only by a miss on disk.
pub proof fn lemma_stages_follow_in_order(v: CacheView, id: Seq<char>, event: LoadEvent)
    ensures
        v.after(id, event).stage_of(id) == Some(Stage::AwaitingWrite) && v.stage_of(id) != Some(
            Stage::AwaitingWrite,
        ) ==> event is Processed && v.stage_of(id) == Some(Stage::AwaitingFetch),
        v.after(id, event).stage_of(id) == Some(Stage::AwaitingFetch) && v.stage_of(id) != Some(
            Stage::AwaitingFetch,
        ) ==> event is DiskMissed && v.stage_of(id) == Some(Stage::AwaitingDisk),
        v.after(id, event).stage_of(id) == Some(Stage::AwaitingDisk) && v.stage_of(id) != Some(
            Stage::AwaitingDisk,
        ) ==> event is Requested && v.admits(id),
{
}

/// A load that fails leaves its key out of memory, so that asking for the
/// image again starts over: the key is failed with the error of the event,
/// and the next request for it begins a load.
pub proof fn lemma_failure_is_retried(
    v: CacheView,
    id: Seq<char>,
    event: LoadEvent,
    url: Seq<char>,
    sizing: Option<AttachmentSizing>,
)
    requires
        event.is_failure(),
        !v.ready.dom().contains(id),
        v.after(id, event) != v,
    ensures
        v.after(id, event).state_of(id) == LoadState::Failed(
            match event {
                LoadEvent::FetchFailed(error) => error,
                _ => LoadError::Io,
            },
        ),
        v.after(id, event).admits(id),
        v.after(id, event).after(id, LoadEvent::Requested { url, sizing }).state_of(id)
            == LoadState::Loading,
        v.after(id, event).after(id, LoadEvent::Requested { url, sizing }).stage_of(id) == Some(
            Stage::AwaitingDisk,
        ),
{
    let failed = v.after(id, event);
    assert(failed.loading =~= v.loading.remove(id));
}

/// Events keep the bookkeeping in order, as long as the images that they
/// bring are well formed.
pub proof fn lemma_events_keep_order(v: CacheView, id: Seq<char>, event: LoadEvent)
    requires
        v.wf(),
        event matches LoadEvent::DiskHit(entry) ==> entry.image.wf(),
        event matches LoadEvent::Processed(entry) ==> entry.image.wf(),
    ensures
        v.after(id, event).wf(),
{
    let next = v.after(id, event);
    assert forall|k: Seq<char>| #[trigger] next.ready.dom().contains(k) implies next.ready[k].image.wf() by {
        if k != id {
            assert(v.ready.dom().contains(k));
        } else if v.ready.dom().contains(k) && next.ready[k] == v.ready[k] {
        } else {
            if event is Written {
                assert(v.loading.dom().contains(id));
                assert(v.loading[id].wf());
            }
        }
    }
    assert forall|k: Seq<char>| #[trigger] next.loading.dom().contains(k) implies next.loading[k].wf() by {
        if k != id {
            assert(v.loading.dom().contains(k));
        } else if v.loading.dom().contains(k) {
            assert(v.loading[k].wf());
        }
    }
}

/// Memory is disposable. After it was cleared, whatever was ready is asked
/// for anew and found on disk or fetched: a request for it begins a load.
pub proof fn lemma_cleared_memory_is_loaded_anew(v: CacheView, id: Seq<char>)
    ensures
        v.forgotten().admits(id) == !v.loading.dom().contains(id),
        v.forgotten().loading == v.loading,
        v.forgotten().failed == v.failed,
{
}

/// Events on one key leave every other key as it is.
pub proof fn lemma_events_touch_one_key(
    v: CacheView,
    id: Seq<char>,
    other: Seq<char>,
    event: LoadEvent,
)
    requires
        other != id,
        !(event is MemoryCleared),
    ensures
        v.after(id, event).state_of(other) == v.state_of(other),
        v.after(id, event).stage_of(other) == v.stage_of(other),
{
}

/// A key that is ready or loading is not loaded again: a request for it
/// changes nothing.
pub proof fn lemma_request_is_a_no_op_once_begun(
    v: CacheView,
    id: Seq<char>,
    url: Seq<char>,
    sizing: Option<AttachmentSizing>,
    entry: EntryView,
)
    ensures
        !v.begun(id, url, sizing).admits(id),
        !v.completed(id, entry).admits(id),
        !v.admits(id) ==> v.after(id, LoadEvent::Requested { url, sizing }) == v,
        v.admits(id) ==> v.failed_with(id, LoadError::Network).admits(id),
{
}

/// The views of the entries of a store.
pub open spec fn entry_views(m: Map<Seq<char>, CachedEntry>) -> Map<Seq<char>, EntryView> {
    m.map_values(|e: CachedEntry| e@)
}

/// The views of the loads of a store.
pub open spec fn pending_views(m: Map<Seq<char>, Pending>) -> Map<Seq<char>, PendingView> {
    m.map_values(|p: Pending| p@)
}

/// The bookkeeping for the keys of one kind.
pub struct KindCache {
    ready: KeyedStore<CachedEntry>,
    loading: KeyedStore<Pending>,
    failed: KeyedStore<LoadError>,
}

impl View for KindCache {
    type V = CacheView;

    closed spec fn view(&self) -> CacheView {
        CacheView {
            ready: entry_views(self.ready@),
            loading: pending_views(self.loading@),
            failed: self.failed@,
        }
    }
}

impl KindCache {
    /// What is kept in memory under a key that is ready, handle and all.
    pub closed spec fn entry_of(&self, id: Seq<char>) -> CachedEntry {
        self.ready@[id]
    }

    /// The stores are in order.
    pub closed spec fn inv(&self) -> bool {
        self.ready.wf() && self.loading.wf() && self.failed.wf()
    }

    /// The bookkeeping is in order.
    pub open spec fn wf(&self) -> bool {
        self.inv() && self@.wf()
    }

    /// Bookkeeping in which nothing was ever asked for.
    pub fn new() -> (cache: KindCache)
        ensures
            cache.wf(),
            cache@.ready == Map::<Seq<char>, EntryView>::empty(),
            cache@.loading == Map::<Seq<char>, PendingView>::empty(),
            cache@.failed == Map::<Seq<char>, LoadError>::empty(),
    {
        let cache = KindCache {
            ready: KeyedStore::new(),
            loading: KeyedStore::new(),
            failed: KeyedStore::new(),
        };
        assert(cache@.ready =~= Map::<Seq<char>, EntryView>::empty());
        assert(cache@.loading =~= Map::<Seq<char>, PendingView>::empty());
        cache
    }

    /// Whether the key is ready: what is asked before any load.
    pub fn contains(&self, id: &str) -> (ready: bool)
        ensures
            ready == self@.ready.dom().contains(id@),
    {
        self.ready.contains(id)
    }

    /// Where a key stands.
    pub fn state(&self, id: &str) -> (state: LoadState)
        requires
            self.wf(),
        ensures
            state == self@.state_of(id@),
    {
        if self.ready.contains(id) {
            LoadState::Ready
        } else if self.loading.contains(id) {
            LoadState::Loading
        } else {
            match self.failed.get(id) {
                Some(error) => LoadState::Failed(*error),
                None => LoadState::Unrequested,
            }
        }
    }

    /// What the load of a key waits for, if the key is loading.
    pub fn stage(&self, id: &str) -> (stage: Option<Stage>)
        requires
            self.wf(),
        ensures
            stage == self@.stage_of(id@),
    {
        match self.loading.get(id) {
            Some(pending) => Some(pending.stage),
            None => None,
        }
    }

    /// The entry of a key, if the key is ready.
    pub fn get(&self, id: &str) -> (entry: Option<&CachedEntry>)
        requires
            self.wf(),
        ensures
            match entry {
                Some(e) => {
                    &&& self@.ready.dom().contains(id@)
                    &&& *e == self.entry_of(id@)
                    &&& e@ == self@.ready[id@]
                    &&& e@.image.wf()
                },
                None => !self@.ready.dom().contains(id@),
            },
    {
        self.ready.get(id)
    }

    /// The entry of a key, with its handle free to be drawn through, if the
    /// key is ready. Drawing changes nothing that this library sees.
    pub fn get_mut(&mut self, id: &str) -> (entry: Option<&mut CachedEntry>)
        requires
            old(self).wf(),
        ensures
            match entry {
                Some(e) => {
                    &&& old(self)@.ready.dom().contains(id@)
                    &&& *e == old(self).entry_of(id@)
                    &&& e@ == old(self)@.ready[id@]
                    &&& final(self).entry_of(id@) == *final(e)
                    &&& final(e)@ == e@ ==> final(self)@ == old(self)@ && final(self).wf()
                },
                None => !old(self)@.ready.dom().contains(id@) && *final(self) == *old(self),
            },
    {
        let ghost before = *self;
        let ghost after = *final(self);
        match self.ready.get_mut(id) {
            Some(e) => {
                assert(final(e)@ == e@ ==> entry_views(after.ready@) =~= entry_views(before.ready@));
                Some(e)
            },
            None => None,
        }
    }

    /// Begins a load of the key, unless the key is ready or loading already.
    /// Says whether a load was begun.
    pub fn begin(&mut self, id: &str, url: &str, sizing: Option<AttachmentSizing>) -> (started: bool)
        requires
            old(self).wf(),
        ensures
            final(self).wf(),
            started == old(self)@.admits(id@),
            final(self)@ == if started {
                old(self)@.begun(id@, url@, sizing)
            } else {
                old(self)@
            },
    {
        if self.ready.contains(id) || self.loading.contains(id) {
            return false;
        }
        let ghost before = *self;
        let pending = Pending {
            url: url.to_owned(),
            sizing,
            stage: Stage::AwaitingDisk,
            staged: None,
        };
        let _ = self.failed.remove(id);
        self.loading.insert(id, pending);
        proof {
            assert(self@.loading =~= before@.begun(id@, url@, sizing).loading);
        }
        true
    }

    /// The URL that a loading key is fetched from.
    pub fn url_of(&self, id: &str) -> (url: Option<String>)
        requires
            self.wf(),
        ensures
            match url {
                Some(u) => self@.loading.dom().contains(id@) && u@ == self@.loading[id@].url,
                None => !self@.loading.dom().contains(id@),
            },
    {
        match self.loading.get(id) {
            Some(pending) => Some(pending.url.clone()),
            None => None,
        }
    }

    /// The limits within which a loading key is shown.
    pub fn sizing_of(&self, id: &str) -> (sizing: Option<AttachmentSizing>)
        requires
            self.wf(),
        ensures
            sizing == if self@.loading.dom().contains(id@) {
                self@.loading[id@].sizing
            } else {
                None
            },
    {
        match self.loading.get(id) {
            Some(pending) => pending.sizing,
            None => None,
        }
    }

    /// Moves a load that waits for the disk on to waiting for the fetch, and
    /// gives the URL to fetch. Any other key is left as it is.
    pub fn await_fetch(&mut self, id: &str) -> (url: Option<String>)
        requires
            old(self).wf(),
        ensures
            final(self).wf(),
            match url {
                Some(u) => {
                    &&& old(self)@.stage_of(id@) == Some(Stage::AwaitingDisk)
                    &&& u@ == old(self)@.loading[id@].url
                    &&& final(self)@ == old(self)@.fetching(id@)
                },
                None => old(self)@.stage_of(id@) != Some(Stage::AwaitingDisk) && final(self)@ == old(
                    self,
                )@,
            },
    {
        let ghost before = *self;
        match self.stage(id) {
            Some(Stage::AwaitingDisk) => {},
            _ => {
                return None;
            },
        }
        let taken = self.loading.remove(id);
        let pending = taken.unwrap();
        let url = pending.url.clone();
        let moved = Pending { stage: Stage::AwaitingFetch, ..pending };
        self.loading.insert(id, moved);
        proof {
            assert(self@.loading =~= before@.fetching(id@).loading);
        }
        Some(url)
    }

    /// Moves a load that waits for the fetch on to waiting for the write of
    /// `staged`. Says whether it did; any other key is left as it is.
    pub fn await_write(&mut self, id: &str, staged: SizedImage) -> (moved: bool)
        requires
            old(self).wf(),
            staged.image.wf(),
        ensures
            final(self).wf(),
            moved == (old(self)@.stage_of(id@) == Some(Stage::AwaitingFetch)),
            final(self)@ == if moved {
                old(self)@.writing(id@, staged@)
            } else {
                old(self)@
            },
    {
        let ghost before = *self;
        match self.stage(id) {
            Some(Stage::AwaitingFetch) => {},
            _ => {
                return false;
            },
        }
        let taken = self.loading.remove(id);
        let pending = taken.unwrap();
        let moved = Pending { stage: Stage::AwaitingWrite, staged: Some(staged), ..pending };
        self.loading.insert(id, moved);
        proof {
            assert(self@.loading =~= before@.writing(id@, staged@).loading);
        }
        true
    }

    /// Takes the processed image of a load that waits for its write, and
    /// with it the load itself: the key is no longer loading. Any other key
    /// is left as it is.
    pub fn take_staged(&mut self, id: &str) -> (staged: Option<SizedImage>)
        requires
            old(self).wf(),
        ensures
            final(self).wf(),
            match staged {
                Some(sized) => {
                    &&& old(self)@.stage_of(id@) == Some(Stage::AwaitingWrite)
                    &&& Some(sized@) == old(self)@.loading[id@].staged
                    &&& sized.image.wf()
                    &&& final(self)@ == old(self)@.dropped(id@)
                },
                None => old(self)@.stage_of(id@) != Some(Stage::AwaitingWrite) && final(self)@ == old(
                    self,
                )@,
            },
    {
        let ghost before = *self;
        match self.stage(id) {
            Some(Stage::AwaitingWrite) => {},
            _ => {
                return None;
            },
        }
        let taken = self.loading.remove(id);
        let pending = taken.unwrap();
        proof {
            assert(before@.loading.dom().contains(id@));
            assert(before@.loading[id@].wf());
            assert(self@.loading =~= before@.dropped(id@).loading);
        }
        pending.staged
    }

    /// Makes the key ready with `entry`, whatever it was before.
    pub fn complete(&mut self, id: &str, entry: CachedEntry)
        requires
            old(self).wf(),
            entry@.image.wf(),
        ensures
            final(self).wf(),
            final(self)@ == old(self)@.completed(id@, entry@),
            final(self).entry_of(id@) == entry,
    {
        let ghost before = *self;
        let _ = self.loading.remove(id);
        let _ = self.failed.remove(id);
        self.ready.insert(id, entry);
        proof {
            assert(self@.ready =~= before@.completed(id@, entry@).ready);
            assert(self@.loading =~= before@.completed(id@, entry@).loading);
        }
    }

    /// Records that the load of the key failed. The key is not made ready,
    /// so that asking for it again starts over.
    pub fn fail(&mut self, id: &str, error: LoadError)
        requires
            old(self).wf(),
        ensures
            final(self).wf(),
            final(self)@ == old(self)@.failed_with(id@, error),
    {
        let ghost before = *self;
        let _ = self.loading.remove(id);
        self.failed.insert(id, error);
        proof {
            assert(self@.loading =~= before@.failed_with(id@, error).loading);
        }
    }

    /// Forgets every entry in memory. Loads in progress go on.
    pub fn clear_ready(&mut self)
        requires
            old(self).wf(),
        ensures
            final(self).wf(),
            final(self)@ == old(self)@.forgotten(),
    {
        let ghost before = *self;
        self.ready.clear();
        assert(self@.ready =~= Map::<Seq<char>, EntryView>::empty());
        assert(self@.loading == before@.loading);
    }
}

} // verus!
