//! The load coordinator: what to do next for a key, given what just happened
//! to it.
//!
//! The caller does the waiting: it reads the disk, fetches from the network
//! and writes files, and after each of these it reports here what came of
//! it. Every answer is an action for the caller to perform next, or none
//! when the load has come to its end, one way or the other.

use vstd::prelude::*;
use crate::disk_cache::entry::{file_view, get, plan_for, put, stored_entry, WritePlan, WritePlanView};
use crate::disk_cache::names::{image_file, key_stem, sidecar_file, CacheKey, CacheKeyView};
use crate::codec::{png_encoding, resamples};
use crate::error::LoadError;
use crate::loader::{CacheView, CachedEntry, EntryView, KindCache, LoadEvent, Stage};
use crate::pixels::{ImageView, ProcessedImage};
use crate::protocol::ProtocolAdapter;
use crate::transform::sizing::{lemma_target_covers_itself, AttachmentSizing};
use crate::transform::mask::masked;
use crate::transform::{
    can_resample, decode, decoded_image, fits_limits, is_avatar_image, resize_for_attachment,
    resize_for_avatar, SizedImage, AVATAR_SIZE,
};

verus! {

/// Width, in terminal cells, at which an avatar is shown.
pub const AVATAR_DISPLAY_WIDTH: u16 = 5;

/// Height, in terminal cells, at which an avatar is shown.
pub const AVATAR_DISPLAY_HEIGHT: u16 = 4;

/// What the caller is to do next for a key.
pub enum LoadAction {
    /// Nothing: the image is ready, is being loaded already, or has failed.
    Nothing,
    /// Read the two files of the key and report with what was found.
    ReadDisk { image_file: String, sidecar_file: String },
    /// Fetch the bytes at the URL and report with them.
    Fetch { url: String },
    /// Write the image file, then the sidecar, and report whether it went
    /// well.
    WriteDisk(WritePlan),
}

/// An action as a mathematical value.
pub enum ActionView {
    Nothing,
    ReadDisk { image_file: Seq<char>, sidecar_file: Seq<char> },
    Fetch { url: Seq<char> },
    WriteDisk(WritePlanView),
}

impl View for LoadAction {
    type V = ActionView;

    open spec fn view(&self) -> ActionView {
        match *self {
            LoadAction::Nothing => ActionView::Nothing,
            LoadAction::ReadDisk { image_file, sidecar_file } => ActionView::ReadDisk {
                image_file: image_file@,
                sidecar_file: sidecar_file@,
            },
            LoadAction::Fetch { url } => ActionView::Fetch { url: url@ },
            LoadAction::WriteDisk(plan) => ActionView::WriteDisk(plan@),
        }
    }
}

/// What came of reading the two files of a key.
pub enum DiskRead {
    /// The directory could not be read.
    Failed,
    /// What was found of each file; `None` stands for a file that is not
    /// there.
    Found { image: Option<Vec<u8>>, sidecar: Option<Vec<u8>> },
}

/// What came of fetching a URL.
pub enum FetchOutcome {
    /// The network failed.
    Failed,
    /// The bytes that were fetched.
    Bytes(Vec<u8>),
}

/// What came of writing the two files of a key.
#[derive(Clone, Copy, Debug, PartialEq, Eq, Structural)]
pub enum WriteOutcome {
    /// A file could not be written.
    Failed,
    /// Both files were written.
    Done,
}

/// The id within a key.
pub open spec fn key_id(key: CacheKeyView) -> Seq<char> {
    match key {
        CacheKeyView::Avatar(id) => id,
        CacheKeyView::Attachment(id) => id,
    }
}

/// The id within a key.
pub fn id_of(key: &CacheKey) -> (id: &str)
    ensures
        id@ == key_id(key@),
{
    match key {
        CacheKey::Avatar(id) => id.as_str(),
        CacheKey::Attachment(id) => id.as_str(),
    }
}

/// The action that answers a request.
pub open spec fn request_action(admitted: bool, key: CacheKeyView) -> ActionView {
    if admitted {
        ActionView::ReadDisk {
            image_file: image_file(key_stem(key)),
            sidecar_file: sidecar_file(key_stem(key)),
        }
    } else {
        ActionView::Nothing
    }
}

/// How an image is shown within the limits of an attachment: at the size
/// and on the cells that the limits give it, and as it is where that is the
/// size it has.
pub open spec fn shows_within(limits: AttachmentSizing, source: ImageView, entry: EntryView) -> bool {
    &&& (
        entry.image.width,
        entry.image.height,
        entry.terminal_width as nat,
        entry.terminal_height as nat,
    ) == limits.target(source.width, source.height)
    &&& limits.keeps_size(source.width, source.height) ==> entry.image == source
}

/// How `source`, an image found on disk, is shown: as it is. It was
/// processed before it was stored. An avatar is shown on the cells of an
/// avatar, an attachment on the cells that cover it.
pub open spec fn shown_stored(sizing: Option<AttachmentSizing>, source: ImageView) -> EntryView {
    match sizing {
        Some(limits) => EntryView {
            image: source,
            terminal_width: limits.cover(source.width, source.height).0 as u16,
            terminal_height: limits.cover(source.width, source.height).1 as u16,
        },
        None => EntryView {
            image: source,
            terminal_width: AVATAR_DISPLAY_WIDTH,
            terminal_height: AVATAR_DISPLAY_HEIGHT,
        },
    }
}

/// Whether this machine can process a freshly fetched image into what is
/// shown of it: an attachment has the size it is shown at already or can be
/// resampled to it, and an avatar can be resampled to the avatar size.
pub open spec fn processable(sizing: Option<AttachmentSizing>, source: ImageView) -> bool {
    match sizing {
        Some(limits) => fits_limits(limits, source.width, source.height),
        None => resamples(source.width, AVATAR_SIZE as nat),
    }
}

/// Whether `entry` is how `source`, a freshly fetched image, is shown. An
/// attachment is brought within its limits. An avatar is made square and
/// round, and one that comes at the avatar size is only made round.
pub open spec fn shows_fetched(
    sizing: Option<AttachmentSizing>,
    source: ImageView,
    entry: EntryView,
) -> bool {
    &&& entry.image.wf()
    &&& match sizing {
        Some(limits) => shows_within(limits, source, entry),
        None => {
            &&& is_avatar_image(entry.image)
            &&& source.width == AVATAR_SIZE && source.height == AVATAR_SIZE ==> entry.image
                == masked(source)
            &&& entry.terminal_width == AVATAR_DISPLAY_WIDTH
            &&& entry.terminal_height == AVATAR_DISPLAY_HEIGHT
        },
    }
}

/// The image that the two files of a key hold, where they are a valid
/// entry: both are there, the record reads as a size, and the image file
/// decodes to an image of that size.
pub open spec fn valid_entry(image: Option<Seq<u8>>, sidecar: Option<Seq<u8>>) -> Option<ImageView> {
    match stored_entry(image, sidecar) {
        Some((bytes, width, height)) => match decoded_image(bytes) {
            Some(source) => if source.width == width && source.height == height {
                Some(source)
            } else {
                None
            },
            None => None,
        },
        None => None,
    }
}

/// What answers a request: nothing to do for a key that is ready or
/// loading, a refusal for any other key where the terminal shows no images,
/// and the order to read the disk otherwise.
pub open spec fn request_answer(admitted: bool, supported: bool, key: CacheKeyView) -> Result<
    ActionView,
    LoadError,
> {
    if admitted && !supported {
        Err(LoadError::UnsupportedProtocol)
    } else {
        Ok(request_action(admitted, key))
    }
}

/// Where the keys stand after a request.
pub open spec fn after_request(
    pre: CacheView,
    supported: bool,
    id: Seq<char>,
    url: Seq<char>,
    sizing: Option<AttachmentSizing>,
) -> CacheView {
    if supported {
        pre.after(id, LoadEvent::Requested { url, sizing })
    } else {
        pre
    }
}

/// The view of an answer.
pub open spec fn answer_view(out: Result<LoadAction, LoadError>) -> Result<ActionView, LoadError> {
    match out {
        Ok(action) => Ok(action@),
        Err(e) => Err(e),
    }
}

/// Answers a request for an image. A key that is ready or loading needs
/// nothing done, whatever the terminal. For any other key a load begins,
/// and it begins on disk; where the terminal shows no images, the request
/// is refused instead.
pub fn request(
    cache: &mut KindCache,
    supported: bool,
    key: &CacheKey,
    url: &str,
    sizing: Option<AttachmentSizing>,
) -> (out: Result<LoadAction, LoadError>)
    requires
        old(cache).wf(),
    ensures
        final(cache).wf(),
        answer_view(out) == request_answer(old(cache)@.admits(key_id(key@)), supported, key@),
        final(cache)@ == after_request(old(cache)@, supported, key_id(key@), url@, sizing),
{
    let id = id_of(key);
    if cache.contains(id) || cache.stage(id).is_some() {
        return Ok(LoadAction::Nothing);
    }
    if !supported {
        return Err(LoadError::UnsupportedProtocol);
    }
    let _ = cache.begin(id, url, sizing);
    Ok(
        LoadAction::ReadDisk {
            image_file: key.image_file_name(),
            sidecar_file: key.sidecar_file_name(),
        },
    )
}

/// Records that the cache directory could not be read.
pub fn disk_failed(cache: &mut KindCache, key: &CacheKey)
    requires
        old(cache).wf(),
    ensures
        final(cache).wf(),
        final(cache)@ == old(cache)@.after(key_id(key@), LoadEvent::DiskFailed),
{
    let id = id_of(key);
    match cache.stage(id) {
        Some(Stage::AwaitingDisk) => {
            cache.fail(id, LoadError::Io);
        },
        _ => {},
    }
}

/// The action after an event that may send the caller to the network.
pub open spec fn fetch_action(fetches: bool, url: Seq<char>) -> ActionView {
    if fetches {
        ActionView::Fetch { url }
    } else {
        ActionView::Nothing
    }
}

/// Records that the disk holds no valid entry for the key, and sends the
/// caller to the network for it.
pub fn disk_missed(cache: &mut KindCache, key: &CacheKey) -> (action: LoadAction)
    requires
        old(cache).wf(),
    ensures
        final(cache).wf(),
        final(cache)@ == old(cache)@.after(key_id(key@), LoadEvent::DiskMissed),
        action@ == fetch_action(
            old(cache)@.fetches_on(key_id(key@), LoadEvent::DiskMissed),
            old(cache)@.loading[key_id(key@)].url,
        ),
{
    match cache.await_fetch(id_of(key)) {
        Some(url) => LoadAction::Fetch { url },
        None => LoadAction::Nothing,
    }
}

/// Makes a key that waits for the disk ready with the image found there.
pub fn disk_hit(cache: &mut KindCache, adapter: &ProtocolAdapter, key: &CacheKey, sized: SizedImage)
    requires
        old(cache).wf(),
        sized.image.wf(),
    ensures
        final(cache).wf(),
        final(cache)@ == old(cache)@.after(key_id(key@), LoadEvent::DiskHit(sized@)),
{
    let id = id_of(key);
    match cache.stage(id) {
        Some(Stage::AwaitingDisk) => {
            let handle = adapter.make_render_handle(&sized.image);
            cache.complete(id, CachedEntry::new(sized, handle));
        },
        _ => {},
    }
}

/// Records that the fetch for a key failed, or that nothing could be made
/// of what was fetched.
pub fn fetch_failed(cache: &mut KindCache, key: &CacheKey, error: LoadError)
    requires
        old(cache).wf(),
    ensures
        final(cache).wf(),
        final(cache)@ == old(cache)@.after(key_id(key@), LoadEvent::FetchFailed(error)),
{
    let id = id_of(key);
    match cache.stage(id) {
        Some(Stage::AwaitingFetch) => {
            cache.fail(id, error);
        },
        _ => {},
    }
}

/// Whether `png` is the PNG file of `image`.
pub open spec fn is_png_of(png: Seq<u8>, image: ImageView) -> bool {
    png_encoding(image.width as u32, image.height as u32, image.pixels) == Some(png)
}

/// What is left to do once the bytes of a key were fetched and processed
/// into `staged`, given the PNG file `png` of the processed image.
pub open spec fn write_action(
    waiting: bool,
    key: CacheKeyView,
    png: Seq<u8>,
    staged: EntryView,
) -> ActionView {
    if waiting {
        ActionView::WriteDisk(
            plan_for(key_stem(key), png, staged.image.width as u32, staged.image.height as u32),
        )
    } else {
        ActionView::Nothing
    }
}

/// Takes the image that was made of the fetched bytes and plans its write.
/// The image is kept until the write is reported. Where no file can be made
/// of the image the load fails with an I/O error.
pub fn processed(cache: &mut KindCache, key: &CacheKey, staged: SizedImage) -> (action: LoadAction)
    requires
        old(cache).wf(),
        staged.image.wf(),
    ensures
        final(cache).wf(),
        match png_encoding(
            staged.image@.width as u32,
            staged.image@.height as u32,
            staged.image@.pixels,
        ) {
            Some(png) => {
                &&& final(cache)@ == old(cache)@.after(key_id(key@), LoadEvent::Processed(staged@))
                &&& action@ == write_action(
                    old(cache)@.stage_of(key_id(key@)) == Some(Stage::AwaitingFetch),
                    key@,
                    png,
                    staged@,
                )
            },
            None => {
                &&& final(cache)@ == old(cache)@.after(
                    key_id(key@),
                    LoadEvent::FetchFailed(LoadError::Io),
                )
                &&& action@ is Nothing
            },
        },
{
    let id = id_of(key);
    match cache.stage(id) {
        Some(Stage::AwaitingFetch) => {},
        _ => {
            return LoadAction::Nothing;
        },
    }
    match put(key, &staged.image) {
        Ok(plan) => {
            let _ = cache.await_write(id, staged);
            LoadAction::WriteDisk(plan)
        },
        Err(_) => {
            cache.fail(id, LoadError::Io);
            LoadAction::Nothing
        },
    }
}

/// The event that a report on a write stands for.
pub open spec fn write_event(outcome: WriteOutcome) -> LoadEvent {
    match outcome {
        WriteOutcome::Failed => LoadEvent::WriteFailed,
        WriteOutcome::Done => LoadEvent::Written,
    }
}

/// Takes the report on the write of a key. After a good write the image that
/// was kept becomes ready; after a bad one the load has failed and the key
/// is not made ready.
pub fn written(
    cache: &mut KindCache,
    adapter: &ProtocolAdapter,
    key: &CacheKey,
    outcome: WriteOutcome,
)
    requires
        old(cache).wf(),
    ensures
        final(cache).wf(),
        final(cache)@ == old(cache)@.after(key_id(key@), write_event(outcome)),
{
    let id = id_of(key);
    let ghost pre = cache@;
    match cache.take_staged(id) {
        Some(sized) => {
            match outcome {
                WriteOutcome::Done => {
                    let handle = adapter.make_render_handle(&sized.image);
                    cache.complete(id, CachedEntry::new(sized, handle));
                    proof {
                        assert(cache@.loading =~= pre.completed(id@, sized@).loading);
                    }
                },
                WriteOutcome::Failed => {
                    cache.fail(id, LoadError::Io);
                    proof {
                        assert(cache@.loading =~= pre.failed_with(id@, LoadError::Io).loading);
                    }
                },
            }
        },
        None => {},
    }
}

/// What a report on a disk read leads to: `post` is where the keys stand
/// after `pre`, and `action` is what the caller does next.
///
/// A report for a key that does not wait for the disk changes nothing. A
/// read that failed fails the load. A pair of files that is a valid entry
/// makes the key ready with its image, shown as it is, and leaves nothing
/// to do. Any other pair is a miss and sends the caller to the network.
pub open spec fn disk_read_outcome(
    pre: CacheView,
    key: CacheKeyView,
    read: DiskRead,
    post: CacheView,
    action: ActionView,
) -> bool {
    let id = key_id(key);
    if pre.stage_of(id) != Some(Stage::AwaitingDisk) {
        post == pre && action is Nothing
    } else {
        match read {
            DiskRead::Failed => post == pre.after(id, LoadEvent::DiskFailed) && action is Nothing,
            DiskRead::Found { image, sidecar } => match valid_entry(
                file_view(image),
                file_view(sidecar),
            ) {
                Some(source) => {
                    &&& post == pre.after(
                        id,
                        LoadEvent::DiskHit(shown_stored(pre.loading[id].sizing, source)),
                    )
                    &&& action is Nothing
                },
                None => {
                    &&& post == pre.after(id, LoadEvent::DiskMissed)
                    &&& action == (ActionView::Fetch { url: pre.loading[id].url })
                },
            },
        }
    }
}

/// What a report on a fetch leads to: `post` is where the keys stand after
/// `pre`, and `action` is what the caller does next.
///
/// A report for a key that does not wait for the fetch changes nothing. A
/// fetch that failed fails the load with a network error. Bytes that decode
/// to no image fail it with a decode error, and so do bytes that decode to
/// an image too large for this machine to process. Any other image is
/// processed into what is shown of it; that is handed back to be written,
/// with the record of its size, or fails the load with an I/O error where
/// no file can be made of it.
pub open spec fn fetched_outcome(
    pre: CacheView,
    key: CacheKeyView,
    outcome: FetchOutcome,
    post: CacheView,
    action: ActionView,
) -> bool {
    let id = key_id(key);
    if pre.stage_of(id) != Some(Stage::AwaitingFetch) {
        post == pre && action is Nothing
    } else {
        match outcome {
            FetchOutcome::Failed => post == pre.after(
                id,
                LoadEvent::FetchFailed(LoadError::Network),
            ) && action is Nothing,
            FetchOutcome::Bytes(bytes) => match decoded_image(bytes@) {
                None => post == pre.after(id, LoadEvent::FetchFailed(LoadError::Decode))
                    && action is Nothing,
                Some(source) => if !processable(pre.loading[id].sizing, source) {
                    post == pre.after(id, LoadEvent::FetchFailed(LoadError::Decode))
                        && action is Nothing
                } else {
                    exists|staged: EntryView|
                    {
                        &&& #[trigger] shows_fetched(pre.loading[id].sizing, source, staged)
                        &&& match png_encoding(
                            staged.image.width as u32,
                            staged.image.height as u32,
                            staged.image.pixels,
                        ) {
                            Some(png) => {
                                &&& post == pre.after(id, LoadEvent::Processed(staged))
                                &&& action == ActionView::WriteDisk(
                                    plan_for(
                                        key_stem(key),
                                        png,
                                        staged.image.width as u32,
                                        staged.image.height as u32,
                                    ),
                                )
                            },
                            None => {
                                &&& post == pre.after(id, LoadEvent::FetchFailed(LoadError::Io))
                                &&& action is Nothing
                            },
                        }
                    }
                },
            },
        }
    }
}

/// What is shown of a freshly fetched image: an attachment within its
/// limits, an avatar at the size of an avatar and round; nothing where the
/// image is too large for this machine to process.
fn present_fetched(img: ProcessedImage, sizing: Option<AttachmentSizing>) -> (out: Option<SizedImage>)
    requires
        img.wf(),
    ensures
        out is Some <==> processable(sizing, img@),
        out matches Some(shown) ==> shown.image.wf() && shows_fetched(sizing, img@, shown@),
{
    match sizing {
        Some(limits) => {
            let target = limits.target_size(img.width(), img.height());
            let keeps = target.width == img.width() && target.height == img.height();
            if keeps || can_resample(img.width(), target.height) {
                Some(resize_for_attachment(img, &limits))
            } else {
                None
            }
        },
        None => if can_resample(img.width(), AVATAR_SIZE) {
            Some(
                SizedImage {
                    image: resize_for_avatar(&img),
                    terminal_width: AVATAR_DISPLAY_WIDTH,
                    terminal_height: AVATAR_DISPLAY_HEIGHT,
                },
            )
        } else {
            None
        },
    }
}

/// What is shown of an image found on disk: the image as it is.
fn present_stored(img: ProcessedImage, sizing: Option<AttachmentSizing>) -> (out: SizedImage)
    requires
        img.wf(),
    ensures
        out.image.wf(),
        out@ == shown_stored(sizing, img@),
{
    let (terminal_width, terminal_height) = match sizing {
        Some(limits) => limits.cover_size(img.width(), img.height()),
        None => (AVATAR_DISPLAY_WIDTH, AVATAR_DISPLAY_HEIGHT),
    };
    SizedImage { image: img, terminal_width, terminal_height }
}

/// Where a vector holds as many bytes as sixty-three bits count, no image
/// is too large to process: only a smaller machine fails a load for the
/// size of the image.
pub proof fn lemma_wide_machines_process_every_image(
    sizing: Option<AttachmentSizing>,
    source: ImageView,
)
    requires
        source.width <= u32::MAX,
        isize::MAX >= 0x7fff_ffff_ffff_ffff,
    ensures
        processable(sizing, source),
{
    let w = source.width;
    match sizing {
        Some(limits) => {
            let rows = limits.target_px(w, source.height).1;
            if !limits.keeps_size(w, source.height) {
                assert(rows <= 4_096);
                assert(16 * w * rows <= 16 * 0xffff_ffff * 4_096) by (nonlinear_arith)
                    requires
                        w <= 0xffff_ffff,
                        rows <= 4_096,
                ;
            }
        },
        None => {},
    }
}

/// An entry that is read back from disk is the entry that was shown when
/// it was fetched: what was processed then is shown as it is, on the same
/// cells.
pub proof fn lemma_stored_entry_is_shown_as_first(
    sizing: Option<AttachmentSizing>,
    source: ImageView,
    staged: EntryView,
)
    requires
        shows_fetched(sizing, source, staged),
    ensures
        shown_stored(sizing, staged.image) == staged,
{
    match sizing {
        Some(limits) => {
            lemma_target_covers_itself(
                limits,
                source.width,
                source.height,
                staged.terminal_width,
                staged.terminal_height,
            );
        },
        None => {},
    }
}

/// The image that the two files of a key hold, where they are a valid
/// entry.
pub fn open_entry(image: Option<Vec<u8>>, sidecar: Option<Vec<u8>>) -> (out: Option<ProcessedImage>)
    ensures
        match valid_entry(file_view(image), file_view(sidecar)) {
            Some(source) => out matches Some(img) && img@ == source && img.wf(),
            None => out is None,
        },
{
    match get(image, sidecar) {
        Some(stored) => match decode(stored.bytes.as_slice()) {
            Ok(img) => if img.width() == stored.width && img.height() == stored.height {
                Some(img)
            } else {
                None
            },
            Err(_) => None,
        },
        None => None,
    }
}

/// Takes what was read of the two files of a key.
///
/// A read that failed fails the load. A pair that is a valid entry makes
/// the key ready. Any other pair, be it for a missing file, for a record
/// that does not read as a size or for an image that does not decode to
/// that size, is a miss and sends the caller to the network.
pub fn disk_read(
    cache: &mut KindCache,
    adapter: &ProtocolAdapter,
    key: &CacheKey,
    read: DiskRead,
) -> (action: LoadAction)
    requires
        old(cache).wf(),
    ensures
        final(cache).wf(),
        disk_read_outcome(old(cache)@, key@, read, final(cache)@, action@),
{
    let id = id_of(key);
    match cache.stage(id) {
        Some(Stage::AwaitingDisk) => {},
        _ => {
            return LoadAction::Nothing;
        },
    }
    match read {
        DiskRead::Failed => {
            disk_failed(cache, key);
            LoadAction::Nothing
        },
        DiskRead::Found { image, sidecar } => {
            match open_entry(image, sidecar) {
                Some(img) => {
                    let sized = present_stored(img, cache.sizing_of(id));
                    disk_hit(cache, adapter, key, sized);
                    LoadAction::Nothing
                },
                None => disk_missed(cache, key),
            }
        },
    }
}

/// Takes what came of the fetch for a key.
///
/// A fetch that failed fails the load with a network error, and bytes that
/// do not decode, or decode to an image too large for this machine to
/// process, fail it with a decode error. Anything else is processed and
/// handed back to be written.
pub fn fetched(cache: &mut KindCache, key: &CacheKey, outcome: FetchOutcome) -> (action: LoadAction)
    requires
        old(cache).wf(),
    ensures
        final(cache).wf(),
        fetched_outcome(old(cache)@, key@, outcome, final(cache)@, action@),
{
    let id = id_of(key);
    match cache.stage(id) {
        Some(Stage::AwaitingFetch) => {},
        _ => {
            return LoadAction::Nothing;
        },
    }
    match outcome {
        FetchOutcome::Failed => {
            fetch_failed(cache, key, LoadError::Network);
            LoadAction::Nothing
        },
        FetchOutcome::Bytes(bytes) => match decode(bytes.as_slice()) {
            Ok(img) => match present_fetched(img, cache.sizing_of(id)) {
                Some(staged) => {
                    let ghost staged_view = staged@;
                    let action = processed(cache, key, staged);
                    proof {
                        assert(shows_fetched(old(cache)@.loading[id@].sizing, img@, staged_view));
                    }
                    action
                },
                None => {
                    fetch_failed(cache, key, LoadError::Decode);
                    LoadAction::Nothing
                },
            },
            Err(_) => {
                fetch_failed(cache, key, LoadError::Decode);
                LoadAction::Nothing
            },
        },
    }
}

} // verus!
