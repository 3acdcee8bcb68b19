//! The ingestion pipeline: admission, the per-item state machine, and
//! compensating cleanup.
//!
//! The pipeline performs no I/O itself. Whatever it needs from the outside
//! world it requests by returning an [`Action`]; the driver performs the
//! call and reports the result through the matching `on_*_result` method,
//! which hands back the next action. A ghost [`World`] tracks what the
//! reported outcomes imply about the three external systems (temp files,
//! blob store, document store), so that the cleanup obligations can be
//! stated and proved.

use vstd::prelude::*;
use crate::status::{UploadStatus, chain_prefix, chain_status, valid_history, spec_is_offramp};
use crate::metadata::{UploadItemMetadata, UploadItemInput, resolved_artist, resolved_album};
use crate::progress::{UploadProgress, statuses_of, lemma_statuses_push, event_matches,
    error_status};
use crate::item::{UploadQueueItem, AlbumDocument, TrackDocument, item_untouched,
    album_document_matches, track_document_matches, build_album_document, build_track_document};
use crate::error::{UploadError, TranscodingError, transcoding_error_text, upload_error_text};
use crate::paths::{original_key, aac_key, original_key_string, aac_key_string};
use crate::mime::{mime_for_path, guess_mime_type};
use crate::strings::{opt_view, clone_opt_string, concat2};
use crate::status::lemma_chain_prefix_extend;

verus! {

/// What the reported outcomes say about the external systems: the temp
/// files, blob objects, track documents and album documents that are known
/// to exist.
pub ghost struct World {
    pub temp_files: Set<Seq<char>>,
    pub blobs: Set<Seq<char>>,
    pub tracks: Set<Seq<char>>,
    pub albums: Set<Seq<char>>,
}

/// An external call the driver is asked to perform next.
#[derive(Debug, Clone, PartialEq)]
pub enum Action {
    /// Transcode the file at `input_path`; report the produced temp path.
    Transcode { input_path: String },
    /// Stream the file at `source_path` to the blob store under `key`.
    PutBlob { key: String, source_path: String, mime_type: String },
    /// Look the album up by its name and artist; report its id if found.
    FindAlbum { name: String, artist: String },
    /// Insert the album document; report the assigned id.
    InsertAlbum { album: AlbumDocument },
    /// Insert the track document; report the assigned id.
    InsertTrack { track: TrackDocument },
    /// Delete the track document with this id.
    DeleteTrackDoc { track_id: String },
    /// Delete the blob object under this key.
    DeleteBlob { key: String },
    /// Delete the local temp file at this path.
    DeleteTempFile { path: String },
    /// The item in flight has reached its terminal state and its cleanup is
    /// done; call `resume` to continue the drain.
    ItemDone,
    /// The drain is finished; exactly one such action ends each drain.
    BatchDone,
}

/// An action that starts a new external side effect (as opposed to a
/// compensating delete or the final batch signal). After cancellation no
/// such action is ever returned.
pub open spec fn forward_action(a: Action) -> bool {
    ||| a is Transcode
    ||| a is PutBlob
    ||| a is FindAlbum
    ||| a is InsertAlbum
    ||| a is InsertTrack
}

/// The terminal state an item ended in.
#[derive(Debug, Clone, Copy, PartialEq, Eq, Structural)]
pub enum TerminalKind {
    Complete,
    Cancelled,
    Failed,
}

/// The stage of the item currently being processed: which external call is
/// outstanding.
#[derive(Debug, Clone, PartialEq)]
pub enum RunPhase {
    AwaitTranscode,
    AwaitPutOriginal,
    AwaitPutAac,
    AwaitFindAlbum,
    AwaitInsertAlbum,
    AwaitInsertTrack,
    /// A compensating delete for cleanup slot `slot` is outstanding.
    AwaitDelete { slot: u8 },
}

/// The item currently being processed by the drain.
pub struct RunState {
    pub item: UploadQueueItem,
    pub phase: RunPhase,
    /// The key of an outstanding blob put, recorded on the item on success.
    pub pending_key: Option<String>,
    /// The id of the album the track will reference.
    pub album_id: Option<String>,
    /// The terminal state, once the item has reached one.
    pub terminal: Option<TerminalKind>,
    /// Whether every compensating delete so far has succeeded.
    pub clean: Ghost<bool>,
}

/// The cleanup slot order: the track document first, then the compressed
/// blob, then the original blob, then the local temp file.
pub open spec fn slot_field(it: UploadQueueItem, s: int) -> Option<String> {
    if s == 0 {
        it.db_track_id
    } else if s == 1 {
        it.r2_aac_key
    } else if s == 2 {
        it.r2_original_key
    } else {
        it.temp_aac_path
    }
}

/// The part of the world that cleanup slot `s` deletes from.
pub open spec fn slot_set(w: World, s: int) -> Set<Seq<char>> {
    if s == 0 {
        w.tracks
    } else if s == 1 || s == 2 {
        w.blobs
    } else {
        w.temp_files
    }
}

/// The committed effect of slot `s`, if any, is gone from the world.
pub open spec fn slot_absent(w: World, it: UploadQueueItem, s: int) -> bool {
    match slot_field(it, s) {
        Some(x) => !slot_set(w, s).contains(x@),
        None => true,
    }
}

/// The world after a successful compensating delete for slot `s`.
pub open spec fn remove_slot(w: World, it: UploadQueueItem, s: int) -> World {
    match slot_field(it, s) {
        Some(x) => if s == 0 {
            World { tracks: w.tracks.remove(x@), ..w }
        } else if s == 1 || s == 2 {
            World { blobs: w.blobs.remove(x@), ..w }
        } else {
            World { temp_files: w.temp_files.remove(x@), ..w }
        },
        None => w,
    }
}

/// The first cleanup slot at or after `b` whose effect was committed.
pub open spec fn next_cleanup_slot(it: UploadQueueItem, b: int) -> Option<int>
    decreases 4 - b,
{
    if b >= 4 {
        None
    } else if slot_field(it, b) is Some {
        Some(b)
    } else {
        next_cleanup_slot(it, b + 1)
    }
}

/// The slot cleanup starts from: a completed item keeps its blobs and its
/// track document and only deletes the temp file; a cancelled or failed item
/// is unwound completely.
pub open spec fn cleanup_start(t: TerminalKind) -> int {
    if t is Complete {
        3
    } else {
        0
    }
}

/// The ingestion pipeline: capability availability, the admission queue,
/// the item in flight, the shared cancel flag, the progress event log, and
/// the ghost model of the external world.
pub struct UploadPipeline {
    pub r2_available: bool,
    pub mongo_available: bool,
    pub queue: Vec<UploadQueueItem>,
    pub running: Option<RunState>,
    pub cancel_flag: bool,
    pub is_processing: bool,
    pub next_item_id: u64,
    pub events: Vec<UploadProgress>,
    pub world: Ghost<World>,
    pub drains_started: Ghost<int>,
    pub drains_finished: Ghost<int>,
}

/// The queue item admission builds from one input.
pub open spec fn fresh_item(input: UploadItemInput, id: u64) -> UploadQueueItem {
    UploadQueueItem {
        id,
        input_path: input.path,
        metadata: input.metadata,
        temp_aac_path: None,
        r2_original_key: None,
        r2_aac_key: None,
        db_track_id: None,
    }
}

/// The queue items admission appends for the inputs whose files exist, in
/// order, with ids `base`, `base + 1`, ... for the whole input list.
pub open spec fn admitted_items(items: Seq<UploadItemInput>, exist: Seq<bool>, base: u64) -> Seq<
    UploadQueueItem,
>
    decreases items.len(),
{
    if items.len() == 0 {
        Seq::empty()
    } else {
        let rest = admitted_items(items.drop_last(), exist.drop_last(), base);
        if exist[items.len() - 1] {
            rest.push(fresh_item(items.last(), (base + items.len() - 1) as u64))
        } else {
            rest
        }
    }
}

/// Every history in the event log is legal, and ids at or above `bound`
/// (not yet assigned) have no events.
pub open spec fn histories_ok(events: Seq<UploadProgress>, bound: u64) -> bool {
    &&& forall|id: u64| valid_history(#[trigger] statuses_of(events, id))
    &&& forall|id: u64| id >= bound ==> #[trigger] statuses_of(events, id)
        == Seq::<UploadStatus>::empty()
}

/// A queued item: untouched, with an assigned id, seeded at `Pending`.
pub open spec fn queued_entry_ok(events: Seq<UploadProgress>, bound: u64, it: UploadQueueItem) -> bool {
    &&& item_untouched(it)
    &&& it.id < bound
    &&& statuses_of(events, it.id) == chain_prefix(1)
}

/// Every queued item is well-formed and their ids are pairwise distinct.
pub open spec fn queue_entries_ok(
    events: Seq<UploadProgress>,
    bound: u64,
    queue: Seq<UploadQueueItem>,
) -> bool {
    &&& forall|k: int| 0 <= k < queue.len() ==> queued_entry_ok(events, bound, #[trigger] queue[k])
    &&& forall|k1: int, k2: int| 0 <= k1 < k2 < queue.len() ==> queue[k1].id != queue[k2].id
}

/// The shared facts of the three metadata-stage phases: the temp file and
/// the original blob are committed and present, the compressed blob is
/// present if committed, and no track document exists yet.
pub open spec fn mid_metadata_ok(events: Seq<UploadProgress>, w: World, r: RunState) -> bool {
    let it = r.item;
    &&& it.temp_aac_path matches Some(t) && w.temp_files.contains(t@)
    &&& it.r2_original_key matches Some(k) && w.blobs.contains(k@)
    &&& it.r2_aac_key matches Some(k) ==> w.blobs.contains(k@)
    &&& it.db_track_id is None
    &&& r.pending_key is None
    &&& r.terminal is None
    &&& statuses_of(events, it.id) == chain_prefix(5)
}

/// The in-flight item is mid-cleanup: its terminal status has been emitted,
/// the slots before `b` have been compensated (if every delete succeeded so
/// far), and a completed item still has its durable effects.
pub open spec fn cleaning_ok(
    events: Seq<UploadProgress>,
    w: World,
    r: RunState,
    t: TerminalKind,
    b: int,
) -> bool {
    let it = r.item;
    &&& cleanup_start(t) <= b <= 4
    &&& if t is Complete {
        &&& statuses_of(events, it.id) == chain_prefix(6)
        &&& it.r2_original_key matches Some(k) && w.blobs.contains(k@)
        &&& it.r2_aac_key matches Some(k) ==> w.blobs.contains(k@)
        &&& it.db_track_id matches Some(d) && w.tracks.contains(d@)
        &&& r.album_id matches Some(a) && w.albums.contains(a@)
    } else {
        &&& statuses_of(events, it.id).len() > 0
        &&& spec_is_offramp(statuses_of(events, it.id).last())
    }
    &&& r.clean@ ==> forall|s: int| cleanup_start(t) <= s < b ==> slot_absent(w, it, s)
}

/// The in-flight item is consistent with its phase: exactly the fields of
/// the committed effects are set, the world contains those effects, and the
/// emitted history matches the stage reached.
pub open spec fn run_ok(events: Seq<UploadProgress>, w: World, bound: u64, r: RunState) -> bool {
    let it = r.item;
    &&& it.id < bound
    &&& match r.phase {
        RunPhase::AwaitTranscode => {
            &&& item_untouched(it)
            &&& r.pending_key is None
            &&& r.album_id is None
            &&& r.terminal is None
            &&& statuses_of(events, it.id) == chain_prefix(2)
        },
        RunPhase::AwaitPutOriginal => {
            &&& it.temp_aac_path matches Some(t) && w.temp_files.contains(t@)
            &&& it.r2_original_key is None
            &&& it.r2_aac_key is None
            &&& it.db_track_id is None
            &&& r.pending_key matches Some(k) && k@ == original_key(it.input_path@)
            &&& r.album_id is None
            &&& r.terminal is None
            &&& statuses_of(events, it.id) == chain_prefix(3)
        },
        RunPhase::AwaitPutAac => {
            &&& it.temp_aac_path matches Some(t) && (w.temp_files.contains(t@) && (
            r.pending_key matches Some(k) && k@ == aac_key(t@)))
            &&& it.r2_original_key matches Some(k) && w.blobs.contains(k@)
            &&& it.r2_aac_key is None
            &&& it.db_track_id is None
            &&& r.album_id is None
            &&& r.terminal is None
            &&& statuses_of(events, it.id) == chain_prefix(4)
        },
        RunPhase::AwaitFindAlbum => {
            &&& mid_metadata_ok(events, w, r)
            &&& r.album_id is None
        },
        RunPhase::AwaitInsertAlbum => {
            &&& mid_metadata_ok(events, w, r)
            &&& r.album_id is None
        },
        RunPhase::AwaitInsertTrack => {
            &&& mid_metadata_ok(events, w, r)
            &&& r.album_id matches Some(a) && w.albums.contains(a@)
        },
        RunPhase::AwaitDelete { slot } => {
            &&& r.terminal matches Some(t) && cleaning_ok(events, w, r, t, slot as int)
            &&& slot <= 3
            &&& slot_field(it, slot as int) is Some
        },
    }
}

/// What advancing the drain does when no item is in flight. If the batch
/// was cancelled, every queued item gets one terminal `Cancelled` event,
/// with no side effects, and the drain ends with one `BatchDone`. If the
/// queue is empty, the drain ends with one `BatchDone`. Otherwise the first
/// queued item starts: one `Transcoding` event is emitted and the transcode
/// of its file is requested.
pub open spec fn advance_post(pre: UploadPipeline, post: UploadPipeline, a: Action) -> bool {
    &&& post.cancel_flag == pre.cancel_flag
    &&& post.world == pre.world
    &&& post.next_item_id == pre.next_item_id
    &&& post.drains_started == pre.drains_started
    &&& post.r2_available == pre.r2_available
    &&& post.mongo_available == pre.mongo_available
    &&& if pre.cancel_flag {
        &&& a is BatchDone
        &&& !post.is_processing
        &&& post.queue@.len() == 0
        &&& post.running is None
        &&& post.drains_finished@ == pre.drains_finished@ + 1
        &&& post.events@.len() == pre.events@.len() + pre.queue@.len()
        &&& forall|k: int| 0 <= k < pre.queue@.len() ==> statuses_of(
            post.events@,
            #[trigger] pre.queue@[k].id,
        ) == chain_prefix(1).push(UploadStatus::Cancelled)
        &&& forall|k: int| 0 <= k < pre.queue@.len() ==> event_matches(
            #[trigger] post.events@[pre.events@.len() + k],
            pre.queue@[k].id,
            pre.queue@[k].input_path@,
            UploadStatus::Cancelled,
            None,
            pre.queue@[k].metadata,
        )
        &&& forall|id: u64|
            (forall|k: int| 0 <= k < pre.queue@.len() ==> #[trigger] pre.queue@[k].id != id)
                ==> #[trigger] statuses_of(post.events@, id) == statuses_of(pre.events@, id)
    } else if pre.queue@.len() == 0 {
        &&& a is BatchDone
        &&& !post.is_processing
        &&& post.queue@.len() == 0
        &&& post.running is None
        &&& post.drains_finished@ == pre.drains_finished@ + 1
        &&& post.events@ == pre.events@
    } else {
        let it = pre.queue@[0];
        &&& a matches Action::Transcode { input_path } && input_path@ == it.input_path@
        &&& post.queue@ == pre.queue@.subrange(1, pre.queue@.len() as int)
        &&& post.running matches Some(r) && (r.item == it && r.phase is AwaitTranscode)
        &&& post.is_processing
        &&& post.drains_finished == pre.drains_finished
        &&& post.events@.len() == pre.events@.len() + 1
        &&& event_matches(
            post.events@.last(),
            it.id,
            it.input_path@,
            UploadStatus::Transcoding,
            None,
            it.metadata,
        )
        &&& statuses_of(post.events@, it.id) == chain_prefix(2)
        &&& forall|id: u64|
            id != it.id ==> #[trigger] statuses_of(post.events@, id) == statuses_of(
                pre.events@,
                id,
            )
    }
}

/// The handlers only touch the in-flight item, the event log and the ghost
/// world; everything else is untouched.
pub open spec fn handler_frame(pre: UploadPipeline, post: UploadPipeline) -> bool {
    &&& post.queue == pre.queue
    &&& post.cancel_flag == pre.cancel_flag
    &&& post.is_processing == pre.is_processing
    &&& post.next_item_id == pre.next_item_id
    &&& post.drains_started == pre.drains_started
    &&& post.drains_finished == pre.drains_finished
    &&& post.r2_available == pre.r2_available
    &&& post.mongo_available == pre.mongo_available
}

/// Exactly one event was appended: for item `id`, with the given path, a
/// payload-free status, no error message, and the item's display metadata.
pub open spec fn one_plain_event(
    pre: UploadPipeline,
    post: UploadPipeline,
    id: u64,
    path: Seq<char>,
    status: UploadStatus,
    m: UploadItemMetadata,
) -> bool {
    &&& post.events@.len() == pre.events@.len() + 1
    &&& post.events@ == pre.events@.push(post.events@.last())
    &&& event_matches(post.events@.last(), id, path, status, None, m)
    &&& statuses_of(post.events@, id) == statuses_of(pre.events@, id).push(
        post.events@.last().status,
    )
    &&& forall|x: u64|
        x != id ==> #[trigger] statuses_of(post.events@, x) == statuses_of(pre.events@, x)
}

/// Exactly one event was appended: for item `id`, with an `Error` status
/// reading `status_text` and an error message reading `message`.
pub open spec fn one_error_event(
    pre: UploadPipeline,
    post: UploadPipeline,
    id: u64,
    path: Seq<char>,
    status_text: Seq<char>,
    message: Seq<char>,
    m: UploadItemMetadata,
) -> bool {
    &&& post.events@.len() == pre.events@.len() + 1
    &&& post.events@ == pre.events@.push(post.events@.last())
    &&& {
        let e = post.events@.last();
        &&& e.item_id == id
        &&& e.original_path@ == path
        &&& error_status(e.status, status_text)
        &&& opt_view(e.error_message) == Some(message)
        &&& opt_view(e.title) == opt_view(m.title)
        &&& opt_view(e.album) == opt_view(m.album)
    }
    &&& statuses_of(post.events@, id) == statuses_of(pre.events@, id).push(
        post.events@.last().status,
    )
    &&& forall|x: u64|
        x != id ==> #[trigger] statuses_of(post.events@, x) == statuses_of(pre.events@, x)
}

/// The compensating delete for cleanup slot `s` of this item.
pub open spec fn delete_action_for(a: Action, it: UploadQueueItem, s: int) -> bool {
    slot_field(it, s) matches Some(x) && (if s == 0 {
        a matches Action::DeleteTrackDoc { track_id } && track_id@ == x@
    } else if s == 1 || s == 2 {
        a matches Action::DeleteBlob { key } && key@ == x@
    } else {
        a matches Action::DeleteTempFile { path } && path@ == x@
    })
}

/// What holds of the world when an item's cleanup has finished.
///
/// If every requested delete succeeded: no temp file of the item remains;
/// and if the item did not complete, no track document and no blob of the
/// item remains. If the item completed, its original blob, its compressed
/// blob (when one was made), its track document and its album document all
/// exist.
pub open spec fn item_settled(w: World, run: RunState) -> bool {
    let it = run.item;
    &&& (run.clean@ ==> (it.temp_aac_path matches Some(p) ==> !w.temp_files.contains(p@)))
    &&& (run.clean@ && !(run.terminal == Some(TerminalKind::Complete)) ==> {
        &&& it.db_track_id matches Some(d) ==> !w.tracks.contains(d@)
        &&& it.r2_original_key matches Some(k) ==> !w.blobs.contains(k@)
        &&& it.r2_aac_key matches Some(k) ==> !w.blobs.contains(k@)
    })
    &&& (run.terminal == Some(TerminalKind::Complete) ==> {
        &&& it.r2_original_key matches Some(k) && w.blobs.contains(k@)
        &&& it.r2_aac_key matches Some(k) ==> w.blobs.contains(k@)
        &&& it.db_track_id matches Some(d) && w.tracks.contains(d@)
        &&& run.album_id matches Some(b) && w.albums.contains(b@)
    })
}

/// How cleanup continues from slot `b`: either the next committed slot's
/// delete is requested, or the item is settled and done.
pub open spec fn cleanup_continue_post(
    w: World,
    run: RunState,
    b: int,
    post: UploadPipeline,
    a: Action,
) -> bool {
    match next_cleanup_slot(run.item, b) {
        Some(s) => {
            &&& delete_action_for(a, run.item, s)
            &&& post.running == Some(
                RunState { phase: RunPhase::AwaitDelete { slot: s as u8 }, ..run },
            )
        },
        None => {
            &&& a is ItemDone
            &&& post.running is None
            &&& item_settled(w, run)
        },
    }
}

/// Between `b` and the first committed slot found from `b`, every slot is
/// uncommitted.
proof fn lemma_slot_gap(it: UploadQueueItem, b: int, s: int, q: int)
    requires
        next_cleanup_slot(it, b) == Some(s),
        b <= q < s,
    ensures
        slot_field(it, q) is None,
    decreases s - b,
{
    if q == b {
        if slot_field(it, b) is Some {
            assert(next_cleanup_slot(it, b) == Some(b));
        }
    } else {
        if slot_field(it, b) is Some {
            assert(next_cleanup_slot(it, b) == Some(b));
        }
        lemma_slot_gap(it, b + 1, s, q);
    }
}

/// Every slot at or after `b` is uncommitted when no cleanup slot is left.
proof fn lemma_no_slot_left(it: UploadQueueItem, b: int)
    requires
        0 <= b,
        next_cleanup_slot(it, b) is None,
    ensures
        forall|s: int| b <= s < 4 ==> slot_field(it, s) is None,
    decreases 4 - b,
{
    if b < 4 {
        lemma_no_slot_left(it, b + 1);
    }
}

/// The pipeline state after a cancellation request: the same state with the
/// cancel flag set.
pub open spec fn cancelled_state(p: UploadPipeline) -> UploadPipeline {
    UploadPipeline { cancel_flag: true, ..p }
}

impl UploadPipeline {
    /// The statuses emitted so far for item `id`, in order.
    pub open spec fn history(self, id: u64) -> Seq<UploadStatus> {
        statuses_of(self.events@, id)
    }

    /// The pipeline invariant.
    pub open spec fn inv(self) -> bool {
        &&& histories_ok(self.events@, self.next_item_id)
        &&& queue_entries_ok(self.events@, self.next_item_id, self.queue@)
        &&& match self.running {
            Some(r) => {
                &&& run_ok(self.events@, self.world@, self.next_item_id, r)
                &&& forall|k: int|
                    0 <= k < self.queue@.len() ==> #[trigger] self.queue@[k].id != r.item.id
                &&& self.is_processing
            },
            None => true,
        }
        &&& !self.is_processing ==> self.queue@.len() == 0 && self.running is None
        &&& self.drains_started@ >= 0
        &&& self.drains_finished@ == self.drains_started@ - (if self.is_processing {
            1int
        } else {
            0
        })
    }

    /// A fresh pipeline around the given capability availability. Nothing
    /// has been admitted, emitted or started.
    pub fn new(r2_available: bool, mongo_available: bool) -> (p: Self)
        ensures
            p.inv(),
            p.r2_available == r2_available,
            p.mongo_available == mongo_available,
            p.queue@.len() == 0,
            p.running is None,
            !p.cancel_flag,
            !p.is_processing,
            p.next_item_id == 0,
            p.events@.len() == 0,
            p.drains_started@ == 0,
            p.drains_finished@ == 0,
    {
        let p = UploadPipeline {
            r2_available,
            mongo_available,
            queue: Vec::new(),
            running: None,
            cancel_flag: false,
            is_processing: false,
            next_item_id: 0,
            events: Vec::new(),
            world: Ghost(
                World {
                    temp_files: Set::empty(),
                    blobs: Set::empty(),
                    tracks: Set::empty(),
                    albums: Set::empty(),
                },
            ),
            drains_started: Ghost(0),
            drains_finished: Ghost(0),
        };
        proof {
            assert forall|id: u64| valid_history(#[trigger] statuses_of(p.events@, id)) by {
                assert(statuses_of(p.events@, id) =~= Seq::<UploadStatus>::empty());
            }
            assert forall|id: u64| id >= p.next_item_id implies #[trigger] statuses_of(
                p.events@,
                id,
            ) == Seq::<UploadStatus>::empty() by {
                assert(statuses_of(p.events@, id) =~= Seq::<UploadStatus>::empty());
            }
        }
        p
    }

    /// Set the shared cancel flag. Idempotent: the pipeline state after two
    /// calls is the state after one. The drain observes the flag at its next
    /// checkpoint; no new forward call is started after that.
    pub fn cancel_upload_queue(&mut self)
        ensures
            *final(self) == cancelled_state(*old(self)),
    {
        self.cancel_flag = true;
    }

    /// The full progress event log, in emission order.
    pub fn progress_events(&self) -> (r: &Vec<UploadProgress>)
        ensures
            r == self.events,
    {
        &self.events
    }

    /// The last progress event emitted for `item_id`, if any: the snapshot a
    /// late subscriber sees.
    pub fn query_progress(&self, item_id: u64) -> (r: Option<&UploadProgress>)
        ensures
            match r {
                Some(e) => exists|i: int|
                    0 <= i < self.events@.len() && self.events@[i] == e && e.item_id == item_id
                        && forall|j: int|
                        i < j < self.events@.len() ==> self.events@[j].item_id != item_id,
                None => forall|i: int|
                    0 <= i < self.events@.len() ==> self.events@[i].item_id != item_id,
            },
    {
        let n = self.events.len();
        let mut i: usize = n;
        while i > 0
            invariant
                i <= n,
                n == self.events@.len(),
                forall|j: int| i <= j < n ==> self.events@[j].item_id != item_id,
            decreases i,
        {
            i = i - 1;
            if self.events[i].item_id == item_id {
                return Some(&self.events[i]);
            }
        }
        None
    }

    /// Emit one progress event. Only the event log changes.
    fn emit(
        &mut self,
        id: u64,
        path: &String,
        meta: &UploadItemMetadata,
        status: UploadStatus,
        error_message: Option<String>,
    )
        requires
            valid_history(statuses_of(old(self).events@, id).push(status)),
        ensures
            final(self).events@.len() == old(self).events@.len() + 1,
            final(self).events@ == old(self).events@.push(final(self).events@.last()),
            event_matches(
                final(self).events@.last(),
                id,
                path@,
                status,
                opt_view(error_message),
                *meta,
            ),
            forall|x: u64| #![auto] statuses_of(final(self).events@, x) == if x == id {
                statuses_of(old(self).events@, x).push(status)
            } else {
                statuses_of(old(self).events@, x)
            },
            *final(self) == (UploadPipeline { events: final(self).events, ..*old(self) }),
    {
        let ghost pre = self.events@;
        let e = UploadProgress {
            item_id: id,
            original_path: path.clone(),
            status,
            error_message,
            title: clone_opt_string(&meta.title),
            album: clone_opt_string(&meta.album),
        };
        self.events.push(e);
        proof {
            assert forall|x: u64| #![auto] statuses_of(self.events@, x) == if x == id {
                statuses_of(pre, x).push(status)
            } else {
                statuses_of(pre, x)
            } by {
                lemma_statuses_push(pre, e, x);
            }
        }
    }

    /// Advance the drain when no external call is outstanding: drain the
    /// queue to `Cancelled` if cancellation was observed, end the drain if
    /// the queue is empty, or start the next item.
    fn advance(&mut self) -> (a: Action)
        requires
            old(self).inv(),
            old(self).is_processing,
            old(self).running is None,
        ensures
            final(self).inv(),
            advance_post(*old(self), *final(self), a),
    {
        let ghost pre = *self;
        let ghost q0 = self.queue@;
        if self.cancel_flag {
            let mut k: usize = 0;
            let qlen = self.queue.len();
            proof {
                assert(q0.subrange(0, qlen as int) =~= q0);
            }
            while self.queue.len() > 0
                invariant
                    k <= qlen,
                    qlen == q0.len(),
                    self.queue@.len() == qlen - k,
                    self.queue@ == q0.subrange(k as int, qlen as int),
                    histories_ok(self.events@, self.next_item_id),
                    queue_entries_ok(self.events@, self.next_item_id, self.queue@),
                    queue_entries_ok(pre.events@, pre.next_item_id, q0),
                    self.next_item_id == pre.next_item_id,
                    self.events@.len() == pre.events@.len() + k,
                    forall|i: int| 0 <= i < k ==> statuses_of(
                        self.events@,
                        #[trigger] q0[i].id,
                    ) == chain_prefix(1).push(UploadStatus::Cancelled),
                    forall|i: int| 0 <= i < k ==> event_matches(
                        #[trigger] self.events@[pre.events@.len() + i],
                        q0[i].id,
                        q0[i].input_path@,
                        UploadStatus::Cancelled,
                        None,
                        q0[i].metadata,
                    ),
                    forall|id: u64|
                        (forall|i: int| 0 <= i < qlen ==> #[trigger] q0[i].id != id)
                            ==> #[trigger] statuses_of(self.events@, id) == statuses_of(
                            pre.events@,
                            id,
                        ),
                    forall|i1: int, i2: int|
                        0 <= i1 < i2 < qlen ==> q0[i1].id != q0[i2].id,
                    forall|i: int|
                        k <= i < qlen ==> statuses_of(self.events@, #[trigger] q0[i].id)
                            == chain_prefix(1),
                    self.running is None,
                    self.is_processing,
                    self.world == pre.world,
                    self.cancel_flag == pre.cancel_flag,
                    self.drains_started == pre.drains_started,
                    self.drains_finished == pre.drains_finished,
                    self.r2_available == pre.r2_available,
                    self.mongo_available == pre.mongo_available,
                decreases self.queue@.len(),
            {
                proof {
                    assert(self.queue@.len() == qlen - k);
                    assert(k < qlen);
                    assert(q0.subrange(k as int, qlen as int)[0] == q0[k as int]);
                    assert(self.queue@[0] == q0[k as int]);
                }
                let it = self.queue.remove(0);
                proof {
                    assert(it == q0[k as int]);
                    assert(statuses_of(self.events@, it.id) == chain_prefix(1));
                    lemma_chain_prefix_extend(1, UploadStatus::Cancelled);
                }
                self.emit(it.id, &it.input_path, &it.metadata, UploadStatus::Cancelled, None);
                k = k + 1;
                proof {
                    assert(self.queue@ =~= q0.subrange(k as int, qlen as int));
                    assert(self.queue@ == q0.subrange(k as int, qlen as int));
                }
            }
            self.is_processing = false;
            self.drains_finished = Ghost(self.drains_finished@ + 1);
            proof {
                assert(k == qlen);
            }
            Action::BatchDone
        } else if self.queue.len() == 0 {
            self.is_processing = false;
            self.drains_finished = Ghost(self.drains_finished@ + 1);
            Action::BatchDone
        } else {
            let it = self.queue.remove(0);
            proof {
                assert(it == q0[0]);
                assert(statuses_of(self.events@, it.id) == chain_prefix(1));
                lemma_chain_prefix_extend(1, chain_status(1));
                assert(chain_prefix(1).push(chain_status(1)) =~= chain_prefix(2));
            }
            self.emit(it.id, &it.input_path, &it.metadata, UploadStatus::Transcoding, None);
            let input_path = it.input_path.clone();
            self.running = Some(
                RunState {
                    item: it,
                    phase: RunPhase::AwaitTranscode,
                    pending_key: None,
                    album_id: None,
                    terminal: None,
                    clean: Ghost(true),
                },
            );
            Action::Transcode { input_path }
        }
    }

    /// Find the first committed cleanup slot of `it` at or after `b`, with
    /// a copy of the recorded value.
    fn find_cleanup_slot(it: &UploadQueueItem, b: u8) -> (r: Option<(u8, String)>)
        ensures
            match r {
                Some((s, x)) => {
                    &&& next_cleanup_slot(*it, b as int) == Some(s as int)
                    &&& b <= s < 4
                    &&& slot_field(*it, s as int) matches Some(f) && f@ == x@
                },
                None => next_cleanup_slot(*it, b as int) is None,
            },
    {
        let mut s: u8 = b;
        while s < 4
            invariant
                b <= s,
                next_cleanup_slot(*it, b as int) == next_cleanup_slot(*it, s as int),
            decreases 4 - s,
        {
            if s == 0 {
                if let Some(x) = &it.db_track_id {
                    return Some((s, x.clone()));
                }
            } else if s == 1 {
                if let Some(x) = &it.r2_aac_key {
                    return Some((s, x.clone()));
                }
            } else if s == 2 {
                if let Some(x) = &it.r2_original_key {
                    return Some((s, x.clone()));
                }
            } else {
                if let Some(x) = &it.temp_aac_path {
                    return Some((s, x.clone()));
                }
            }
            s = s + 1;
        }
        None
    }

    /// Continue the cleanup of a terminated item from slot `from_slot`:
    /// request the next compensating delete, or finish the item.
    fn begin_cleanup(&mut self, run: RunState, from_slot: u8) -> (a: Action)
        requires
            old(self).inv(),
            old(self).running is None,
            old(self).is_processing,
            run.terminal matches Some(t) && cleaning_ok(
                old(self).events@,
                old(self).world@,
                run,
                t,
                from_slot as int,
            ),
            run.item.id < old(self).next_item_id,
            forall|k: int|
                0 <= k < old(self).queue@.len() ==> #[trigger] old(self).queue@[k].id
                    != run.item.id,
        ensures
            final(self).inv(),
            final(self).events == old(self).events,
            final(self).world == old(self).world,
            handler_frame(*old(self), *final(self)),
            cleanup_continue_post(
                old(self).world@,
                run,
                from_slot as int,
                *final(self),
                a,
            ),
    {
        let mut run = run;
        match Self::find_cleanup_slot(&run.item, from_slot) {
            Some((s, x)) => {
                let a = if s == 0 {
                    Action::DeleteTrackDoc { track_id: x }
                } else if s == 1 || s == 2 {
                    Action::DeleteBlob { key: x }
                } else {
                    Action::DeleteTempFile { path: x }
                };
                proof {
                    let t = run.terminal->0;
                    if run.clean@ {
                        assert forall|q: int| cleanup_start(t) <= q < s as int implies slot_absent(
                            self.world@,
                            run.item,
                            q,
                        ) by {
                            if q >= from_slot as int {
                                lemma_slot_gap(run.item, from_slot as int, s as int, q);
                            } else {
                                assert(slot_absent(self.world@, run.item, q));
                            }
                        }
                    }
                }
                run.phase = RunPhase::AwaitDelete { slot: s };
                self.running = Some(run);
                a
            },
            None => {
                proof {
                    lemma_no_slot_left(run.item, from_slot as int);
                    let t = run.terminal->0;
                    if run.clean@ {
                        assert forall|q: int|
                            cleanup_start(t) <= q < 4 implies slot_absent(
                            self.world@,
                            run.item,
                            q,
                        ) by {
                            if q < from_slot as int {
                                assert(slot_absent(self.world@, run.item, q));
                            } else {
                                assert(slot_field(run.item, q) is None);
                            }
                        }
                        assert(slot_absent(self.world@, run.item, 3));
                        assert(run.item.temp_aac_path matches Some(p)
                            ==> !self.world@.temp_files.contains(p@));
                        if !(run.terminal == Some(TerminalKind::Complete)) {
                            assert(slot_absent(self.world@, run.item, 0));
                            assert(slot_absent(self.world@, run.item, 1));
                            assert(slot_absent(self.world@, run.item, 2));
                        }
                    }
                    if run.terminal == Some(TerminalKind::Complete) {
                        assert(run.item.r2_original_key matches Some(k)
                            && self.world@.blobs.contains(k@));
                    }
                    assert(item_settled(self.world@, run));
                }
                Action::ItemDone
            },
        }
    }

    /// Handle the result of a compensating delete: record it in the world
    /// model (a failed delete is logged and never re-raised), then continue
    /// the cleanup or finish the item.
    pub fn on_delete_result(&mut self, result: Result<(), String>) -> (a: Action)
        requires
            old(self).inv(),
            old(self).running matches Some(r) && r.phase is AwaitDelete,
        ensures
            final(self).inv(),
            handler_frame(*old(self), *final(self)),
            final(self).events == old(self).events,
            !forward_action(a),
            ({
                let r = old(self).running->0;
                let slot = r.phase->AwaitDelete_slot as int;
                let w2 = if result is Ok {
                    remove_slot(old(self).world@, r.item, slot)
                } else {
                    old(self).world@
                };
                let run2 = RunState { clean: Ghost(r.clean@ && result is Ok), ..r };
                &&& final(self).world@ == w2
                &&& cleanup_continue_post(w2, run2, slot + 1, *final(self), a)
            }),
    {
        let run_opt = self.running.take();
        let mut run = run_opt.unwrap();
        match run.phase {
            RunPhase::AwaitDelete { slot } => {
                let ghost w0 = self.world@;
                if result.is_ok() {
                    self.world = Ghost(remove_slot(self.world@, run.item, slot as int));
                } else {
                    run.clean = Ghost(false);
                }
                proof {
                    let t = run.terminal->0;
                    let ghost r0 = old(self).running->0;
                    assert(cleanup_start(t) <= slot as int);
                    if run.terminal == Some(TerminalKind::Complete) {
                        assert(slot == 3);
                    }
                    if run.clean@ {
                        assert forall|q: int|
                            cleanup_start(t) <= q < slot as int + 1 implies slot_absent(
                            self.world@,
                            run.item,
                            q,
                        ) by {
                            if q < slot as int {
                                assert(slot_absent(w0, run.item, q));
                            }
                        }
                    }
                }
                self.begin_cleanup(run, slot + 1)
            },
            _ => {
                proof {
                    assert(false);
                }
                Action::ItemDone
            },
        }
    }

    /// Handle the result of the transcode call. On success the temp file is
    /// recorded and, unless cancellation was observed, the upload of the
    /// original is requested under its derived key with its detected MIME
    /// type. On failure nothing was committed and the item terminates with
    /// `Error`; on observed cancellation it terminates with `Cancelled` and
    /// its temp file (if any) is cleaned up.
    pub fn on_transcode_result(&mut self, result: Result<String, TranscodingError>) -> (a: Action)
        requires
            old(self).inv(),
            old(self).running matches Some(r) && r.phase is AwaitTranscode,
        ensures
            final(self).inv(),
            handler_frame(*old(self), *final(self)),
            old(self).cancel_flag ==> !forward_action(a),
            ({
                let r = old(self).running->0;
                let it = r.item;
                match result {
                    Ok(temp) => {
                        let it2 = UploadQueueItem { temp_aac_path: Some(temp), ..it };
                        &&& final(self).world@ == (World {
                            temp_files: old(self).world@.temp_files.insert(temp@),
                            ..old(self).world@
                        })
                        &&& if old(self).cancel_flag {
                            &&& one_plain_event(
                                *old(self),
                                *final(self),
                                it.id,
                                it.input_path@,
                                UploadStatus::Cancelled,
                                it.metadata,
                            )
                            &&& cleanup_continue_post(
                                final(self).world@,
                                RunState {
                                    item: it2,
                                    phase: r.phase,
                                    pending_key: None,
                                    album_id: None,
                                    terminal: Some(TerminalKind::Cancelled),
                                    clean: Ghost(true),
                                },
                                0,
                                *final(self),
                                a,
                            )
                        } else {
                            &&& one_plain_event(
                                *old(self),
                                *final(self),
                                it.id,
                                it.input_path@,
                                UploadStatus::UploadingOriginal,
                                it.metadata,
                            )
                            &&& a matches Action::PutBlob { key, source_path, mime_type } && (key@
                                == original_key(it.input_path@) && source_path@ == it.input_path@
                                && mime_type@ == mime_for_path(it.input_path@))
                            &&& final(self).running matches Some(r2) && (r2.item == it2
                                && r2.phase is AwaitPutOriginal)
                        }
                    },
                    Err(e) => {
                        &&& final(self).world == old(self).world
                        &&& a is ItemDone
                        &&& final(self).running is None
                        &&& if old(self).cancel_flag {
                            one_plain_event(
                                *old(self),
                                *final(self),
                                it.id,
                                it.input_path@,
                                UploadStatus::Cancelled,
                                it.metadata,
                            )
                        } else {
                            one_error_event(
                                *old(self),
                                *final(self),
                                it.id,
                                it.input_path@,
                                "Transcoding failed: "@ + transcoding_error_text(e),
                                transcoding_error_text(e),
                                it.metadata,
                            )
                        }
                    },
                }
            }),
    {
        let run_opt = self.running.take();
        let mut run = run_opt.unwrap();
        match result {
            Ok(temp_path) => {
                let ghost tview = temp_path@;
                self.world = Ghost(
                    World {
                        temp_files: self.world@.temp_files.insert(temp_path@),
                        ..self.world@
                    },
                );
                if self.cancel_flag {
                    proof {
                        lemma_chain_prefix_extend(2, UploadStatus::Cancelled);
                    }
                    self.emit(
                        run.item.id,
                        &run.item.input_path,
                        &run.item.metadata,
                        UploadStatus::Cancelled,
                        None,
                    );
                    run.item.temp_aac_path = Some(temp_path);
                    run.terminal = Some(TerminalKind::Cancelled);
                    run.clean = Ghost(true);
                    self.begin_cleanup(run, 0)
                } else {
                    proof {
                        lemma_chain_prefix_extend(2, chain_status(2));
                        assert(chain_prefix(2).push(chain_status(2)) =~= chain_prefix(3));
                    }
                    self.emit(
                        run.item.id,
                        &run.item.input_path,
                        &run.item.metadata,
                        UploadStatus::UploadingOriginal,
                        None,
                    );
                    run.item.temp_aac_path = Some(temp_path);
                    let key = original_key_string(run.item.input_path.as_str());
                    let mime_type = guess_mime_type(run.item.input_path.as_str());
                    let source_path = run.item.input_path.clone();
                    run.pending_key = Some(key.clone());
                    run.phase = RunPhase::AwaitPutOriginal;
                    self.running = Some(run);
                    Action::PutBlob { key, source_path, mime_type }
                }
            },
            Err(e) => {
                if self.cancel_flag {
                    proof {
                        lemma_chain_prefix_extend(2, UploadStatus::Cancelled);
                    }
                    self.emit(
                        run.item.id,
                        &run.item.input_path,
                        &run.item.metadata,
                        UploadStatus::Cancelled,
                        None,
                    );
                } else {
                    let message = e.message();
                    let text = concat2("Transcoding failed: ", message.as_str());
                    let status = UploadStatus::Error(text);
                    proof {
                        lemma_chain_prefix_extend(2, status);
                    }
                    self.emit(
                        run.item.id,
                        &run.item.input_path,
                        &run.item.metadata,
                        status,
                        Some(message),
                    );
                }
                Action::ItemDone
            },
        }
    }

    /// Handle the result of a blob put. On success the key is recorded as
    /// committed; after the original's upload the compressed file's upload
    /// is requested (or skipped when no temp file exists), and after the
    /// compressed upload the metadata stage begins with the album lookup.
    /// On failure the put is treated as not committed and the item
    /// terminates with `Error`; on observed cancellation it terminates with
    /// `Cancelled`. Either way its committed effects are then cleaned up.
    pub fn on_put_result(&mut self, result: Result<(), String>) -> (a: Action)
        requires
            old(self).inv(),
            old(self).running matches Some(r) && (r.phase is AwaitPutOriginal
                || r.phase is AwaitPutAac),
        ensures
            final(self).inv(),
            handler_frame(*old(self), *final(self)),
            old(self).cancel_flag ==> !forward_action(a),
            ({
                let r = old(self).running->0;
                let it = r.item;
                let key = r.pending_key->0;
                let orig_stage = r.phase is AwaitPutOriginal;
                let it2 = if result is Err {
                    it
                } else if orig_stage {
                    UploadQueueItem { r2_original_key: Some(key), ..it }
                } else {
                    UploadQueueItem { r2_aac_key: Some(key), ..it }
                };
                &&& final(self).world@ == if result is Ok {
                    World { blobs: old(self).world@.blobs.insert(key@), ..old(self).world@ }
                } else {
                    old(self).world@
                }
                &&& match result {
                    Ok(()) => {
                        if old(self).cancel_flag {
                            &&& one_plain_event(
                                *old(self),
                                *final(self),
                                it.id,
                                it.input_path@,
                                UploadStatus::Cancelled,
                                it.metadata,
                            )
                            &&& cleanup_continue_post(
                                final(self).world@,
                                RunState {
                                    item: it2,
                                    phase: r.phase,
                                    pending_key: None,
                                    album_id: None,
                                    terminal: Some(TerminalKind::Cancelled),
                                    clean: Ghost(true),
                                },
                                0,
                                *final(self),
                                a,
                            )
                        } else if orig_stage && it.temp_aac_path is Some {
                            let temp = it.temp_aac_path->0;
                            &&& one_plain_event(
                                *old(self),
                                *final(self),
                                it.id,
                                it.input_path@,
                                UploadStatus::UploadingAAC,
                                it.metadata,
                            )
                            &&& a matches Action::PutBlob { key: k2, source_path, mime_type } && (
                            k2@ == aac_key(temp@) && source_path@ == temp@ && mime_type@
                                == mime_for_path(temp@))
                            &&& final(self).running matches Some(r2) && (r2.item == it2
                                && r2.phase is AwaitPutAac)
                        } else {
                            &&& one_plain_event(
                                *old(self),
                                *final(self),
                                it.id,
                                it.input_path@,
                                UploadStatus::StoringMetadata,
                                it.metadata,
                            )
                            &&& a matches Action::FindAlbum { name, artist } && (name@
                                == resolved_album(it.metadata) && artist@ == resolved_artist(
                                it.metadata,
                            ))
                            &&& final(self).running matches Some(r2) && (r2.item == it2
                                && r2.phase is AwaitFindAlbum)
                        }
                    },
                    Err(m) => {
                        let wrapped = upload_error_text(UploadError::R2UploadError(m));
                        let prefix = if orig_stage {
                            "Original upload failed: "@
                        } else {
                            "AAC upload failed: "@
                        };
                        &&& if old(self).cancel_flag {
                            one_plain_event(
                                *old(self),
                                *final(self),
                                it.id,
                                it.input_path@,
                                UploadStatus::Cancelled,
                                it.metadata,
                            )
                        } else {
                            one_error_event(
                                *old(self),
                                *final(self),
                                it.id,
                                it.input_path@,
                                prefix + wrapped,
                                wrapped,
                                it.metadata,
                            )
                        }
                        &&& cleanup_continue_post(
                            final(self).world@,
                            RunState {
                                item: it,
                                phase: r.phase,
                                pending_key: None,
                                album_id: None,
                                terminal: Some(
                                    if old(self).cancel_flag {
                                        TerminalKind::Cancelled
                                    } else {
                                        TerminalKind::Failed
                                    },
                                ),
                                clean: Ghost(true),
                            },
                            0,
                            *final(self),
                            a,
                        )
                    },
                }
            }),
    {
        let run_opt = self.running.take();
        let mut run = run_opt.unwrap();
        let orig_stage = match run.phase {
            RunPhase::AwaitPutOriginal => true,
            _ => false,
        };
        match result {
            Ok(()) => {
                let key_opt = run.pending_key.take();
                let key = key_opt.unwrap();
                self.world = Ghost(
                    World { blobs: self.world@.blobs.insert(key@), ..self.world@ },
                );
                if orig_stage {
                    run.item.r2_original_key = Some(key);
                } else {
                    run.item.r2_aac_key = Some(key);
                }
                if self.cancel_flag {
                    proof {
                        if orig_stage {
                            lemma_chain_prefix_extend(3, UploadStatus::Cancelled);
                        } else {
                            lemma_chain_prefix_extend(4, UploadStatus::Cancelled);
                        }
                    }
                    self.emit(
                        run.item.id,
                        &run.item.input_path,
                        &run.item.metadata,
                        UploadStatus::Cancelled,
                        None,
                    );
                    run.terminal = Some(TerminalKind::Cancelled);
                    run.clean = Ghost(true);
                    self.begin_cleanup(run, 0)
                } else if orig_stage {
                    match &run.item.temp_aac_path {
                        Some(temp) => {
                            proof {
                                lemma_chain_prefix_extend(3, chain_status(3));
                                assert(chain_prefix(3).push(chain_status(3)) =~= chain_prefix(4));
                            }
                            let temp_clone = temp.clone();
                            self.emit(
                                run.item.id,
                                &run.item.input_path,
                                &run.item.metadata,
                                UploadStatus::UploadingAAC,
                                None,
                            );
                            let k2 = aac_key_string(temp_clone.as_str());
                            let mime_type = guess_mime_type(temp_clone.as_str());
                            run.pending_key = Some(k2.clone());
                            run.phase = RunPhase::AwaitPutAac;
                            self.running = Some(run);
                            Action::PutBlob { key: k2, source_path: temp_clone, mime_type }
                        },
                        None => {
                            proof {
                                lemma_chain_prefix_extend(3, chain_status(4));
                            }
                            self.emit(
                                run.item.id,
                                &run.item.input_path,
                                &run.item.metadata,
                                UploadStatus::StoringMetadata,
                                None,
                            );
                            let name = run.item.metadata.album_name();
                            let artist = run.item.metadata.artist_name();
                            run.phase = RunPhase::AwaitFindAlbum;
                            self.running = Some(run);
                            Action::FindAlbum { name, artist }
                        },
                    }
                } else {
                    proof {
                        lemma_chain_prefix_extend(4, chain_status(4));
                        assert(chain_prefix(4).push(chain_status(4)) =~= chain_prefix(5));
                    }
                    self.emit(
                        run.item.id,
                        &run.item.input_path,
                        &run.item.metadata,
                        UploadStatus::StoringMetadata,
                        None,
                    );
                    let name = run.item.metadata.album_name();
                    let artist = run.item.metadata.artist_name();
                    run.phase = RunPhase::AwaitFindAlbum;
                    self.running = Some(run);
                    Action::FindAlbum { name, artist }
                }
            },
            Err(m) => {
                run.pending_key = None;
                if self.cancel_flag {
                    proof {
                        if orig_stage {
                            lemma_chain_prefix_extend(3, UploadStatus::Cancelled);
                        } else {
                            lemma_chain_prefix_extend(4, UploadStatus::Cancelled);
                        }
                    }
                    self.emit(
                        run.item.id,
                        &run.item.input_path,
                        &run.item.metadata,
                        UploadStatus::Cancelled,
                        None,
                    );
                    run.terminal = Some(TerminalKind::Cancelled);
                } else {
                    let wrapped = UploadError::R2UploadError(m).message();
                    let text = if orig_stage {
                        concat2("Original upload failed: ", wrapped.as_str())
                    } else {
                        concat2("AAC upload failed: ", wrapped.as_str())
                    };
                    let status = UploadStatus::Error(text);
                    proof {
                        if orig_stage {
                            lemma_chain_prefix_extend(3, status);
                        } else {
                            lemma_chain_prefix_extend(4, status);
                        }
                    }
                    self.emit(
                        run.item.id,
                        &run.item.input_path,
                        &run.item.metadata,
                        status,
                        Some(wrapped),
                    );
                    run.terminal = Some(TerminalKind::Failed);
                }
                run.clean = Ghost(true);
                self.begin_cleanup(run, 0)
            },
        }
    }

    /// Handle the result of the album lookup. A found album is reused; a
    /// missing one is inserted; the find-or-create pair is not atomic, so a
    /// concurrent insert may leave a duplicate album (accepted, resolved by
    /// read-side deduplication). On failure the item terminates with
    /// `Error`; on observed cancellation with `Cancelled`.
    pub fn on_find_album_result(&mut self, result: Result<Option<String>, String>) -> (a: Action)
        requires
            old(self).inv(),
            old(self).running matches Some(r) && r.phase is AwaitFindAlbum,
        ensures
            final(self).inv(),
            handler_frame(*old(self), *final(self)),
            old(self).cancel_flag ==> !forward_action(a),
            ({
                let r = old(self).running->0;
                let it = r.item;
                &&& final(self).world@ == (match result {
                    Ok(Some(album_id)) => World {
                        albums: old(self).world@.albums.insert(album_id@),
                        ..old(self).world@
                    },
                    _ => old(self).world@,
                })
                &&& match result {
                    Ok(found) => {
                        if old(self).cancel_flag {
                            &&& one_plain_event(
                                *old(self),
                                *final(self),
                                it.id,
                                it.input_path@,
                                UploadStatus::Cancelled,
                                it.metadata,
                            )
                            &&& cleanup_continue_post(
                                final(self).world@,
                                RunState {
                                    item: it,
                                    phase: r.phase,
                                    pending_key: None,
                                    album_id: found,
                                    terminal: Some(TerminalKind::Cancelled),
                                    clean: Ghost(true),
                                },
                                0,
                                *final(self),
                                a,
                            )
                        } else {
                            &&& final(self).events == old(self).events
                            &&& match found {
                                Some(album_id) => {
                                    &&& a matches Action::InsertTrack { track }
                                        && track_document_matches(
                                        track,
                                        it,
                                        album_id@,
                                        mime_for_path(it.input_path@),
                                    )
                                    &&& final(self).running matches Some(r2) && (r2.item == it
                                        && r2.phase is AwaitInsertTrack && r2.album_id == Some(
                                        album_id,
                                    ))
                                },
                                None => {
                                    &&& a matches Action::InsertAlbum { album }
                                        && album_document_matches(album, it.metadata)
                                    &&& final(self).running matches Some(r2) && (r2.item == it
                                        && r2.phase is AwaitInsertAlbum)
                                },
                            }
                        }
                    },
                    Err(m) => {
                        let wrapped = "MongoDB operation failed: "@ + ("Album lookup failed: "@
                            + m@);
                        &&& if old(self).cancel_flag {
                            one_plain_event(
                                *old(self),
                                *final(self),
                                it.id,
                                it.input_path@,
                                UploadStatus::Cancelled,
                                it.metadata,
                            )
                        } else {
                            one_error_event(
                                *old(self),
                                *final(self),
                                it.id,
                                it.input_path@,
                                "Metadata storage failed: "@ + wrapped,
                                wrapped,
                                it.metadata,
                            )
                        }
                        &&& cleanup_continue_post(
                            final(self).world@,
                            RunState {
                                item: it,
                                phase: r.phase,
                                pending_key: None,
                                album_id: None,
                                terminal: Some(
                                    if old(self).cancel_flag {
                                        TerminalKind::Cancelled
                                    } else {
                                        TerminalKind::Failed
                                    },
                                ),
                                clean: Ghost(true),
                            },
                            0,
                            *final(self),
                            a,
                        )
                    },
                }
            }),
    {
        let run_opt = self.running.take();
        let mut run = run_opt.unwrap();
        match result {
            Ok(found) => {
                match &found {
                    Some(album_id) => {
                        self.world = Ghost(
                            World {
                                albums: self.world@.albums.insert(album_id@),
                                ..self.world@
                            },
                        );
                    },
                    None => {},
                }
                if self.cancel_flag {
                    proof {
                        lemma_chain_prefix_extend(5, UploadStatus::Cancelled);
                    }
                    self.emit(
                        run.item.id,
                        &run.item.input_path,
                        &run.item.metadata,
                        UploadStatus::Cancelled,
                        None,
                    );
                    run.album_id = found;
                    run.terminal = Some(TerminalKind::Cancelled);
                    run.clean = Ghost(true);
                    self.begin_cleanup(run, 0)
                } else {
                    match found {
                        Some(album_id) => {
                            let mime = guess_mime_type(run.item.input_path.as_str());
                            let track = build_track_document(&run.item, album_id.clone(), mime);
                            run.album_id = Some(album_id);
                            run.phase = RunPhase::AwaitInsertTrack;
                            self.running = Some(run);
                            Action::InsertTrack { track }
                        },
                        None => {
                            let album = build_album_document(&run.item.metadata);
                            run.phase = RunPhase::AwaitInsertAlbum;
                            self.running = Some(run);
                            Action::InsertAlbum { album }
                        },
                    }
                }
            },
            Err(m) => {
                let inner = concat2("Album lookup failed: ", m.as_str());
                if self.cancel_flag {
                    proof {
                        lemma_chain_prefix_extend(5, UploadStatus::Cancelled);
                    }
                    self.emit(
                        run.item.id,
                        &run.item.input_path,
                        &run.item.metadata,
                        UploadStatus::Cancelled,
                        None,
                    );
                    run.terminal = Some(TerminalKind::Cancelled);
                } else {
                    let wrapped = UploadError::MongoDbError(inner).message();
                    let text = concat2("Metadata storage failed: ", wrapped.as_str());
                    let status = UploadStatus::Error(text);
                    proof {
                        lemma_chain_prefix_extend(5, status);
                    }
                    self.emit(
                        run.item.id,
                        &run.item.input_path,
                        &run.item.metadata,
                        status,
                        Some(wrapped),
                    );
                    run.terminal = Some(TerminalKind::Failed);
                }
                run.clean = Ghost(true);
                self.begin_cleanup(run, 0)
            },
        }
    }

    /// Handle the result of the album insert: on success the track insert
    /// is requested, referencing the assigned album id. On failure the item
    /// terminates with `Error`; on observed cancellation with `Cancelled`.
    /// A newly inserted album is never rolled back.
    pub fn on_insert_album_result(&mut self, result: Result<String, String>) -> (a: Action)
        requires
            old(self).inv(),
            old(self).running matches Some(r) && r.phase is AwaitInsertAlbum,
        ensures
            final(self).inv(),
            handler_frame(*old(self), *final(self)),
            old(self).cancel_flag ==> !forward_action(a),
            ({
                let r = old(self).running->0;
                let it = r.item;
                &&& final(self).world@ == (match result {
                    Ok(album_id) => World {
                        albums: old(self).world@.albums.insert(album_id@),
                        ..old(self).world@
                    },
                    Err(m) => old(self).world@,
                })
                &&& match result {
                    Ok(album_id) => {
                        if old(self).cancel_flag {
                            &&& one_plain_event(
                                *old(self),
                                *final(self),
                                it.id,
                                it.input_path@,
                                UploadStatus::Cancelled,
                                it.metadata,
                            )
                            &&& cleanup_continue_post(
                                final(self).world@,
                                RunState {
                                    item: it,
                                    phase: r.phase,
                                    pending_key: None,
                                    album_id: Some(album_id),
                                    terminal: Some(TerminalKind::Cancelled),
                                    clean: Ghost(true),
                                },
                                0,
                                *final(self),
                                a,
                            )
                        } else {
                            &&& final(self).events == old(self).events
                            &&& a matches Action::InsertTrack { track } && track_document_matches(
                                track,
                                it,
                                album_id@,
                                mime_for_path(it.input_path@),
                            )
                            &&& final(self).running matches Some(r2) && (r2.item == it
                                && r2.phase is AwaitInsertTrack && r2.album_id == Some(album_id))
                        }
                    },
                    Err(m) => {
                        let wrapped = "MongoDB operation failed: "@ + ("Album insert failed: "@
                            + m@);
                        &&& if old(self).cancel_flag {
                            one_plain_event(
                                *old(self),
                                *final(self),
                                it.id,
                                it.input_path@,
                                UploadStatus::Cancelled,
                                it.metadata,
                            )
                        } else {
                            one_error_event(
                                *old(self),
                                *final(self),
                                it.id,
                                it.input_path@,
                                "Metadata storage failed: "@ + wrapped,
                                wrapped,
                                it.metadata,
                            )
                        }
                        &&& cleanup_continue_post(
                            final(self).world@,
                            RunState {
                                item: it,
                                phase: r.phase,
                                pending_key: None,
                                album_id: None,
                                terminal: Some(
                                    if old(self).cancel_flag {
                                        TerminalKind::Cancelled
                                    } else {
                                        TerminalKind::Failed
                                    },
                                ),
                                clean: Ghost(true),
                            },
                            0,
                            *final(self),
                            a,
                        )
                    },
                }
            }),
    {
        let run_opt = self.running.take();
        let mut run = run_opt.unwrap();
        match result {
            Ok(album_id) => {
                self.world = Ghost(
                    World { albums: self.world@.albums.insert(album_id@), ..self.world@ },
                );
                if self.cancel_flag {
                    proof {
                        lemma_chain_prefix_extend(5, UploadStatus::Cancelled);
                    }
                    self.emit(
                        run.item.id,
                        &run.item.input_path,
                        &run.item.metadata,
                        UploadStatus::Cancelled,
                        None,
                    );
                    run.album_id = Some(album_id);
                    run.terminal = Some(TerminalKind::Cancelled);
                    run.clean = Ghost(true);
                    self.begin_cleanup(run, 0)
                } else {
                    let mime = guess_mime_type(run.item.input_path.as_str());
                    let track = build_track_document(&run.item, album_id.clone(), mime);
                    run.album_id = Some(album_id);
                    run.phase = RunPhase::AwaitInsertTrack;
                    self.running = Some(run);
                    Action::InsertTrack { track }
                }
            },
            Err(m) => {
                let inner = concat2("Album insert failed: ", m.as_str());
                if self.cancel_flag {
                    proof {
                        lemma_chain_prefix_extend(5, UploadStatus::Cancelled);
                    }
                    self.emit(
                        run.item.id,
                        &run.item.input_path,
                        &run.item.metadata,
                        UploadStatus::Cancelled,
                        None,
                    );
                    run.terminal = Some(TerminalKind::Cancelled);
                } else {
                    let wrapped = UploadError::MongoDbError(inner).message();
                    let text = concat2("Metadata storage failed: ", wrapped.as_str());
                    let status = UploadStatus::Error(text);
                    proof {
                        lemma_chain_prefix_extend(5, status);
                    }
                    self.emit(
                        run.item.id,
                        &run.item.input_path,
                        &run.item.metadata,
                        status,
                        Some(wrapped),
                    );
                    run.terminal = Some(TerminalKind::Failed);
                }
                run.clean = Ghost(true);
                self.begin_cleanup(run, 0)
            },
        }
    }

    /// Handle the result of the track insert. On success the item is
    /// complete: its original and compressed blobs and its track and album
    /// documents are durable, and only its temp file is cleaned up. On
    /// failure the item terminates with `Error`; on observed cancellation
    /// with `Cancelled`, and the freshly inserted track document is deleted
    /// again with the item's other committed effects.
    pub fn on_insert_track_result(&mut self, result: Result<String, String>) -> (a: Action)
        requires
            old(self).inv(),
            old(self).running matches Some(r) && r.phase is AwaitInsertTrack,
        ensures
            final(self).inv(),
            handler_frame(*old(self), *final(self)),
            old(self).cancel_flag ==> !forward_action(a),
            ({
                let r = old(self).running->0;
                let it = r.item;
                let it2 = match result {
                    Ok(track_id) => UploadQueueItem { db_track_id: Some(track_id), ..it },
                    Err(m) => it,
                };
                &&& final(self).world@ == (match result {
                    Ok(track_id) => World {
                        tracks: old(self).world@.tracks.insert(track_id@),
                        ..old(self).world@
                    },
                    Err(m) => old(self).world@,
                })
                &&& match result {
                    Ok(track_id) => {
                        if old(self).cancel_flag {
                            &&& one_plain_event(
                                *old(self),
                                *final(self),
                                it.id,
                                it.input_path@,
                                UploadStatus::Cancelled,
                                it.metadata,
                            )
                            &&& cleanup_continue_post(
                                final(self).world@,
                                RunState {
                                    item: it2,
                                    phase: r.phase,
                                    pending_key: None,
                                    album_id: r.album_id,
                                    terminal: Some(TerminalKind::Cancelled),
                                    clean: Ghost(true),
                                },
                                0,
                                *final(self),
                                a,
                            )
                        } else {
                            &&& one_plain_event(
                                *old(self),
                                *final(self),
                                it.id,
                                it.input_path@,
                                UploadStatus::Complete,
                                it.metadata,
                            )
                            &&& cleanup_continue_post(
                                final(self).world@,
                                RunState {
                                    item: it2,
                                    phase: r.phase,
                                    pending_key: None,
                                    album_id: r.album_id,
                                    terminal: Some(TerminalKind::Complete),
                                    clean: Ghost(true),
                                },
                                3,
                                *final(self),
                                a,
                            )
                        }
                    },
                    Err(m) => {
                        let wrapped = "MongoDB operation failed: "@ + ("Track insert failed: "@
                            + m@);
                        &&& if old(self).cancel_flag {
                            one_plain_event(
                                *old(self),
                                *final(self),
                                it.id,
                                it.input_path@,
                                UploadStatus::Cancelled,
                                it.metadata,
                            )
                        } else {
                            one_error_event(
                                *old(self),
                                *final(self),
                                it.id,
                                it.input_path@,
                                "Metadata storage failed: "@ + wrapped,
                                wrapped,
                                it.metadata,
                            )
                        }
                        &&& cleanup_continue_post(
                            final(self).world@,
                            RunState {
                                item: it,
                                phase: r.phase,
                                pending_key: None,
                                album_id: r.album_id,
                                terminal: Some(
                                    if old(self).cancel_flag {
                                        TerminalKind::Cancelled
                                    } else {
                                        TerminalKind::Failed
                                    },
                                ),
                                clean: Ghost(true),
                            },
                            0,
                            *final(self),
                            a,
                        )
                    },
                }
            }),
    {
        let run_opt = self.running.take();
        let mut run = run_opt.unwrap();
        match result {
            Ok(track_id) => {
                self.world = Ghost(
                    World { tracks: self.world@.tracks.insert(track_id@), ..self.world@ },
                );
                run.item.db_track_id = Some(track_id);
                if self.cancel_flag {
                    proof {
                        lemma_chain_prefix_extend(5, UploadStatus::Cancelled);
                    }
                    self.emit(
                        run.item.id,
                        &run.item.input_path,
                        &run.item.metadata,
                        UploadStatus::Cancelled,
                        None,
                    );
                    run.terminal = Some(TerminalKind::Cancelled);
                    run.clean = Ghost(true);
                    self.begin_cleanup(run, 0)
                } else {
                    proof {
                        lemma_chain_prefix_extend(5, chain_status(5));
                        assert(chain_prefix(5).push(chain_status(5)) =~= chain_prefix(6));
                    }
                    self.emit(
                        run.item.id,
                        &run.item.input_path,
                        &run.item.metadata,
                        UploadStatus::Complete,
                        None,
                    );
                    run.terminal = Some(TerminalKind::Complete);
                    run.clean = Ghost(true);
                    self.begin_cleanup(run, 3)
                }
            },
            Err(m) => {
                let inner = concat2("Track insert failed: ", m.as_str());
                if self.cancel_flag {
                    proof {
                        lemma_chain_prefix_extend(5, UploadStatus::Cancelled);
                    }
                    self.emit(
                        run.item.id,
                        &run.item.input_path,
                        &run.item.metadata,
                        UploadStatus::Cancelled,
                        None,
                    );
                    run.terminal = Some(TerminalKind::Cancelled);
                } else {
                    let wrapped = UploadError::MongoDbError(inner).message();
                    let text = concat2("Metadata storage failed: ", wrapped.as_str());
                    let status = UploadStatus::Error(text);
                    proof {
                        lemma_chain_prefix_extend(5, status);
                    }
                    self.emit(
                        run.item.id,
                        &run.item.input_path,
                        &run.item.metadata,
                        status,
                        Some(wrapped),
                    );
                    run.terminal = Some(TerminalKind::Failed);
                }
                run.clean = Ghost(true);
                self.begin_cleanup(run, 0)
            },
        }
    }

    /// Continue the drain after admission: pull the first item, or finish
    /// the batch at once if the queue is empty or cancellation was already
    /// requested.
    pub fn resume(&mut self) -> (a: Action)
        requires
            old(self).inv(),
            old(self).is_processing,
            old(self).running is None,
        ensures
            final(self).inv(),
            advance_post(*old(self), *final(self), a),
            old(self).cancel_flag ==> !forward_action(a),
    {
        self.advance()
    }

    /// Admit a batch. `files_exist[j]` reports whether the file of
    /// `items[j]` exists; the driver checks before calling.
    ///
    /// Admission fails, and changes nothing, exactly when a capability is
    /// missing or the batch is empty. Otherwise the cancel flag is cleared,
    /// every item gets a fresh id; an item whose file is missing terminates
    /// at once with `Error("File not found")`, every other item is enqueued
    /// and seeded at `Pending`; and a drain is running when the call
    /// returns.
    pub fn start_upload_queue(
        &mut self,
        items: Vec<UploadItemInput>,
        files_exist: Vec<bool>,
    ) -> (r: Result<(), UploadError>)
        requires
            old(self).inv(),
            files_exist@.len() == items@.len(),
            old(self).next_item_id + items@.len() < u64::MAX,
        ensures
            final(self).inv(),
            match r {
                Err(e) => {
                    &&& *final(self) == *old(self)
                    &&& (e is R2ClientNotInitialized <==> !old(self).r2_available)
                    &&& (e is MongoDbClientNotInitialized <==> (old(self).r2_available && !old(
                        self,
                    ).mongo_available))
                    &&& (e matches UploadError::InvalidInput(m) ==> (old(self).r2_available && old(
                        self,
                    ).mongo_available && items@.len() == 0 && m@ == "No items provided for upload."@))
                    &&& (e is R2ClientNotInitialized || e is MongoDbClientNotInitialized
                        || e is InvalidInput)
                },
                Ok(()) => {
                    &&& old(self).r2_available && old(self).mongo_available && items@.len() > 0
                    &&& !final(self).cancel_flag
                    &&& final(self).is_processing
                    &&& final(self).running == old(self).running
                    &&& final(self).world == old(self).world
                    &&& final(self).next_item_id == old(self).next_item_id + items@.len()
                    &&& final(self).queue@ == old(self).queue@ + admitted_items(
                        items@,
                        files_exist@,
                        old(self).next_item_id,
                    )
                    &&& final(self).events@.len() == old(self).events@.len() + items@.len()
                    &&& forall|j: int|
                        0 <= j < items@.len()
                            ==> #[trigger] final(self).events@[old(self).events@.len() + j].item_id
                            == old(self).next_item_id + j
                    &&& forall|j: int| 0 <= j < items@.len() && files_exist@[j] ==> event_matches(
                        #[trigger] final(self).events@[old(self).events@.len() + j],
                        (old(self).next_item_id + j) as u64,
                        items@[j].path@,
                        UploadStatus::Pending,
                        None,
                        items@[j].metadata,
                    )
                    &&& forall|j: int| 0 <= j < items@.len() && !files_exist@[j] ==> {
                        let e = #[trigger] final(self).events@[old(self).events@.len() + j];
                        &&& e.original_path@ == items@[j].path@
                        &&& error_status(e.status, "File not found"@)
                        &&& opt_view(e.error_message) == Some("Input file does not exist."@)
                        &&& opt_view(e.title) == opt_view(items@[j].metadata.title)
                        &&& opt_view(e.album) == opt_view(items@[j].metadata.album)
                    }
                    &&& forall|j: int|
                        0 <= j < items@.len() && files_exist@[j]
                            ==> #[trigger] final(self).history((old(self).next_item_id + j) as u64)
                            == chain_prefix(1)
                    &&& forall|id: u64|
                        id < old(self).next_item_id
                            ==> #[trigger] final(self).history(id) == old(self).history(id)
                    &&& final(self).drains_started@ == old(self).drains_started@ + (
                    if old(self).is_processing {
                        0int
                    } else {
                        1
                    })
                },
            },
    {
        if !self.r2_available {
            return Err(UploadError::R2ClientNotInitialized);
        }
        if !self.mongo_available {
            return Err(UploadError::MongoDbClientNotInitialized);
        }
        if items.len() == 0 {
            return Err(UploadError::InvalidInput("No items provided for upload.".to_owned()));
        }
        self.cancel_flag = false;
        let ghost all_items = items@;
        let ghost all_exist = files_exist@;
        let ghost base = self.next_item_id;
        let ghost pre = *self;
        let n = items.len();
        let mut items = items;
        let mut j: usize = 0;
        while j < n
            invariant
                histories_ok(self.events@, self.next_item_id),
                queue_entries_ok(self.events@, self.next_item_id, self.queue@),
                match self.running {
                    Some(r) => {
                        &&& run_ok(self.events@, self.world@, self.next_item_id, r)
                        &&& forall|k: int|
                            0 <= k < self.queue@.len() ==> #[trigger] self.queue@[k].id
                                != r.item.id
                        &&& self.is_processing
                    },
                    None => true,
                },
                n == all_items.len(),
                all_exist.len() == all_items.len(),
                files_exist@ == all_exist,
                j <= n,
                items@ =~= all_items.subrange(j as int, n as int),
                base + n < u64::MAX,
                self.next_item_id == base + j,
                self.queue@ == pre.queue@ + admitted_items(
                    all_items.take(j as int),
                    all_exist.take(j as int),
                    base,
                ),
                self.events@.len() == pre.events@.len() + j,
                forall|i: int|
                    0 <= i < j ==> #[trigger] self.events@[pre.events@.len() + i].item_id == base
                        + i,
                forall|i: int| 0 <= i < j && all_exist[i] ==> event_matches(
                    #[trigger] self.events@[pre.events@.len() + i],
                    (base + i) as u64,
                    all_items[i].path@,
                    UploadStatus::Pending,
                    None,
                    all_items[i].metadata,
                ),
                forall|i: int| 0 <= i < j && !all_exist[i] ==> {
                    let e = #[trigger] self.events@[pre.events@.len() + i];
                    &&& e.original_path@ == all_items[i].path@
                    &&& error_status(e.status, "File not found"@)
                    &&& opt_view(e.error_message) == Some("Input file does not exist."@)
                    &&& opt_view(e.title) == opt_view(all_items[i].metadata.title)
                    &&& opt_view(e.album) == opt_view(all_items[i].metadata.album)
                },
                forall|i: int|
                    0 <= i < j && all_exist[i] ==> #[trigger] statuses_of(
                        self.events@,
                        (base + i) as u64,
                    ) == chain_prefix(1),
                forall|id: u64|
                    id < base ==> #[trigger] statuses_of(self.events@, id) == statuses_of(
                        pre.events@,
                        id,
                    ),
                self.running == pre.running,
                self.world == pre.world,
                self.is_processing == pre.is_processing,
                self.cancel_flag == false,
                self.r2_available && self.mongo_available,
                self.drains_started == pre.drains_started,
                self.drains_finished == pre.drains_finished,
            decreases n - j,
        {
            let input = items.remove(0);
            proof {
                assert(input == all_items[j as int]);
            }
            let id = self.next_item_id;
            proof {
                assert(statuses_of(self.events@, id) == Seq::<UploadStatus>::empty());
                assert(chain_prefix(0) =~= Seq::<UploadStatus>::empty());
            }
            self.next_item_id = id + 1;
            let exists_here = files_exist[j];
            if exists_here {
                proof {
                    lemma_chain_prefix_extend(0, chain_status(0));
                }
                self.emit(id, &input.path, &input.metadata, UploadStatus::Pending, None);
                proof {
                    assert(chain_prefix(0).push(chain_status(0)) =~= chain_prefix(1));
                }
                let item = UploadQueueItem {
                    id,
                    input_path: input.path,
                    metadata: input.metadata,
                    temp_aac_path: None,
                    r2_original_key: None,
                    r2_aac_key: None,
                    db_track_id: None,
                };
                proof {
                    assert(item == fresh_item(all_items[j as int], id));
                }
                self.queue.push(item);
            } else {
                let status = UploadStatus::Error("File not found".to_owned());
                proof {
                    lemma_chain_prefix_extend(0, status);
                }
                self.emit(
                    id,
                    &input.path,
                    &input.metadata,
                    status,
                    Some("Input file does not exist.".to_owned()),
                );
            }
            j = j + 1;
            proof {
                assert(all_items.take(j as int).drop_last() =~= all_items.take(j - 1));
                assert(all_exist.take(j as int).drop_last() =~= all_exist.take(j - 1));
                assert(all_items.take(j as int).last() == all_items[j - 1]);
                assert(items@ =~= all_items.subrange(j as int, n as int));
                assert(self.queue@ =~= pre.queue@ + admitted_items(
                    all_items.take(j as int),
                    all_exist.take(j as int),
                    base,
                ));
            }
        }
        proof {
            assert(all_items.take(n as int) =~= all_items);
            assert(all_exist.take(n as int) =~= all_exist);
        }
        if !self.is_processing {
            self.is_processing = true;
            self.drains_started = Ghost(self.drains_started@ + 1);
        }
        Ok(())
    }
}

} // verus!
