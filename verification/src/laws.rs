//! The pipeline's global guarantees, stated as proof functions over any
//! reachable state (any state satisfying the invariant).
//!
//! The cleanup guarantees live in the handler contracts: `item_settled` in
//! `pipeline` states that a terminated item leaves no temp file, and no
//! track document or blob unless it completed, and that a completed item's
//! blobs and documents are durable. The cancellation-promptness guarantee is
//! the `cancel_flag ==> !forward_action` clause on every handler.

use vstd::prelude::*;
use crate::pipeline::{UploadPipeline, TerminalKind, cancelled_state, slot_absent};
use crate::status::{UploadStatus, valid_history, chain_status, chain_prefix, spec_is_terminal,
    lemma_valid_history_terminal_is_last, lemma_terminal_history_is_maximal};

verus! {

/// Terminal uniqueness: for every item id, no terminal status stands
/// anywhere but at the very end of its emitted history, and once a terminal
/// status has been emitted no further status for that id is ever legal.
pub proof fn lemma_terminal_unique(p: UploadPipeline, id: u64, s: UploadStatus)
    requires
        p.inv(),
    ensures
        forall|i: int| 0 <= i < p.history(id).len() - 1 ==> !spec_is_terminal(p.history(id)[i]),
        p.history(id).len() > 0 && spec_is_terminal(p.history(id).last()) ==> !valid_history(
            p.history(id).push(s),
        ),
{
    assert(valid_history(p.history(id)));
    lemma_valid_history_terminal_is_last(p.history(id));
    if p.history(id).len() > 0 && spec_is_terminal(p.history(id).last()) {
        lemma_terminal_history_is_maximal(p.history(id), s);
    }
}

/// Status monotonicity: the statuses emitted for any item are a prefix of
/// `Pending, Transcoding, UploadingOriginal, UploadingAAC, StoringMetadata,
/// Complete`, in order, optionally cut short by one terminal off-ramp.
pub proof fn lemma_status_monotone(p: UploadPipeline, id: u64)
    requires
        p.inv(),
    ensures
        valid_history(p.history(id)),
        forall|i: int| 0 <= i < p.history(id).len() - 1 ==> p.history(id)[i] == chain_status(i),
{
    assert(valid_history(p.history(id)));
}

/// Batch-done accounting: in every reachable state, exactly one batch-done
/// signal has been emitted for every drain that has ended, and none for the
/// drain still running.
pub proof fn lemma_batch_done_once(p: UploadPipeline)
    requires
        p.inv(),
    ensures
        p.drains_finished@ == p.drains_started@ - (if p.is_processing {
            1int
        } else {
            0
        }),
{
}

/// Complete implies durable: while a completed item finishes (only its temp
/// file is still being deleted), its original blob, its compressed blob when
/// one was made, its track document and the album document it references all
/// exist, and its full success history has been emitted. The deletes of the
/// cleanup never touch them, so they also hold when the item is done (the
/// `item_settled` clause of the final delete's contract).
pub proof fn lemma_complete_is_durable(p: UploadPipeline)
    requires
        p.inv(),
        p.running matches Some(r) && (r.phase is AwaitDelete && r.terminal == Some(
            TerminalKind::Complete,
        )),
    ensures
        ({
            let r = p.running->0;
            let it = r.item;
            &&& it.r2_original_key matches Some(k) && p.world@.blobs.contains(k@)
            &&& it.r2_aac_key matches Some(k) ==> p.world@.blobs.contains(k@)
            &&& it.db_track_id matches Some(d) && p.world@.tracks.contains(d@)
            &&& r.album_id matches Some(b) && p.world@.albums.contains(b@)
            &&& p.history(it.id) == chain_prefix(6)
        }),
{
}

/// Compensation progress: while a cancelled or failed item is being unwound
/// and every delete so far succeeded, every cleanup slot already passed —
/// the track document, then the compressed blob, then the original blob,
/// then the temp file — is gone from the world. When the last delete's
/// result arrives, the `item_settled` clause of its contract extends this to
/// all four: no temp file, no track document and no blob of the item
/// remains.
pub proof fn lemma_abandoned_is_compensated(p: UploadPipeline)
    requires
        p.inv(),
        p.running matches Some(r) && (r.phase is AwaitDelete && !(r.terminal == Some(
            TerminalKind::Complete,
        ))),
    ensures
        ({
            let r = p.running->0;
            let slot = r.phase->AwaitDelete_slot as int;
            r.clean@ ==> forall|s: int| 0 <= s < slot ==> slot_absent(p.world@, r.item, s)
        }),
{
}

/// Cancellation is idempotent: requesting cancellation of an already
/// cancelled pipeline changes nothing, so any number of requests leaves the
/// state one request leaves.
pub proof fn lemma_cancel_idempotent(p: UploadPipeline)
    ensures
        cancelled_state(cancelled_state(p)) == cancelled_state(p),
{
}

} // verus!
