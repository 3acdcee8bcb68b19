//! Progress events and per-item status histories.

use vstd::prelude::*;
use crate::status::UploadStatus;
use crate::metadata::UploadItemMetadata;
use crate::strings::opt_view;

verus! {

/// One progress event for one item. The item id keys the event; the path,
/// title and album are carried along for display.
#[derive(Debug, Clone, PartialEq)]
pub struct UploadProgress {
    pub item_id: u64,
    pub original_path: String,
    pub status: UploadStatus,
    pub error_message: Option<String>,
    pub title: Option<String>,
    pub album: Option<String>,
}

/// The statuses emitted for item `id`, in emission order, projected out of
/// the full event log.
pub open spec fn statuses_of(events: Seq<UploadProgress>, id: u64) -> Seq<UploadStatus>
    decreases events.len(),
{
    if events.len() == 0 {
        Seq::empty()
    } else if events.last().item_id == id {
        statuses_of(events.drop_last(), id).push(events.last().status)
    } else {
        statuses_of(events.drop_last(), id)
    }
}

/// Appending one event extends exactly the history of its own item.
pub proof fn lemma_statuses_push(events: Seq<UploadProgress>, e: UploadProgress, id: u64)
    ensures
        statuses_of(events.push(e), id) == if e.item_id == id {
            statuses_of(events, id).push(e.status)
        } else {
            statuses_of(events, id)
        },
{
    assert(events.push(e).drop_last() =~= events);
    assert(events.push(e).last() == e);
}

/// What an event must look like: the given id, path view, status, error
/// message view, and the title and album views of the item's metadata.
pub open spec fn event_matches(
    e: UploadProgress,
    id: u64,
    path: Seq<char>,
    status: UploadStatus,
    error_message: Option<Seq<char>>,
    m: UploadItemMetadata,
) -> bool {
    &&& e.item_id == id
    &&& e.original_path@ == path
    &&& e.status == status
    &&& opt_view(e.error_message) == error_message
    &&& opt_view(e.title) == opt_view(m.title)
    &&& opt_view(e.album) == opt_view(m.album)
}

/// An `Error` status whose message reads `msg`.
pub open spec fn error_status(s: UploadStatus, msg: Seq<char>) -> bool {
    s is Error && s->Error_0@ == msg
}

} // verus!
