//! Per-item status values and the shape of a legal progress history.

use vstd::prelude::*;

verus! {

/// Status of one upload item as it moves through the pipeline.
///
/// The non-terminal statuses form a linear chain
/// `Pending -> Transcoding -> UploadingOriginal -> UploadingAAC ->
/// StoringMetadata -> Complete`; `Cancelled` and `Error` are terminal
/// off-ramps reachable from any point before `Complete`.
#[derive(Debug, Clone, PartialEq)]
pub enum UploadStatus {
    Pending,
    Transcoding,
    UploadingOriginal,
    UploadingAAC,
    StoringMetadata,
    Complete,
    Cancelled,
    Error(String),
}

/// The status at position `i` of the success chain.
pub open spec fn chain_status(i: int) -> UploadStatus {
    if i == 0 {
        UploadStatus::Pending
    } else if i == 1 {
        UploadStatus::Transcoding
    } else if i == 2 {
        UploadStatus::UploadingOriginal
    } else if i == 3 {
        UploadStatus::UploadingAAC
    } else if i == 4 {
        UploadStatus::StoringMetadata
    } else {
        UploadStatus::Complete
    }
}

/// The first `k` statuses of the success chain, in order.
pub open spec fn chain_prefix(k: int) -> Seq<UploadStatus> {
    Seq::new(k as nat, |i: int| chain_status(i))
}

/// A terminal status: no further status is ever emitted for the item.
pub open spec fn spec_is_terminal(s: UploadStatus) -> bool {
    s is Complete || s is Cancelled || s is Error
}

/// A terminal status other than `Complete`: the item was abandoned and its
/// committed side effects have to be compensated.
pub open spec fn spec_is_offramp(s: UploadStatus) -> bool {
    s is Cancelled || s is Error
}

impl UploadStatus {
    /// Whether this status is terminal (`Complete`, `Cancelled` or `Error`).
    pub fn is_terminal(&self) -> (r: bool)
        ensures
            r == spec_is_terminal(*self),
    {
        match self {
            UploadStatus::Complete => true,
            UploadStatus::Cancelled => true,
            UploadStatus::Error(_) => true,
            _ => false,
        }
    }
}

/// The sequences of statuses that a single item may ever emit: a prefix of
/// the success chain, optionally cut short at any point before `Complete` by
/// one terminal off-ramp (`Cancelled` or `Error`).
pub open spec fn valid_history(h: Seq<UploadStatus>) -> bool {
    &&& h.len() <= 6
    &&& forall|i: int| 0 <= i < h.len() - 1 ==> h[i] == chain_status(i)
    &&& h.len() > 0 ==> (h.last() == chain_status(h.len() - 1) || spec_is_offramp(h.last()))
}

/// In a legal history every status before the last is non-terminal, so an
/// item emits at most one terminal status, and only as its final event.
pub proof fn lemma_valid_history_terminal_is_last(h: Seq<UploadStatus>)
    requires
        valid_history(h),
    ensures
        forall|i: int| 0 <= i < h.len() - 1 ==> !spec_is_terminal(h[i]),
{
    assert forall|i: int| 0 <= i < h.len() - 1 implies !spec_is_terminal(h[i]) by {
        assert(h[i] == chain_status(i));
        assert(i < 5);
    }
}

/// A history that ends in a terminal status cannot be extended: no further
/// event for the item is ever legal.
pub proof fn lemma_terminal_history_is_maximal(h: Seq<UploadStatus>, s: UploadStatus)
    requires
        valid_history(h),
        h.len() > 0,
        spec_is_terminal(h.last()),
    ensures
        !valid_history(h.push(s)),
{
    let g = h.push(s);
    if valid_history(g) {
        assert(g[h.len() - 1] == chain_status(h.len() - 1));
        assert(g[h.len() - 1] == h.last());
        if h.last() is Complete {
            assert(h.len() == 6);
            assert(g.len() > 6);
        } else {
            assert(!spec_is_terminal(chain_status(h.len() - 1)));
        }
    }
}

/// A legal history that is a chain prefix may be extended by the next chain
/// status or by a terminal off-ramp.
pub proof fn lemma_chain_prefix_extend(k: int, s: UploadStatus)
    requires
        0 <= k <= 5,
        s == chain_status(k) || spec_is_offramp(s),
    ensures
        valid_history(chain_prefix(k).push(s)),
        chain_prefix(k).push(s) == chain_prefix(k + 1) || spec_is_offramp(s),
{
    let h = chain_prefix(k).push(s);
    if s == chain_status(k) && !spec_is_offramp(s) {
        assert(h =~= chain_prefix(k + 1));
    }
}

} // verus!
