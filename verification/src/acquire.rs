//! The snapshot acquirer's retry protocol.
//!
//! The system query either fills the caller's buffer, or reports that the
//! buffer is too small together with the length it requires, or fails
//! outright. The acquirer retries with exactly the reported length until the
//! query settles; any terminal status other than success is fatal and is not
//! retried. `acquire_step` is the per-reply decision; the whole exchange is
//! folded by `crate::status::ThreadStatus::query_system_information`, which
//! settles on the first reply that is not a length mismatch.

use vstd::prelude::*;

verus! {

/// The status code the query returns on success.
pub const QUERY_STATUS_SUCCESS: i32 = 0;

/// The status code the query returns when the buffer was too small and the
/// required length has been reported instead.
pub const QUERY_STATUS_INFO_LENGTH_MISMATCH: i32 = -1073741820;

/// What one issue of the system query came back with.
pub enum QueryReply {
    /// The buffer was large enough and holds the snapshot.
    Success { data: Vec<u8> },
    /// The buffer was too small; `required` is the length to retry with.
    InfoLengthMismatch { required: u32 },
    /// A terminal failure, carrying the raw status code.
    Failure { status: i32 },
}

/// What the acquirer does next after one reply.
pub enum AcquireAction {
    /// Reissue the query with a buffer of exactly `size` bytes.
    Retry { size: u32 },
    /// The query succeeded; the buffer holds the snapshot.
    Accept,
    /// Terminal failure; abort the whole check with this status.
    Fail { status: i32 },
}

/// How an acquisition run settled.
pub enum AcquireResult {
    /// The query succeeded on attempt `attempts`, issued with a buffer of
    /// `final_size` bytes, and `data` is the snapshot.
    Acquired { data: Vec<u8>, attempts: usize, final_size: u32 },
    /// The query failed terminally on attempt `attempts`.
    Failed { status: i32, attempts: usize },
    /// Every reply supplied was a length mismatch; the run never settled.
    Exhausted { attempts: usize },
}

pub open spec fn reply_is_mismatch(r: QueryReply) -> bool {
    r is InfoLengthMismatch
}

/// The required length carried by a mismatch reply.
pub open spec fn reply_required(r: QueryReply) -> u32 {
    match r {
        QueryReply::InfoLengthMismatch { required } => required,
        _ => 0,
    }
}

/// The raw status carried by a failure reply.
pub open spec fn reply_status(r: QueryReply) -> i32 {
    match r {
        QueryReply::Failure { status } => status,
        _ => 0,
    }
}

/// The snapshot carried by a success reply.
pub open spec fn reply_data(r: QueryReply) -> Seq<u8> {
    match r {
        QueryReply::Success { data } => data@,
        _ => Seq::empty(),
    }
}

/// The buffer size the acquirer uses for attempt `k` (counted from 0): the
/// initial size for the first attempt, afterwards verbatim the length the
/// previous mismatch reported — never guessed or rounded.
pub open spec fn size_for_attempt(initial: u32, replies: Seq<QueryReply>, k: int) -> u32 {
    if k == 0 {
        initial
    } else {
        reply_required(replies[k - 1])
    }
}

/// The number of attempts a result reports.
pub open spec fn attempts_of(r: AcquireResult) -> int {
    match r {
        AcquireResult::Acquired { attempts, .. } => attempts as int,
        AcquireResult::Failed { attempts, .. } => attempts as int,
        AcquireResult::Exhausted { attempts } => attempts as int,
    }
}

/// Decide the next step of the retry loop from one raw query status.
///
/// A length mismatch retries with exactly the reported required length;
/// success accepts the buffer; any other status aborts with that status.
pub fn acquire_step(status: i32, return_length: u32) -> (a: AcquireAction)
    ensures
        status == QUERY_STATUS_INFO_LENGTH_MISMATCH ==> a == (AcquireAction::Retry {
            size: return_length,
        }),
        status == QUERY_STATUS_SUCCESS ==> a == AcquireAction::Accept,
        status != QUERY_STATUS_INFO_LENGTH_MISMATCH && status != QUERY_STATUS_SUCCESS ==> a == (
        AcquireAction::Fail { status }),
{
    if status == QUERY_STATUS_INFO_LENGTH_MISMATCH {
        AcquireAction::Retry { size: return_length }
    } else if status == QUERY_STATUS_SUCCESS {
        AcquireAction::Accept
    } else {
        AcquireAction::Fail { status }
    }
}

} // verus!
