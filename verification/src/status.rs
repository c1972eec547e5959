//! The match aggregator: baseline identity, match count, owner set.
//!
//! A `ThreadStatus` holds the baseline handle to the calling thread's kernel
//! object, the number of snapshot records whose resolved handle compared
//! equal to that baseline, and the deduplicated, first-seen-ordered list of
//! process ids owning such records. Establishing a baseline resets the
//! count and the list; a check folds one whole snapshot into the state,
//! skipping records owned by reserved pseudo-processes and absorbing
//! per-record resolution failures.

use vstd::prelude::*;
use crate::acquire::{
    attempts_of, reply_data, reply_is_mismatch, reply_status, size_for_attempt, AcquireResult,
    QueryReply,
};
use crate::resolve::{
    reserved_pid, EntryAction, HandleInfo, LocalHandle, ResolveError, entry_action,
};
use crate::snapshot::{SystemHandleInformation, SystemHandleTableEntryInfo};

verus! {

/// The mathematical state of the aggregator.
pub struct StatusModel {
    pub baseline: LocalHandle,
    pub open_count: int,
    pub pids: Seq<u32>,
}

/// A sequence holds no value twice.
pub open spec fn no_dup_pids(s: Seq<u32>) -> bool {
    forall|i: int, j: int| 0 <= i < j < s.len() ==> s[i] != s[j]
}

/// The aggregator's invariant: the owner list holds no duplicates, and the
/// match count is at least the owner list's length — the count grows once
/// per matching handle, the list at most once per owning process.
pub open spec fn model_wf(m: StatusModel) -> bool {
    &&& no_dup_pids(m.pids)
    &&& m.pids.len() <= m.open_count
}

/// Whether a resolution succeeded with a handle equal to the baseline.
pub open spec fn matches_baseline(
    baseline: LocalHandle,
    outcome: Result<HandleInfo, ResolveError>,
) -> bool {
    match outcome {
        Ok(hi) => hi.handle == baseline,
        Err(_) => false,
    }
}

/// The owning process id a resolution reports, matched or not.
pub open spec fn outcome_pid(outcome: Result<HandleInfo, ResolveError>) -> u32 {
    match outcome {
        Ok(hi) => hi.pid,
        Err(e) => e.pid,
    }
}

/// Fold one resolution outcome into the aggregator: on a match, count one
/// more handle and record the owner if it is new; otherwise change nothing.
pub open spec fn apply_model(
    m: StatusModel,
    outcome: Result<HandleInfo, ResolveError>,
) -> StatusModel {
    if matches_baseline(m.baseline, outcome) {
        StatusModel {
            baseline: m.baseline,
            open_count: m.open_count + 1,
            pids: if m.pids.contains(outcome_pid(outcome)) {
                m.pids
            } else {
                m.pids.push(outcome_pid(outcome))
            },
        }
    } else {
        m
    }
}

/// Fold one snapshot record: a record owned by a reserved pseudo-process is
/// skipped — its resolution outcome is never consulted — and any other
/// record contributes its outcome.
pub open spec fn scan_step(
    m: StatusModel,
    entry: SystemHandleTableEntryInfo,
    outcome: Result<HandleInfo, ResolveError>,
) -> StatusModel {
    if reserved_pid(entry.unique_process_id) {
        m
    } else {
        apply_model(m, outcome)
    }
}

/// Fold the first `n` snapshot records, in snapshot order.
pub open spec fn scan_fold(
    m: StatusModel,
    entries: Seq<SystemHandleTableEntryInfo>,
    outcomes: Seq<Result<HandleInfo, ResolveError>>,
    n: int,
) -> StatusModel
    decreases n,
{
    if n <= 0 {
        m
    } else {
        scan_step(scan_fold(m, entries, outcomes, n - 1), entries[n - 1], outcomes[n - 1])
    }
}

/// The aggregate result of the scan: the baseline identity, the running
/// match count, and the deduplicated, insertion-ordered owner list.
pub struct ThreadStatus {
    pub thread_handle: LocalHandle,
    pub open_count: u32,
    pub pid_list: Vec<u32>,
}

impl View for ThreadStatus {
    type V = StatusModel;

    open spec fn view(&self) -> StatusModel {
        StatusModel {
            baseline: self.thread_handle,
            open_count: self.open_count as int,
            pids: self.pid_list@,
        }
    }
}

impl ThreadStatus {
    pub open spec fn wf(self) -> bool {
        model_wf(self@)
    }

    /// A fresh aggregator: no baseline yet, zero count, no owners.
    pub fn new() -> (r: ThreadStatus)
        ensures
            r.thread_handle.is_invalid_spec(),
            r.open_count == 0,
            r.pid_list@.len() == 0,
            r.wf(),
    {
        ThreadStatus { thread_handle: LocalHandle { raw: 0 }, open_count: 0, pid_list: Vec::new() }
    }

    /// Fold a whole snapshot-acquisition exchange over the given replies,
    /// one reply per attempt, starting from a buffer of `initial_size`
    /// bytes.
    ///
    /// The run settles on the first reply that is not a length mismatch: a
    /// success yields that reply's snapshot, a terminal failure yields that
    /// reply's status and is not retried. Every attempt before the settling
    /// one was a mismatch, and each attempt's buffer size is exactly the
    /// length the previous mismatch required — never guessed or rounded.
    /// The run never takes more attempts than there are replies, so it
    /// terminates within the number of distinct sizes the system reports.
    pub fn query_system_information(initial_size: u32, replies: Vec<QueryReply>) -> (r:
        AcquireResult)
        ensures
            0 <= attempts_of(r) <= replies@.len(),
            forall|j: int| 0 <= j < attempts_of(r) - 1 ==> reply_is_mismatch(replies@[j]),
            r matches AcquireResult::Acquired { data, attempts, final_size } ==> {
                &&& 1 <= attempts <= replies@.len()
                &&& replies@[attempts - 1] is Success
                &&& data@ == reply_data(replies@[attempts - 1])
                &&& final_size == size_for_attempt(initial_size, replies@, attempts - 1)
            },
            r matches AcquireResult::Failed { status, attempts } ==> {
                &&& 1 <= attempts <= replies@.len()
                &&& replies@[attempts - 1] is Failure
                &&& status == reply_status(replies@[attempts - 1])
            },
            r matches AcquireResult::Exhausted { attempts } ==> {
                &&& attempts == replies@.len()
                &&& forall|j: int| 0 <= j < replies@.len() ==> reply_is_mismatch(replies@[j])
            },
    {
        let mut pending = replies;
        let n_total: usize = pending.len();
        let ghost all = pending@;
        proof {
            assert(all.skip(0) =~= all);
        }
        let mut size: u32 = initial_size;
        let mut attempts: usize = 0;
        while pending.len() > 0
            invariant
                all == replies@,
                all.len() == n_total,
                attempts + pending@.len() == all.len(),
                pending@ == all.skip(attempts as int),
                forall|j: int| 0 <= j < attempts ==> reply_is_mismatch(all[j]),
                size == size_for_attempt(initial_size, all, attempts as int),
            decreases pending@.len(),
        {
            let reply = pending.remove(0);
            proof {
                assert(reply == all[attempts as int]);
                assert(pending@ =~= all.skip(attempts as int + 1));
            }
            attempts = attempts + 1;
            match reply {
                QueryReply::InfoLengthMismatch { required } => {
                    size = required;
                },
                QueryReply::Success { data } => {
                    return AcquireResult::Acquired { data, attempts, final_size: size };
                },
                QueryReply::Failure { status } => {
                    return AcquireResult::Failed { status, attempts };
                },
            }
        }
        AcquireResult::Exhausted { attempts }
    }

    /// Establish (or re-establish) the comparison baseline.
    ///
    /// The new baseline must be a valid duplicated handle. The match count
    /// returns to zero and the owner list empties: results gathered against
    /// an earlier baseline never carry across a baseline change.
    pub fn init(&mut self, baseline: LocalHandle)
        requires
            !baseline.is_invalid_spec(),
        ensures
            final(self).thread_handle == baseline,
            final(self).open_count == 0,
            final(self).pid_list@.len() == 0,
            final(self).wf(),
    {
        self.thread_handle = baseline;
        self.open_count = 0;
        self.pid_list.clear();
    }

    /// Fold one resolution outcome into the running state.
    ///
    /// A successful resolution whose handle equals the baseline raises the
    /// count by one and appends the owning process id to the list unless it
    /// is already there; any other outcome — a failed resolution, or a
    /// handle to some other object — leaves the state exactly as it was.
    pub fn apply_outcome(&mut self, outcome: &Result<HandleInfo, ResolveError>)
        requires
            old(self).wf(),
            old(self).open_count < u32::MAX,
        ensures
            final(self).wf(),
            final(self)@ == apply_model(old(self)@, *outcome),
            final(self).thread_handle == old(self).thread_handle,
            final(self).open_count <= old(self).open_count + 1,
    {
        match outcome {
            Ok(hi) => {
                if hi.handle.raw == self.thread_handle.raw {
                    self.open_count = self.open_count + 1;
                    if !pid_list_contains(&self.pid_list, hi.pid) {
                        self.pid_list.push(hi.pid);
                    }
                }
            },
            Err(_) => {},
        }
    }

    /// Fold one whole snapshot into the running state.
    ///
    /// `resolutions[i]` is what resolving record `i` came back with; records
    /// owned by a reserved pseudo-process are skipped without consulting
    /// their outcome. Exactly the snapshot's declared records are folded, in
    /// snapshot order, and the final state is the fold of every record over
    /// the state the check started from.
    pub fn check(
        &mut self,
        info: &SystemHandleInformation,
        resolutions: &Vec<Result<HandleInfo, ResolveError>>,
    )
        requires
            old(self).wf(),
            !old(self).thread_handle.is_invalid_spec(),
            info.wf(),
            resolutions@.len() == info.handles@.len(),
            old(self).open_count + info.handles@.len() <= u32::MAX,
        ensures
            final(self).wf(),
            final(self).thread_handle == old(self).thread_handle,
            final(self)@ == scan_fold(
                old(self)@,
                info.handles@,
                resolutions@,
                info.handles@.len() as int,
            ),
    {
        let ghost m0 = self@;
        let ghost entries = info.handles@;
        let ghost outcomes = resolutions@;
        let ghost c0 = self.open_count as int;
        let n = info.handles.len();
        let mut i: usize = 0;
        while i < n
            invariant
                self.wf(),
                i <= n,
                n == entries.len(),
                entries == info.handles@,
                outcomes == resolutions@,
                outcomes.len() == entries.len(),
                c0 + entries.len() <= u32::MAX,
                self@ == scan_fold(m0, entries, outcomes, i as int),
                self.thread_handle == m0.baseline,
                self.open_count as int <= c0 + i,
            decreases n - i,
        {
            let entry = info.handles[i];
            match entry_action(&entry) {
                EntryAction::Skip => {},
                EntryAction::Resolve { .. } => {
                    let outcome = resolutions[i];
                    self.apply_outcome(&outcome);
                },
            }
            i += 1;
        }
    }
}

impl Default for ThreadStatus {
    /// The same fresh aggregator `new` yields: no baseline, zero count, no
    /// owners.
    fn default() -> (r: Self)
        ensures
            r.thread_handle.is_invalid_spec(),
            r.open_count == 0,
            r.pid_list@.len() == 0,
            r.wf(),
    {
        ThreadStatus::new()
    }
}

/// Whether `pid` already stands in the owner list.
pub fn pid_list_contains(list: &Vec<u32>, pid: u32) -> (r: bool)
    ensures
        r == list@.contains(pid),
{
    let n = list.len();
    let mut i: usize = 0;
    while i < n
        invariant
            i <= n,
            n == list@.len(),
            forall|j: int| 0 <= j < i ==> list@[j] != pid,
        decreases n - i,
    {
        if list[i] == pid {
            return true;
        }
        i += 1;
    }
    false
}

/// The resolution outcome of a record owned by a reserved pseudo-process is
/// never consulted: two outcome tables that agree on every record with a
/// real owner fold to the same state, whatever they say of reserved ones.
pub proof fn lemma_reserved_outcomes_never_consulted(
    m: StatusModel,
    entries: Seq<SystemHandleTableEntryInfo>,
    o1: Seq<Result<HandleInfo, ResolveError>>,
    o2: Seq<Result<HandleInfo, ResolveError>>,
    n: int,
)
    requires
        0 <= n <= entries.len(),
        o1.len() == entries.len(),
        o2.len() == entries.len(),
        forall|i: int|
            0 <= i < entries.len() && !reserved_pid(entries[i].unique_process_id) ==> o1[i]
                == o2[i],
    ensures
        scan_fold(m, entries, o1, n) == scan_fold(m, entries, o2, n),
    decreases n,
{
    if n > 0 {
        lemma_reserved_outcomes_never_consulted(m, entries, o1, o2, n - 1);
    }
}

/// A scan preserves the aggregator's invariant — the owner list stays free
/// of duplicates and the match count stays at least its length — keeps the
/// baseline, and raises the count by at most one per record folded.
pub proof fn lemma_scan_preserves_wf(
    m: StatusModel,
    entries: Seq<SystemHandleTableEntryInfo>,
    outcomes: Seq<Result<HandleInfo, ResolveError>>,
    n: int,
)
    requires
        model_wf(m),
        0 <= n,
    ensures
        model_wf(scan_fold(m, entries, outcomes, n)),
        scan_fold(m, entries, outcomes, n).baseline == m.baseline,
        m.open_count <= scan_fold(m, entries, outcomes, n).open_count <= m.open_count + n,
    decreases n,
{
    if n > 0 {
        lemma_scan_preserves_wf(m, entries, outcomes, n - 1);
    }
}

} // verus!
