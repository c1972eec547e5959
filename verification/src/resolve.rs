//! The cross-process handle resolver's decision surface.
//!
//! For each snapshot record the scan either skips it — the owning process id
//! is one of the reserved pseudo-process identifiers, which name no openable
//! process — or asks the system to duplicate the remote handle into the
//! local process. The duplication itself is an operating-system call made by
//! the surrounding program; what stands here is the decision of whether to
//! make it, the shape of its inputs, and the shape of its outcome.

use vstd::prelude::*;
use crate::snapshot::SystemHandleTableEntryInfo;

verus! {

/// The largest reserved pseudo-process identifier. Owning process ids up to
/// and including this value name system/idle pseudo-processes, not real,
/// openable processes, and are skipped. The cutoff is an observed
/// convention, not a documented guarantee, so it stands here as a named
/// constant rather than a scattered literal.
pub const RESERVED_PID_MAX: u16 = 4;

/// Whether an owning process id names a reserved pseudo-process.
pub open spec fn reserved_pid(pid: u16) -> bool {
    pid <= RESERVED_PID_MAX
}

/// A process-local, closeable reference to a kernel object, comparable only
/// by equality within the local process. The raw value 0 and the raw
/// all-ones value are the invalid markers the platform uses.
#[derive(Clone, Copy, PartialEq, Eq, Structural)]
pub struct LocalHandle {
    pub raw: u64,
}

impl LocalHandle {
    pub open spec fn is_invalid_spec(self) -> bool {
        self.raw == 0 || self.raw == u64::MAX
    }

    /// Whether this handle is one of the invalid markers.
    pub fn is_invalid(&self) -> (r: bool)
        ensures
            r == self.is_invalid_spec(),
    {
        self.raw == 0 || self.raw == u64::MAX
    }
}

/// A successful resolution: the owning process id and the remote handle
/// duplicated into the local process.
#[derive(Clone, Copy, PartialEq, Eq, Structural)]
pub struct HandleInfo {
    pub pid: u32,
    pub handle: LocalHandle,
}

/// A failed resolution — the process exited, access was denied, the handle
/// was already closed. It carries the offending process id and raw handle
/// value so the caller can log and skip the entry; it never aborts the scan.
#[derive(Clone, Copy, PartialEq, Eq, Structural)]
pub struct ResolveError {
    pub pid: u32,
    pub handle_value: u32,
}

/// What the scan does with one snapshot record.
pub enum EntryAction {
    /// Reserved owner: no resolver call is made for this record.
    Skip,
    /// Open process `pid` and duplicate its handle `handle_value` into the
    /// local process.
    Resolve { pid: u32, handle_value: u32 },
}

/// Decide whether a snapshot record is resolved or skipped.
///
/// Records owned by a reserved pseudo-process are skipped and never produce
/// a resolver call; every other record is resolved with exactly the owning
/// process id and raw handle value the record reports.
pub fn entry_action(entry: &SystemHandleTableEntryInfo) -> (a: EntryAction)
    ensures
        reserved_pid(entry.unique_process_id) ==> a is Skip,
        !reserved_pid(entry.unique_process_id) ==> a == (EntryAction::Resolve {
            pid: entry.unique_process_id as u32,
            handle_value: entry.handle_value as u32,
        }),
{
    if entry.unique_process_id <= RESERVED_PID_MAX {
        EntryAction::Skip
    } else {
        EntryAction::Resolve {
            pid: entry.unique_process_id as u32,
            handle_value: entry.handle_value as u32,
        }
    }
}

} // verus!
