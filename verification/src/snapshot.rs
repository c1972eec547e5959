//! The handle-table snapshot: its record layout and its parser.
//!
//! The system query fills a flat buffer with a 32-bit handle count followed
//! by a contiguous array of fixed-stride records. Each record describes one
//! open handle somewhere in the system: the owning process, the raw handle
//! value inside that process, and bookkeeping fields. The parser derives each
//! record by bounds-checked indexing into the buffer by stride; an undersized
//! buffer is rejected, never overlaid.

use vstd::prelude::*;
use crate::bytes::{le_u16_at, le_u32_at, le_u64_at, read_u16_at, read_u32_at, read_u64_at};

verus! {

/// Bytes before the first record: the 32-bit count plus alignment padding.
pub const SNAPSHOT_HEADER_BYTES: usize = 8;

/// Bytes from the start of one record to the start of the next.
pub const ENTRY_STRIDE_BYTES: usize = 24;

/// One record of the system-wide handle table, as plain values.
///
/// `object` is the kernel object's address, kept only as an opaque numeric
/// identity and never dereferenced.
#[derive(Clone, Copy)]
pub struct SystemHandleTableEntryInfo {
    pub unique_process_id: u16,
    pub creator_back_trace_index: u16,
    pub object_type_index: u8,
    pub handle_attributes: u8,
    pub handle_value: u16,
    pub object: u64,
    pub granted_access: u32,
}

/// A parsed snapshot: the declared count and the records, materialized.
pub struct SystemHandleInformation {
    pub number_of_handles: u32,
    pub handles: Vec<SystemHandleTableEntryInfo>,
}

impl SystemHandleInformation {
    /// The declared count equals the number of records actually held:
    /// iterating the records never runs past the count.
    pub open spec fn wf(self) -> bool {
        self.number_of_handles as int == self.handles@.len()
    }
}

/// Offset of record `i` inside the buffer.
pub open spec fn entry_start(i: int) -> int {
    SNAPSHOT_HEADER_BYTES + ENTRY_STRIDE_BYTES * i
}

/// The handle count declared in the buffer's header.
pub open spec fn declared_count(b: Seq<u8>) -> u32 {
    le_u32_at(b, 0)
}

/// A buffer is well formed when it holds the header and every record the
/// header declares. Only such a buffer is ever parsed.
pub open spec fn buffer_wf(b: Seq<u8>) -> bool {
    &&& b.len() >= SNAPSHOT_HEADER_BYTES
    &&& entry_start(declared_count(b) as int) <= b.len()
}

/// The record decoded at index `i` of the buffer.
pub open spec fn entry_at(b: Seq<u8>, i: int) -> SystemHandleTableEntryInfo {
    SystemHandleTableEntryInfo {
        unique_process_id: le_u16_at(b, entry_start(i)),
        creator_back_trace_index: le_u16_at(b, entry_start(i) + 2),
        object_type_index: b[entry_start(i) + 4],
        handle_attributes: b[entry_start(i) + 5],
        handle_value: le_u16_at(b, entry_start(i) + 6),
        object: le_u64_at(b, entry_start(i) + 8),
        granted_access: le_u32_at(b, entry_start(i) + 16),
    }
}

/// Decode record `i` straight out of a well-formed buffer: a bounds-checked
/// view by stride, never an overlay cast.
pub fn read_entry(buffer: &Vec<u8>, i: usize) -> (e: SystemHandleTableEntryInfo)
    requires
        buffer_wf(buffer@),
        i < declared_count(buffer@),
    ensures
        e == entry_at(buffer@, i as int),
{
    proof {
        // Ties the view's length to the vector's machine length, so the
        // offset arithmetic below stays within usize.
        assert(buffer.len() == buffer@.len());
    }
    let base = SNAPSHOT_HEADER_BYTES + ENTRY_STRIDE_BYTES * i;
    SystemHandleTableEntryInfo {
        unique_process_id: read_u16_at(buffer, base),
        creator_back_trace_index: read_u16_at(buffer, base + 2),
        object_type_index: buffer[base + 4],
        handle_attributes: buffer[base + 5],
        handle_value: read_u16_at(buffer, base + 6),
        object: read_u64_at(buffer, base + 8),
        granted_access: read_u32_at(buffer, base + 16),
    }
}

/// Parse a snapshot buffer into its declared count and records.
///
/// Succeeds exactly on well-formed buffers; the parsed count then equals the
/// number of records returned, and each record is the one decoded at its
/// index. A buffer too small for its declared count is refused outright: it
/// would mean the acquirer's retry discipline was violated.
pub fn parse_snapshot(buffer: &Vec<u8>) -> (r: Option<SystemHandleInformation>)
    ensures
        r is Some <==> buffer_wf(buffer@),
        r matches Some(info) ==> {
            &&& info.wf()
            &&& info.number_of_handles == declared_count(buffer@)
            &&& info.handles@.len() == declared_count(buffer@) as int
            &&& forall|i: int|
                0 <= i < info.handles@.len() ==> info.handles@[i] == entry_at(buffer@, i)
        },
{
    if buffer.len() < SNAPSHOT_HEADER_BYTES {
        return None;
    }
    let count = read_u32_at(buffer, 0);
    let needed: u64 = (SNAPSHOT_HEADER_BYTES as u64) + (ENTRY_STRIDE_BYTES as u64) * (count
        as u64);
    if needed > buffer.len() as u64 {
        return None;
    }
    let n = count as usize;
    let mut handles: Vec<SystemHandleTableEntryInfo> = Vec::new();
    let mut i: usize = 0;
    while i < n
        invariant
            buffer_wf(buffer@),
            n == declared_count(buffer@) as int,
            i <= n,
            handles@.len() == i as int,
            forall|j: int| 0 <= j < i as int ==> handles@[j] == entry_at(buffer@, j),
        decreases n - i,
    {
        let entry = read_entry(buffer, i);
        handles.push(entry);
        i += 1;
    }
    Some(SystemHandleInformation { number_of_handles: count, handles })
}

} // verus!
