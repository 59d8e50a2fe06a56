//! Raw kernel handle snapshot data: the packed entry layout, the handle type
//! tags the scanner cares about, and the errors of the handle-scanning side.

use vstd::prelude::*;

verus! {

/// Errors raised while resolving the target and while opening, querying,
/// duplicating or closing handles.
#[derive(Debug)]
pub enum HandleError {
    TargetNotFound,
    AccessDenied,
    FailedToOpenProcess,
    FailedToGetProcessNtPath,
    FailedToGetProcessWin32Path,
    FailedToQueryObject,
    FailedToFreeMemory,
    FailedToAllocateMemory,
    FailedToCloseHandle,
}

/// Errors raised while taking the system handle snapshot.
#[derive(Debug)]
pub enum SystemHandleError {
    MemoryAllocationFailed,
}

/// One row of the kernel handle snapshot, in the packed layout the kernel
/// query fills in. The `object` field is the kernel object address, kept only
/// as an opaque number; `handle_value` is meaningful only inside the owner.
#[derive(Clone, Copy, PartialEq, Eq, Structural, Debug)]
pub struct SystemHandleEntry {
    pub process_id: u16,
    pub creator_back_trace_index: u16,
    pub object_type_index: u8,
    pub handle_attributes: u8,
    pub handle_value: u16,
    pub object: u64,
    pub granted_access: u32,
}

/// The decoded snapshot: the header count followed by that many entries.
pub struct SystemHandleInformation {
    pub number_of_handles: u32,
    pub handles: Vec<SystemHandleEntry>,
}

/// The object types the scanner distinguishes, each carrying the object type
/// index the kernel reports for it.
#[derive(Clone, Copy, PartialEq, Eq, Structural, Debug)]
pub enum SystemHandleType {
    Process,
    Thread,
    Event,
    Mutex,
    Sempahore,
    File,
}

impl SystemHandleType {
    /// The object type index the kernel snapshot uses for this tag.
    pub open spec fn spec_os_index(self) -> u8 {
        match self {
            SystemHandleType::Process => 7,
            SystemHandleType::Thread => 8,
            SystemHandleType::Event => 10,
            SystemHandleType::Mutex => 11,
            SystemHandleType::Sempahore => 12,
            SystemHandleType::File => 25,
        }
    }

    pub fn os_index(self) -> (r: u8)
        ensures
            r == self.spec_os_index(),
    {
        match self {
            SystemHandleType::Process => 7,
            SystemHandleType::Thread => 8,
            SystemHandleType::Event => 10,
            SystemHandleType::Mutex => 11,
            SystemHandleType::Sempahore => 12,
            SystemHandleType::File => 25,
        }
    }
}

/// What the snapshot loop does after one kernel query.
#[derive(Clone, Copy, PartialEq, Eq, Structural, Debug)]
pub enum SnapshotStep {
    Done,
    Grow(u32),
    Fail,
}

/// The grow-retry rule of the snapshot: a successful query is done; a failed
/// one whose advertised size outgrew the buffer is retried at that size,
/// freshly allocated — the table can keep growing while the system creates
/// handles; any other failure is final.
pub fn next_snapshot_step(success: bool, advertised: u32, current: u32) -> (r: SnapshotStep)
    ensures
        r == (if success {
            SnapshotStep::Done
        } else if advertised > current {
            SnapshotStep::Grow(advertised)
        } else {
            SnapshotStep::Fail
        }),
{
    if success {
        SnapshotStep::Done
    } else if advertised > current {
        SnapshotStep::Grow(advertised)
    } else {
        SnapshotStep::Fail
    }
}

/// A 16-bit little-endian integer read at offset `i`.
pub open spec fn le_u16_at(b: Seq<u8>, i: int) -> u16 {
    (b[i] as int + b[i + 1] as int * 0x100) as u16
}

/// A 32-bit little-endian integer read at offset `i`.
pub open spec fn le_u32_at(b: Seq<u8>, i: int) -> u32 {
    (b[i] as int + b[i + 1] as int * 0x100 + b[i + 2] as int * 0x10000 + b[i + 3] as int
        * 0x1000000) as u32
}

/// A 64-bit little-endian integer read at offset `i`.
pub open spec fn le_u64_at(b: Seq<u8>, i: int) -> u64 {
    (b[i] as int + b[i + 1] as int * 0x100 + b[i + 2] as int * 0x10000 + b[i + 3] as int
        * 0x1000000 + b[i + 4] as int * 0x100000000 + b[i + 5] as int * 0x10000000000 + b[i
        + 6] as int * 0x1000000000000 + b[i + 7] as int * 0x100000000000000) as u64
}

/// The snapshot entry whose packed form starts at offset `o`.
pub open spec fn spec_entry_at(b: Seq<u8>, o: int) -> SystemHandleEntry {
    SystemHandleEntry {
        process_id: le_u16_at(b, o),
        creator_back_trace_index: le_u16_at(b, o + 2),
        object_type_index: b[o + 4],
        handle_attributes: b[o + 5],
        handle_value: le_u16_at(b, o + 6),
        object: le_u64_at(b, o + 8),
        granted_access: le_u32_at(b, o + 16),
    }
}

/// Whether the buffer is long enough for the count its header advertises.
pub open spec fn snapshot_buffer_complete(b: Seq<u8>) -> bool {
    b.len() >= 8 && b.len() >= 8 + 24 * (le_u32_at(b, 0) as int)
}

fn read_le_u16(b: &Vec<u8>, i: usize) -> (r: u16)
    requires
        i + 2 <= b@.len(),
    ensures
        r == le_u16_at(b@, i as int),
{
    let n: usize = b.len();
    b[i] as u16 + b[i + 1] as u16 * 0x100
}

fn read_le_u32(b: &Vec<u8>, i: usize) -> (r: u32)
    requires
        i + 4 <= b@.len(),
    ensures
        r == le_u32_at(b@, i as int),
{
    let n: usize = b.len();
    b[i] as u32 + b[i + 1] as u32 * 0x100 + b[i + 2] as u32 * 0x10000 + b[i + 3] as u32 * 0x1000000
}

fn read_le_u64(b: &Vec<u8>, i: usize) -> (r: u64)
    requires
        i + 8 <= b@.len(),
    ensures
        r == le_u64_at(b@, i as int),
{
    let n: usize = b.len();
    b[i] as u64 + b[i + 1] as u64 * 0x100 + b[i + 2] as u64 * 0x10000 + b[i + 3] as u64 * 0x1000000
        + b[i + 4] as u64 * 0x100000000 + b[i + 5] as u64 * 0x10000000000 + b[i + 6] as u64
        * 0x1000000000000 + b[i + 7] as u64 * 0x100000000000000
}

fn read_entry_at(b: &Vec<u8>, o: usize) -> (r: SystemHandleEntry)
    requires
        o + 24 <= b@.len(),
    ensures
        r == spec_entry_at(b@, o as int),
{
    let n: usize = b.len();
    SystemHandleEntry {
        process_id: read_le_u16(b, o),
        creator_back_trace_index: read_le_u16(b, o + 2),
        object_type_index: b[o + 4],
        handle_attributes: b[o + 5],
        handle_value: read_le_u16(b, o + 6),
        object: read_le_u64(b, o + 8),
        granted_access: read_le_u32(b, o + 16),
    }
}

/// Decodes a raw snapshot buffer as the kernel query fills it in: a count in
/// the first four bytes, four bytes of padding, then `count` packed entries.
/// Fails exactly when the buffer is too short for the advertised count, as a
/// truncated kernel answer would be.
pub fn parse_system_handle_buffer(buffer: &Vec<u8>) -> (r: Result<
    SystemHandleInformation,
    HandleError,
>)
    ensures
        match r {
            Ok(info) => {
                &&& snapshot_buffer_complete(buffer@)
                &&& info.number_of_handles == le_u32_at(buffer@, 0)
                &&& info.handles@.len() == info.number_of_handles as int
                &&& forall|j: int|
                    0 <= j < info.handles@.len() ==> info.handles@[j] == spec_entry_at(
                        buffer@,
                        8 + 24 * j,
                    )
            },
            Err(e) => e is FailedToQueryObject && !snapshot_buffer_complete(buffer@),
        },
{
    if buffer.len() < 8 {
        return Err(HandleError::FailedToQueryObject);
    }
    let count_header: u32 = read_le_u32(buffer, 0);
    let count: usize = count_header as usize;
    if (buffer.len() - 8) / 24 < count {
        assert(buffer@.len() < 8 + 24 * (count as int));
        return Err(HandleError::FailedToQueryObject);
    }
    assert(buffer@.len() >= 8 + 24 * (count as int));
    let mut entries: Vec<SystemHandleEntry> = Vec::new();
    let mut i: usize = 0;
    let buffer_len: usize = buffer.len();
    while i < count
        invariant
            i <= count,
            buffer_len == buffer@.len(),
            buffer@.len() >= 8 + 24 * (count as int),
            entries@.len() == i as int,
            forall|j: int| 0 <= j < i as int ==> entries@[j] == spec_entry_at(buffer@, 8 + 24 * j),
        decreases count - i,
    {
        let entry = read_entry_at(buffer, 8 + 24 * i);
        entries.push(entry);
        i = i + 1;
    }
    Ok(SystemHandleInformation { number_of_handles: count_header, handles: entries })
}

} // verus!
