//! The firmware boot-services client: the two-phase memory-map retrieval
//! protocol and the decoder for the descriptor buffer the firmware fills.
//!
//! The firmware itself is reached through a foreign function-pointer table
//! that only the boot environment can call, so the protocol is split at
//! that boundary: [`MemoryMapClient`] holds the protocol state and decides,
//! its caller performs each requested call and hands back the raw result.
//! Every decision — which status is acceptable where, how much headroom to
//! allocate, how the descriptor array is walked — is stated and proved
//! here. A failed attempt discards all state; retrying means starting over
//! with a fresh client.

use vstd::prelude::*;
use crate::error::Error;

verus! {

broadcast use vstd::slice::group_slice_axioms;

/// The top bit of a 64-bit firmware status word, set on every error code.
pub const UEFI_ERROR_BIT: u64 = 0x8000_0000_0000_0000;

/// The status the firmware returns on success.
pub const UEFI_SUCCESS: u64 = 0;

/// The status the firmware returns when the supplied buffer cannot hold
/// the memory map: the error bit together with code 5. During the size
/// query this is the one expected answer.
pub const UEFI_BUFFER_TOO_SMALL: u64 = 0x8000_0000_0000_0005;

/// The memory-type tag for loader-owned data, used for the pool request.
pub const LOADER_DATA: u32 = 2;

/// The byte size of one descriptor record as this client decodes it: a
/// 32-bit type tag, then — each 64-bit and 8-byte aligned — the physical
/// start, virtual start, page count and attribute flags.
pub const MEMORY_DESCRIPTOR_SIZE: usize = 40;

/// Whether a firmware status word reports an error.
pub open spec fn spec_is_error(status: u64) -> bool {
    status & UEFI_ERROR_BIT == UEFI_ERROR_BIT
}

/// The status encoding this client relies on: success is no error, and
/// "buffer too small" is the error bit together with code 5 — so the two
/// can never be confused.
pub proof fn lemma_status_encoding()
    ensures
        !spec_is_error(UEFI_SUCCESS),
        spec_is_error(UEFI_BUFFER_TOO_SMALL),
        UEFI_BUFFER_TOO_SMALL == UEFI_ERROR_BIT | 5,
{
    assert(0u64 & 0x8000_0000_0000_0000 != 0x8000_0000_0000_0000) by (bit_vector);
    assert(0x8000_0000_0000_0005u64 & 0x8000_0000_0000_0000 == 0x8000_0000_0000_0000)
        by (bit_vector);
    assert(0x8000_0000_0000_0005u64 == 0x8000_0000_0000_0000u64 | 5) by (bit_vector);
}

/// The common header every firmware table begins with.
#[derive(Copy, Clone, Debug, PartialEq, Eq, Structural)]
pub struct UefiTableHeader {
    pub signature: u64,
    pub revision: u32,
    pub header_size: u32,
    pub crc: u32,
    pub reserved: u32,
}

/// A firmware memory-type tag.
#[derive(Copy, Clone, Debug, PartialEq, Eq, Structural)]
pub struct UefiMemoryType(pub u32);

/// One record of the firmware memory map: a region's type tag, physical
/// and virtual start addresses, length in pages, and attribute flags.
#[derive(Copy, Clone, Debug, PartialEq, Eq, Structural)]
pub struct UefiMemoryDescriptor {
    pub memory_type: u32,
    pub physical_start: u64,
    pub virtual_start: u64,
    pub page_count: u64,
    pub attribute: u64,
}

/// The retrieved map: the firmware's opaque map key (to be passed back
/// unmodified to any later call that depends on the map state), the
/// authoritative per-record stride it reported, and the decoded records.
#[derive(Debug, PartialEq, Eq)]
pub struct UefiMemoryMap {
    pub map_key: u64,
    pub descriptor_size: u64,
    pub descriptors: Vec<UefiMemoryDescriptor>,
}

/// Four bytes read as a little-endian 32-bit value.
pub open spec fn spec_u32_le(b: Seq<u8>, off: int) -> u32 {
    (b[off] as u32) | ((b[off + 1] as u32) << 8) | ((b[off + 2] as u32) << 16) | ((b[off + 3]
        as u32) << 24)
}

/// Eight bytes read as a little-endian 64-bit value.
pub open spec fn spec_u64_le(b: Seq<u8>, off: int) -> u64 {
    (b[off] as u64) | ((b[off + 1] as u64) << 8) | ((b[off + 2] as u64) << 16) | ((b[off + 3]
        as u64) << 24) | ((b[off + 4] as u64) << 32) | ((b[off + 5] as u64) << 40) | ((b[off + 6]
        as u64) << 48) | ((b[off + 7] as u64) << 56)
}

/// The record encoded by the bytes starting at `off`.
pub open spec fn spec_descriptor_at(b: Seq<u8>, off: int) -> UefiMemoryDescriptor {
    UefiMemoryDescriptor {
        memory_type: spec_u32_le(b, off),
        physical_start: spec_u64_le(b, off + 8),
        virtual_start: spec_u64_le(b, off + 16),
        page_count: spec_u64_le(b, off + 24),
        attribute: spec_u64_le(b, off + 32),
    }
}

fn read_u32_le(bytes: &[u8], off: usize) -> (v: u32)
    requires
        off + 4 <= bytes@.len(),
    ensures
        v == spec_u32_le(bytes@, off as int),
{
    (bytes[off] as u32) | ((bytes[off + 1] as u32) << 8) | ((bytes[off + 2] as u32) << 16) | ((
    bytes[off + 3] as u32) << 24)
}

fn read_u64_le(bytes: &[u8], off: usize) -> (v: u64)
    requires
        off + 8 <= bytes@.len(),
    ensures
        v == spec_u64_le(bytes@, off as int),
{
    (bytes[off] as u64) | ((bytes[off + 1] as u64) << 8) | ((bytes[off + 2] as u64) << 16) | ((
    bytes[off + 3] as u64) << 24) | ((bytes[off + 4] as u64) << 32) | ((bytes[off + 5] as u64)
        << 40) | ((bytes[off + 6] as u64) << 48) | ((bytes[off + 7] as u64) << 56)
}

/// Decodes one memory descriptor from the bytes starting at `offset`,
/// reading nothing outside its 40-byte nominal record.
pub fn descriptor_at(bytes: &[u8], offset: usize) -> (d: UefiMemoryDescriptor)
    requires
        offset + MEMORY_DESCRIPTOR_SIZE <= bytes@.len(),
    ensures
        d == spec_descriptor_at(bytes@, offset as int),
{
    let len: usize = bytes.len();
    proof {
        assert(offset + MEMORY_DESCRIPTOR_SIZE <= len);
    }
    UefiMemoryDescriptor {
        memory_type: read_u32_le(bytes, offset),
        physical_start: read_u64_le(bytes, offset + 8),
        virtual_start: read_u64_le(bytes, offset + 16),
        page_count: read_u64_le(bytes, offset + 24),
        attribute: read_u64_le(bytes, offset + 32),
    }
}

/// Decodes the descriptor array from the buffer the firmware filled.
/// Records are walked at the firmware-reported stride `descriptor_size`
/// (which may exceed the nominal record size), never past `map_size`.
pub fn parse_memory_map(bytes: &[u8], map_size: usize, descriptor_size: usize) -> (descriptors:
    Vec<UefiMemoryDescriptor>)
    requires
        map_size <= bytes@.len(),
        MEMORY_DESCRIPTOR_SIZE <= descriptor_size,
    ensures
        descriptors@.len() == map_size as int / descriptor_size as int,
        forall|i: int|
            0 <= i < descriptors@.len() ==> descriptors@[i] == spec_descriptor_at(
                bytes@,
                i * descriptor_size,
            ),
{
    let count: usize = map_size / descriptor_size;
    let mut descriptors: Vec<UefiMemoryDescriptor> = Vec::new();
    let mut i: usize = 0;
    let mut offset: usize = 0;
    while i < count
        invariant
            i <= count,
            offset == i * descriptor_size,
            count == map_size as int / descriptor_size as int,
            map_size <= bytes@.len(),
            MEMORY_DESCRIPTOR_SIZE <= descriptor_size,
            descriptors@.len() == i,
            forall|j: int|
                0 <= j < i ==> descriptors@[j] == spec_descriptor_at(
                    bytes@,
                    j * descriptor_size,
                ),
        decreases count - i,
    {
        proof {
            assert(offset + descriptor_size <= map_size) by (nonlinear_arith)
                requires
                    offset == i * descriptor_size,
                    i < count,
                    count == map_size as int / descriptor_size as int,
                    1 <= descriptor_size,
                    0 <= map_size,
            ;
        }
        let d = descriptor_at(bytes, offset);
        descriptors.push(d);
        proof {
            assert((i + 1) * descriptor_size == i * descriptor_size + descriptor_size)
                by (nonlinear_arith);
        }
        i = i + 1;
        offset = offset + descriptor_size;
    }
    descriptors
}

/// A call the client asks its caller to make of the firmware.
#[derive(Copy, Clone, Debug, PartialEq, Eq, Structural)]
pub enum FirmwareRequest {
    /// Call the get-memory-map operation with a null buffer pointer and a
    /// zero buffer size.
    QuerySize,
    /// Call the pool allocator for `size` bytes of the given memory type.
    AllocatePool { pool_type: UefiMemoryType, size: u32 },
    /// Call the get-memory-map operation again with the allocated buffer
    /// of `size` bytes.
    FetchMap { size: u32 },
}

/// What a get-memory-map call returned: the status word and the four
/// values the firmware wrote through its out-parameters.
#[derive(Copy, Clone, Debug, PartialEq, Eq, Structural)]
pub struct GetMemoryMapResult {
    pub status: u64,
    pub map_size: u32,
    pub map_key: u64,
    pub descriptor_size: u64,
    pub descriptor_version: u32,
}

/// Where the protocol stands.
#[derive(Copy, Clone, Debug, PartialEq, Eq, Structural)]
pub enum ClientPhase {
    /// Nothing has happened; the size query is next.
    Start,
    /// The size query succeeded; a pool of `buffer_size` bytes is next.
    Allocating { buffer_size: u32 },
    /// The pool was allocated; the fetch call is next.
    Fetching { buffer_size: u32 },
    /// The map was retrieved.
    Complete,
    /// A step failed; no further call is made from this state.
    Failed,
}

/// The decision core of the two-phase retrieval protocol (see the module
/// documentation for the split at the firmware boundary).
pub struct MemoryMapClient {
    pub phase: ClientPhase,
}

impl MemoryMapClient {
    /// A client about to run the protocol from its first step.
    pub fn new() -> (client: MemoryMapClient)
        ensures
            client.phase == ClientPhase::Start,
    {
        MemoryMapClient { phase: ClientPhase::Start }
    }

    /// The next firmware call to make, or `None` once the protocol has
    /// completed or failed. After a failure no allocation or fetch is
    /// ever requested.
    pub fn next_request(&self) -> (r: Option<FirmwareRequest>)
        ensures
            r == match self.phase {
                ClientPhase::Start => Some(FirmwareRequest::QuerySize),
                ClientPhase::Allocating { buffer_size } => Some(
                    FirmwareRequest::AllocatePool {
                        pool_type: UefiMemoryType(LOADER_DATA),
                        size: buffer_size,
                    },
                ),
                ClientPhase::Fetching { buffer_size } => Some(
                    FirmwareRequest::FetchMap { size: buffer_size },
                ),
                ClientPhase::Complete => None::<FirmwareRequest>,
                ClientPhase::Failed => None::<FirmwareRequest>,
            },
    {
        match self.phase {
            ClientPhase::Start => Some(FirmwareRequest::QuerySize),
            ClientPhase::Allocating { buffer_size } => Some(
                FirmwareRequest::AllocatePool {
                    pool_type: UefiMemoryType(LOADER_DATA),
                    size: buffer_size,
                },
            ),
            ClientPhase::Fetching { buffer_size } => Some(
                FirmwareRequest::FetchMap { size: buffer_size },
            ),
            ClientPhase::Complete => None,
            ClientPhase::Failed => None,
        }
    }

    /// The buffer size the client will ask for after a size query that
    /// reported `map_size`: the requirement plus headroom for two more
    /// records at the reported stride, because the true map can grow
    /// between the query and the fetch.
    pub open spec fn spec_padded_size(map_size: u32, descriptor_size: u64) -> int {
        map_size + 2 * descriptor_size
    }

    /// Step 1: judge the size query's result. The firmware is required to
    /// answer "buffer too small" and report the needed size; that size is
    /// returned, and the padded allocation size is remembered for the next
    /// step. Any other status is surfaced as `FirmwareError` and fails the
    /// protocol — as is an answer whose reported stride is smaller than one
    /// record (the headroom would then fall short of two true records), or
    /// whose padded size cannot be expressed in the 32-bit buffer-size
    /// field the fetch call takes.
    pub fn memory_map_size(&mut self, result: GetMemoryMapResult) -> (r: Result<u32, Error>)
        requires
            old(self).phase == ClientPhase::Start,
        ensures
            ({
                let padded = Self::spec_padded_size(result.map_size, result.descriptor_size);
                if result.status == UEFI_BUFFER_TOO_SMALL && MEMORY_DESCRIPTOR_SIZE
                    <= result.descriptor_size && padded <= u32::MAX {
                    &&& r == Ok::<u32, Error>(result.map_size)
                    &&& final(self).phase == (ClientPhase::Allocating {
                        buffer_size: padded as u32,
                    })
                } else {
                    &&& r == Err::<u32, Error>(Error::FirmwareError(result.status))
                    &&& final(self).phase == ClientPhase::Failed
                }
            }),
    {
        if result.status != UEFI_BUFFER_TOO_SMALL {
            self.phase = ClientPhase::Failed;
            return Err(Error::FirmwareError(result.status));
        }
        if result.descriptor_size < MEMORY_DESCRIPTOR_SIZE as u64 {
            self.phase = ClientPhase::Failed;
            return Err(Error::FirmwareError(result.status));
        }
        let padded: u128 = result.map_size as u128 + 2 * (result.descriptor_size as u128);
        if padded > u32::MAX as u128 {
            self.phase = ClientPhase::Failed;
            return Err(Error::FirmwareError(result.status));
        }
        self.phase = ClientPhase::Allocating { buffer_size: padded as u32 };
        Ok(result.map_size)
    }

    /// Step 2: judge the pool allocation's status. Success moves the
    /// protocol on to the fetch with the same buffer size; anything else
    /// is surfaced as `FirmwareError` and fails the protocol.
    pub fn pool_allocated(&mut self, status: u64) -> (r: Result<(), Error>)
        requires
            old(self).phase is Allocating,
        ensures
            if status == UEFI_SUCCESS {
                &&& r == Ok::<(), Error>(())
                &&& final(self).phase == (ClientPhase::Fetching {
                    buffer_size: old(self).phase->Allocating_buffer_size,
                })
            } else {
                &&& r == Err::<(), Error>(Error::FirmwareError(status))
                &&& final(self).phase == ClientPhase::Failed
            },
    {
        let buffer_size: u32 = match self.phase {
            ClientPhase::Allocating { buffer_size } => buffer_size,
            _ => 0,
        };
        if status != UEFI_SUCCESS {
            self.phase = ClientPhase::Failed;
            return Err(Error::FirmwareError(status));
        }
        self.phase = ClientPhase::Fetching { buffer_size };
        Ok(())
    }

    /// Whether a fetch result can be used at all: a success status, a
    /// used-size within the buffer the caller filled, and a stride no
    /// smaller than one record (and addressable on this machine).
    pub open spec fn spec_fetch_usable(result: GetMemoryMapResult, buffer: Seq<u8>) -> bool {
        &&& result.status == UEFI_SUCCESS
        &&& result.map_size <= buffer.len()
        &&& MEMORY_DESCRIPTOR_SIZE <= result.descriptor_size
        &&& result.descriptor_size <= usize::MAX
    }

    /// Step 3: judge the fetch call's result and decode the map from the
    /// buffer the firmware filled. The descriptor array is walked at the
    /// firmware-reported stride, never past the reported used size, and
    /// the map key is carried through untouched. Any unusable result is
    /// surfaced as `FirmwareError` and fails the protocol.
    pub fn retrieve_memory_map(&mut self, result: GetMemoryMapResult, buffer: &[u8]) -> (r: Result<
        UefiMemoryMap,
        Error,
    >)
        requires
            old(self).phase is Fetching,
            buffer@.len() == old(self).phase->Fetching_buffer_size,
        ensures
            if Self::spec_fetch_usable(result, buffer@) {
                &&& r is Ok
                &&& final(self).phase == ClientPhase::Complete
                &&& r->Ok_0.map_key == result.map_key
                &&& r->Ok_0.descriptor_size == result.descriptor_size
                &&& r->Ok_0.descriptors@.len() == result.map_size as int
                    / result.descriptor_size as int
                &&& (forall|i: int|
                    0 <= i < r->Ok_0.descriptors@.len() ==> r->Ok_0.descriptors@[i]
                        == spec_descriptor_at(buffer@, i * result.descriptor_size))
            } else {
                &&& r == Err::<UefiMemoryMap, Error>(Error::FirmwareError(result.status))
                &&& final(self).phase == ClientPhase::Failed
            },
    {
        if !(result.status == UEFI_SUCCESS && result.map_size as u64 <= buffer.len() as u64
            && MEMORY_DESCRIPTOR_SIZE as u64 <= result.descriptor_size && result.descriptor_size
            <= usize::MAX as u64) {
            self.phase = ClientPhase::Failed;
            return Err(Error::FirmwareError(result.status));
        }
        let descriptors = parse_memory_map(
            buffer,
            result.map_size as usize,
            result.descriptor_size as usize,
        );
        self.phase = ClientPhase::Complete;
        Ok(
            UefiMemoryMap {
                map_key: result.map_key,
                descriptor_size: result.descriptor_size,
                descriptors,
            },
        )
    }
}

} // verus!
