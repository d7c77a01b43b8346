//! A read-only decoder for the processor's segment descriptor table.
//!
//! The caller snapshots the descriptor-table register (a base address and a
//! byte limit) and hands the table's raw bytes to [`Gdtr::descriptor_table`];
//! every field of every record is reconstructed here by bit concatenation,
//! exactly as the 8-byte binary layout defines it.

use vstd::prelude::*;

verus! {

/// Two bytes read as a little-endian 16-bit value.
pub open spec fn u16_from_le_pair(lo: u8, hi: u8) -> u16 {
    (lo as u16) | ((hi as u16) << 8)
}

/// One 8-byte segment descriptor record: limit-low (2 bytes), base-low
/// (2 bytes), base-mid (1 byte), an access-flags byte, a limit-high/flags
/// byte, and base-high (1 byte).
#[derive(Copy, Clone, Debug, PartialEq, Eq, Structural)]
pub struct SegmentDescriptor {
    pub limit_lo: u16,
    pub base0: u16,
    pub base1: u8,
    pub fields0: u8,
    pub fields1: u8,
    pub base2: u8,
}

impl SegmentDescriptor {
    /// The record encoded by the 8 bytes starting at `offset`.
    pub open spec fn spec_from_bytes(b: Seq<u8>) -> SegmentDescriptor
        recommends
            b.len() == 8,
    {
        SegmentDescriptor {
            limit_lo: u16_from_le_pair(b[0], b[1]),
            base0: u16_from_le_pair(b[2], b[3]),
            base1: b[4],
            fields0: b[5],
            fields1: b[6],
            base2: b[7],
        }
    }

    /// Decodes one record from the 8 bytes at `offset`, reading nothing
    /// outside that range.
    pub fn from_bytes(bytes: &[u8], offset: usize) -> (d: SegmentDescriptor)
        requires
            offset + 8 <= bytes@.len(),
        ensures
            d == SegmentDescriptor::spec_from_bytes(
                bytes@.subrange(offset as int, offset as int + 8),
            ),
    {
        SegmentDescriptor {
            limit_lo: (bytes[offset] as u16) | ((bytes[offset + 1] as u16) << 8),
            base0: (bytes[offset + 2] as u16) | ((bytes[offset + 3] as u16) << 8),
            base1: bytes[offset + 4],
            fields0: bytes[offset + 5],
            fields1: bytes[offset + 6],
            base2: bytes[offset + 7],
        }
    }

    /// The 32-bit base: three fragments concatenated, low to high.
    pub open spec fn spec_base(self) -> u32 {
        (self.base0 as u32) | ((self.base1 as u32) << 16) | ((self.base2 as u32) << 24)
    }

    pub fn base(&self) -> (r: u32)
        ensures
            r == self.spec_base(),
    {
        self.base0() | (self.base1() << 16) | (self.base2() << 24)
    }

    /// The 20-bit limit: two fragments concatenated.
    pub open spec fn spec_limit(self) -> u32 {
        (self.limit_lo as u32) | (((self.fields1 & 0x0f) as u32) << 16)
    }

    pub fn limit(&self) -> (r: u32)
        ensures
            r == self.spec_limit(),
    {
        self.limit_lo() | (self.limit_hi() << 16)
    }

    /// The granularity flag, bit 7 of the second flags byte, as 0 or 1.
    pub open spec fn spec_granularity(self) -> u8 {
        (self.fields1 & 0x80) >> 7
    }

    pub fn granularity(&self) -> (r: u8)
        ensures
            r == self.spec_granularity(),
    {
        (self.fields1 & 0x80) >> 7
    }

    /// The long-mode flag, bit 5 of the second flags byte.
    pub open spec fn spec_is_64bits(self) -> bool {
        self.fields1 & 0x20 == 0x20
    }

    pub fn is_64bits(&self) -> (r: bool)
        ensures
            r == self.spec_is_64bits(),
    {
        self.fields1 & 0x20 == 0x20
    }

    /// The available-for-use flag, bit 4 of the second flags byte.
    pub open spec fn spec_is_available(self) -> bool {
        self.fields1 & 0x10 == 0x10
    }

    pub fn is_available(&self) -> (r: bool)
        ensures
            r == self.spec_is_available(),
    {
        self.fields1 & 0x10 == 0x10
    }

    /// The present flag, bit 7 of the access byte.
    pub open spec fn spec_is_present(self) -> bool {
        self.fields0 & 0x80 == 0x80
    }

    pub fn is_present(&self) -> (r: bool)
        ensures
            r == self.spec_is_present(),
    {
        self.fields0 & 0x80 == 0x80
    }

    /// The system-segment flag, bit 4 of the access byte.
    pub open spec fn spec_is_system_segment(self) -> bool {
        self.fields0 & 0x10 == 0x10
    }

    pub fn is_system_segment(&self) -> (r: bool)
        ensures
            r == self.spec_is_system_segment(),
    {
        self.fields0 & 0x10 == 0x10
    }

    /// The default-operation-size flag, bit 6 of the second flags byte, as
    /// 0 or 1.
    pub open spec fn spec_operation_size(self) -> u8 {
        (self.fields1 & 0x40) >> 6
    }

    pub fn operation_size(&self) -> (r: u8)
        ensures
            r == self.spec_operation_size(),
    {
        (self.fields1 & 0x40) >> 6
    }

    /// The 2-bit privilege level, bits 5 and 6 of the access byte.
    pub open spec fn spec_privilege_level(self) -> u8 {
        (self.fields0 & 0x60) >> 5
    }

    pub fn privilege_level(&self) -> (r: u8)
        ensures
            r == self.spec_privilege_level(),
    {
        (self.fields0 & 0x60) >> 5
    }

    /// The 4-bit segment type, the low bits of the access byte.
    pub open spec fn spec_segment_type(self) -> u8 {
        self.fields0 & 0x0f
    }

    pub fn segment_type(&self) -> (r: u8)
        ensures
            r == self.spec_segment_type(),
    {
        self.fields0 & 0x0f
    }

    fn base0(&self) -> (r: u32)
        ensures
            r == self.base0,
    {
        self.base0 as u32
    }

    fn base1(&self) -> (r: u32)
        ensures
            r == self.base1,
    {
        self.base1 as u32
    }

    fn base2(&self) -> (r: u32)
        ensures
            r == self.base2,
    {
        self.base2 as u32
    }

    fn limit_hi(&self) -> (r: u32)
        ensures
            r == self.fields1 & 0x0f,
    {
        (self.fields1 & 0x0f) as u32
    }

    fn limit_lo(&self) -> (r: u32)
        ensures
            r == self.limit_lo,
    {
        self.limit_lo as u32
    }
}

/// A snapshot of the processor's descriptor-table register: the table's
/// base address and its byte limit (the table size in bytes, minus one).
#[derive(Copy, Clone, Debug, PartialEq, Eq, Structural)]
pub struct Gdtr {
    pub limit: u16,
    pub base: u64,
}

impl Gdtr {
    /// How many whole 8-byte records the table holds. A limit of 0 means a
    /// valid but empty table.
    pub fn descriptor_count(&self) -> (n: usize)
        ensures
            n == (self.limit + 1) / 8,
    {
        (self.limit as usize + 1) / 8
    }

    /// Decodes the table from its raw bytes, which the caller read at the
    /// base address: `limit + 1` bytes, snapshotted atomically with the
    /// register pair. Each record is decoded from its own 8 bytes alone.
    pub fn descriptor_table(&self, table_bytes: &[u8]) -> (table: Vec<SegmentDescriptor>)
        requires
            table_bytes@.len() == self.limit + 1,
        ensures
            table@.len() == (self.limit + 1) / 8,
            forall|i: int|
                0 <= i < table@.len() ==> table@[i] == SegmentDescriptor::spec_from_bytes(
                    table_bytes@.subrange(8 * i, 8 * i + 8),
                ),
    {
        let count: usize = self.descriptor_count();
        let mut table: Vec<SegmentDescriptor> = Vec::new();
        let mut idx: usize = 0;
        while idx < count
            invariant
                idx <= count,
                count == (self.limit + 1) / 8,
                table_bytes@.len() == self.limit + 1,
                table@.len() == idx,
                forall|i: int|
                    0 <= i < idx ==> table@[i] == SegmentDescriptor::spec_from_bytes(
                        table_bytes@.subrange(8 * i, 8 * i + 8),
                    ),
            decreases count - idx,
        {
            let d = SegmentDescriptor::from_bytes(table_bytes, 8 * idx);
            table.push(d);
            idx = idx + 1;
        }
        table
    }
}

} // verus!
