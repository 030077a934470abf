//! The memory map that the firmware reads under `etc/e820`.

use vstd::prelude::*;
use crate::endian::{le32, le64, u32_to_le, u64_to_le};
use crate::fw_cfg::defs::append_bytes;
use crate::memory_layout::{MemoryLayout, MemoryRange};

verus! {

/// Type of an entry that describes usable RAM.
pub const E820_RAM: u32 = 1;

/// Type of an entry that describes reserved memory.
pub const E820_RESERVED: u32 = 2;

/// Bytes of one entry of the map.
pub const E820_ENTRY_SIZE: usize = 20;

/// One entry of the map: address, length and type, packed, each in
/// little-endian order.
pub open spec fn e820_entry(range: MemoryRange) -> Seq<u8> {
    le64(range.start) + le64(range.len) + le32(E820_RAM)
}

/// The map of `ranges`: one RAM entry for each range, in their order.
pub open spec fn e820_table(ranges: Seq<MemoryRange>) -> Seq<u8>
    decreases ranges.len(),
{
    if ranges.len() == 0 {
        Seq::empty()
    } else {
        e820_table(ranges.drop_last()) + e820_entry(ranges.last())
    }
}

/// The map has [`E820_ENTRY_SIZE`] bytes for each range.
pub proof fn lemma_e820_table_len(ranges: Seq<MemoryRange>)
    ensures
        e820_table(ranges).len() == E820_ENTRY_SIZE * ranges.len(),
    decreases ranges.len(),
{
    if ranges.len() > 0 {
        lemma_e820_table_len(ranges.drop_last());
    }
}

/// Builds the memory map of the RAM of `mem_layout`.
pub fn gen_e820(mem_layout: &MemoryLayout) -> (table: Vec<u8>)
    ensures
        table@ == e820_table(mem_layout.ram@),
{
    let ranges = mem_layout.ram();
    let mut v: Vec<u8> = Vec::new();
    let mut index: usize = 0;
    while index < ranges.len()
        invariant
            index <= ranges@.len(),
            v@ == e820_table(ranges@.take(index as int)),
        decreases ranges@.len() - index,
    {
        let range = ranges[index];
        let address = u64_to_le(range.start);
        let length = u64_to_le(range.len);
        let ty = u32_to_le(E820_RAM);
        proof {
            let next = ranges@.take(index + 1);
            assert(next.drop_last() == ranges@.take(index as int));
        }
        append_bytes(&mut v, address.as_slice());
        append_bytes(&mut v, length.as_slice());
        append_bytes(&mut v, ty.as_slice());
        index += 1;
    }
    assert(ranges@.take(index as int) == ranges@);
    v
}

} // verus!
