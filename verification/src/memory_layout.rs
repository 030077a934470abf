//! Where a virtual machine's RAM lies in guest physical memory.

use vstd::prelude::*;

verus! {

/// A range of guest physical addresses.
#[derive(Debug, Copy, Clone)]
pub struct MemoryRange {
    /// First address of the range.
    pub start: u64,
    /// Length of the range in bytes.
    pub len: u64,
}

/// The memory layout of a virtual machine.
#[derive(Debug)]
pub struct MemoryLayout {
    /// The ranges of RAM, in ascending order.
    pub ram: Vec<MemoryRange>,
}

impl MemoryLayout {
    /// The ranges of RAM.
    pub fn ram(&self) -> (ranges: &[MemoryRange])
        ensures
            ranges@ == self.ram@,
    {
        self.ram.as_slice()
    }
}

} // verus!
