pub mod processor;
pub mod memory;

use vstd::prelude::*;

verus! {

/// The reset vector: where the processor fetches its first instruction.
pub const RESET_VECTOR: u64 = 0xffff0;

/// A machine: one processor core and its physical memory.
pub struct Hardware {
    pub core: processor::Processor,
    pub mem: memory::Memory,
}

impl Hardware {
    /// A machine with `size` bytes of zeroed memory (rounded up to a page multiple) whose
    /// processor starts at the reset vector.
    pub fn new(size: usize) -> (h: Self)
        requires
            size + 0xfff <= usize::MAX,
        ensures
            h.core.is_reset(RESET_VECTOR as u64),
            h.mem@.len() == memory::rounded_size(size as nat),
            forall|i: int| 0 <= i < h.mem@.len() ==> h.mem@[i] == 0,
    {
        let mut mem = memory::Memory::new();
        mem.set_size(size);
        Self { core: processor::Processor::new(RESET_VECTOR), mem }
    }
}

} // verus!
