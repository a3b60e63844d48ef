//! The byte-addressed memory bus: a 64 KiB backing store covering the whole
//! 16-bit address space, so every read and write the core issues is total.
//! Reads have no side effect; a write changes exactly the addressed byte.

use vstd::prelude::*;

verus! {

/// A 64 KiB byte-addressable memory, viewed as a sequence of 65536 bytes.
pub struct MemoryBus {
    mem: Vec<u8>,
}

impl View for MemoryBus {
    type V = Seq<u8>;

    closed spec fn view(&self) -> Seq<u8> {
        self.mem@
    }
}

impl MemoryBus {
    /// The backing store covers the full 16-bit address space.
    pub open spec fn wf(&self) -> bool {
        self@.len() == 0x10000
    }

    /// A fresh bus with every byte zeroed.
    pub fn new() -> (r: MemoryBus)
        ensures
            r.wf(),
            forall|i: int| 0 <= i < 0x10000 ==> r@[i] == 0,
    {
        let mut mem: Vec<u8> = Vec::new();
        while mem.len() < 0x10000
            invariant
                mem@.len() <= 0x10000,
                forall|i: int| 0 <= i < mem@.len() ==> mem@[i] == 0,
            decreases 0x10000 - mem@.len(),
        {
            mem.push(0);
        }
        MemoryBus { mem }
    }

    /// Reads the byte at `addr`; defined for every address and free of side
    /// effects.
    pub fn read(&self, addr: u16) -> (r: u8)
        requires
            self.wf(),
        ensures
            r == self@[addr as int],
    {
        self.mem[addr as usize]
    }

    /// Writes `value` at `addr`: the addressed byte changes and every other
    /// byte keeps its value.
    pub fn write(&mut self, addr: u16, value: u8)
        requires
            old(self).wf(),
        ensures
            final(self).wf(),
            final(self)@ == old(self)@.update(addr as int, value),
    {
        self.mem[addr as usize] = value;
        proof {
            assert(self@ =~= old(self)@.update(addr as int, value));
        }
    }
}

} // verus!
