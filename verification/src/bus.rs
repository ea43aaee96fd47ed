use crate::read::Read;
use crate::write::Write;
use vstd::prelude::*;

verus! {

/// A flat memory bus backing the whole 16-bit address space with RAM.
/// Every address from 0x0000 to 0xFFFF is mapped, so reads and writes
/// always succeed; richer buses with device regions are out of scope.
pub struct Bus {
    ram: Vec<u8>,
}

impl View for Bus {
    type V = Seq<u8>;

    closed spec fn view(&self) -> Seq<u8> {
        self.ram@
    }
}

impl Bus {
    /// The backing RAM covers the full 16-bit address space.
    pub open spec fn wf(&self) -> bool {
        self@.len() == 0x10000
    }

    /// A bus whose 64 KiB of RAM are zeroed.
    pub fn new() -> (r: Bus)
        ensures
            r.wf(),
            forall|i: int| 0 <= i < 0x10000 ==> r@[i] == 0,
    {
        let mut ram: Vec<u8> = Vec::new();
        while ram.len() < 0x10000
            invariant
                ram@.len() <= 0x10000,
                forall|i: int| 0 <= i < ram@.len() ==> ram@[i] == 0,
            decreases 0x10000 - ram@.len(),
        {
            ram.push(0);
        }
        Bus { ram }
    }

    /// On a flat full-range bus every read succeeds and returns the byte
    /// stored at the address.
    pub fn read(&self, address: u16) -> (r: Option<u8>)
        requires
            self.wf(),
        ensures
            r == Some(self@[address as int]),
    {
        Some(self.ram[address as usize])
    }

    /// The side-effect-free read used for debugging and disassembly; on a
    /// flat RAM bus it is indistinguishable from `read`.
    pub fn read_only(&self, address: u16) -> (r: Option<u8>)
        requires
            self.wf(),
        ensures
            r == Some(self@[address as int]),
    {
        Some(self.ram[address as usize])
    }

    /// Stores a byte at the address; every address of the flat bus is
    /// writable.
    pub fn write(&mut self, address: u16, data: u8)
        requires
            old(self).wf(),
        ensures
            final(self).wf(),
            final(self)@ == old(self)@.update(address as int, data),
    {
        self.ram.set(address as usize, data);
    }
}

impl Read<u16, u8> for Bus {
    fn read(&self, address: u16) -> Option<u8> {
        if (address as usize) < self.ram.len() {
            Some(self.ram[address as usize])
        } else {
            None
        }
    }

    fn read_only(&self, address: u16) -> Option<u8> {
        if (address as usize) < self.ram.len() {
            Some(self.ram[address as usize])
        } else {
            None
        }
    }
}

impl Write<u16, u8> for Bus {
    fn write(&mut self, address: u16, data: u8) {
        if (address as usize) < self.ram.len() {
            self.ram.set(address as usize, data);
        }
    }
}

} // verus!
