//! The memory bus. The interpreter and the disassembler are parametric over
//! any type implementing [`BusTrait`]; the crate provides [`Bus`], a flat
//! byte-addressable memory covering the full 24-bit address space.

use vstd::prelude::*;
use crate::arith::{glue16, glue32, mask24, split16, split32};
use crate::model::{mem_rd8, mem_rd16, mem_rd32, mem_wr8, mem_wr16, mem_wr32};

verus! {

/// Byte-addressable big-endian memory bus. Eight-bit accesses are primitive;
/// the 16- and 32-bit helpers compose them most-significant byte first. The
/// top 8 bits of every address are ignored: the machine decodes 24.
pub trait BusTrait: Sized {
    /// The bytes currently visible through the bus, keyed by 24-bit address.
    spec fn mem(&self) -> Map<u32, u8>;

    spec fn wf(&self) -> bool;

    /// Hook called once by CPU reset, before the reset vectors are fetched.
    fn reset(&mut self)
        requires
            old(self).wf(),
        ensures
            final(self).wf(),
            final(self).mem() == old(self).mem(),
    ;

    fn read8(&self, adr: u32) -> (r: u8)
        requires
            self.wf(),
        ensures
            r == mem_rd8(self.mem(), adr),
    ;

    fn write8(&mut self, adr: u32, value: u8)
        requires
            old(self).wf(),
        ensures
            final(self).wf(),
            final(self).mem() == mem_wr8(old(self).mem(), adr, value),
    ;

    fn read16(&self, adr: u32) -> (r: u16)
        requires
            self.wf(),
        ensures
            r == mem_rd16(self.mem(), adr),
    {
        let d0 = self.read8(adr);
        let d1 = self.read8(adr.wrapping_add(1));
        glue16(d0, d1)
    }

    fn read32(&self, adr: u32) -> (r: u32)
        requires
            self.wf(),
        ensures
            r == mem_rd32(self.mem(), adr),
    {
        let d0 = self.read8(adr);
        let d1 = self.read8(adr.wrapping_add(1));
        let d2 = self.read8(adr.wrapping_add(2));
        let d3 = self.read8(adr.wrapping_add(3));
        glue32(d0, d1, d2, d3)
    }

    fn write16(&mut self, adr: u32, value: u16)
        requires
            old(self).wf(),
        ensures
            final(self).wf(),
            final(self).mem() == mem_wr16(old(self).mem(), adr, value),
    {
        let (hi, lo) = split16(value);
        self.write8(adr, hi);
        self.write8(adr.wrapping_add(1), lo);
    }

    fn write32(&mut self, adr: u32, value: u32)
        requires
            old(self).wf(),
        ensures
            final(self).wf(),
            final(self).mem() == mem_wr32(old(self).mem(), adr, value),
    {
        let (b3, b2, b1, b0) = split32(value);
        self.write8(adr, b3);
        self.write8(adr.wrapping_add(1), b2);
        self.write8(adr.wrapping_add(2), b1);
        self.write8(adr.wrapping_add(3), b0);
    }
}

/// A flat memory bus: 16 MiB of RAM covering the whole 24-bit address space,
/// zeroed at construction.
pub struct Bus {
    data: Vec<u8>,
}

impl BusTrait for Bus {
    closed spec fn mem(&self) -> Map<u32, u8> {
        Map::new(|a: u32| a < 0x1000000, |a: u32| self.data[a as int])
    }

    closed spec fn wf(&self) -> bool {
        self.data.len() == 0x1000000
    }

    fn reset(&mut self) {
    }

    fn read8(&self, adr: u32) -> (r: u8) {
        self.data[(adr % 0x1000000) as usize]
    }

    fn write8(&mut self, adr: u32, value: u8) {
        self.data.set((adr % 0x1000000) as usize, value);
        proof {
            assert(self.mem() =~= mem_wr8(old(self).mem(), adr, value));
        }
    }
}

impl Bus {
    pub fn new() -> (r: Bus)
        ensures
            r.wf(),
            forall|a: u32| a < 0x1000000 ==> r.mem()[a] == 0,
    {
        let mut data: Vec<u8> = Vec::new();
        while data.len() < 0x1000000
            invariant
                data.len() <= 0x1000000,
                forall|i: int| 0 <= i < data.len() ==> data[i] == 0,
            decreases 0x1000000 - data.len(),
        {
            data.push(0);
        }
        Bus { data }
    }
}

} // verus!
