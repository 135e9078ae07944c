//! The machine around the processor: a flat memory bus loaded with a boot
//! image, the processor reset through its vectors, and a batch-stepping
//! update entry for the enclosing host loop.

use vstd::prelude::*;
use crate::bus::{Bus, BusTrait};
use crate::cpu::{Cpu, Fault, spec_run};
use crate::model::{mem_rd32};

verus! {

/// Builds a processor over a flat bus holding `rom` from address 0 upward,
/// already taken through the reset protocol.
pub fn new_cpu(rom: Vec<u8>) -> (r: Cpu<Bus>)
    requires
        rom.len() <= 0x1000000,
    ensures
        r.wf(),
        forall|i: u32| i < rom.len() ==> r.st().mem[i] == rom[i as int],
        forall|i: u32| rom.len() <= i < 0x1000000 ==> r.st().mem[i] == 0,
        r.st().sr == 0,
        r.st().a[7] == mem_rd32(r.st().mem, 0),
        r.st().pc == mem_rd32(r.st().mem, 4),
        forall|i: int| 0 <= i < 7 ==> r.st().d[i] == 0 && r.st().a[i] == 0,
        r.st().d[7] == 0,
{
    let mut bus = Bus::new();
    let mut i: usize = 0;
    while i < rom.len()
        invariant
            bus.wf(),
            rom.len() <= 0x1000000,
            i <= rom.len(),
            forall|k: u32| k < i ==> bus.mem()[k] == rom[k as int],
            forall|k: u32| i <= k < 0x1000000 ==> bus.mem()[k] == 0,
        decreases rom.len() - i,
    {
        bus.write8(i as u32, rom[i]);
        i = i + 1;
    }
    let mut cpu = Cpu::new(bus);
    cpu.reset();
    cpu
}

/// The whole machine; the core owns the bus for the duration of each step.
pub struct X68k {
    pub cpu: Cpu<Bus>,
}

impl X68k {
    pub fn new(rom: Vec<u8>) -> (r: X68k)
        requires
            rom.len() <= 0x1000000,
        ensures
            r.cpu.wf(),
            forall|i: u32| i < rom.len() ==> r.cpu.st().mem[i] == rom[i as int],
            r.cpu.st().sr == 0,
            r.cpu.st().a[7] == mem_rd32(r.cpu.st().mem, 0),
            r.cpu.st().pc == mem_rd32(r.cpu.st().mem, 4),
    {
        X68k { cpu: new_cpu(rom) }
    }

    /// Advances the machine by `cycles` instructions, stopping at a fault.
    pub fn update(&mut self, cycles: usize) -> (r: Result<(), Fault>)
        requires
            old(self).cpu.wf(),
        ensures
            final(self).cpu.wf(),
            match r {
                Ok(()) => spec_run(old(self).cpu.st(), cycles as nat) == Some(final(self).cpu.st()),
                Err(f) => spec_run(old(self).cpu.st(), cycles as nat) is None,
            },
    {
        self.cpu.run_cycles(cycles)
    }
}

} // verus!
