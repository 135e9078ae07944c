//! The register file: eight 32-bit data registers, eight 32-bit address
//! registers (`A7` doubles as the stack pointer), the program counter and the
//! 16-bit status register, all zero at construction.

use vstd::prelude::*;

verus! {

pub struct Registers {
    /// Address registers `A0..A7`.
    pub a: Vec<u32>,
    /// Data registers `D0..D7`.
    pub d: Vec<u32>,
    pub pc: u32,
    pub sr: u16,
}

impl Registers {
    pub open spec fn wf(&self) -> bool {
        self.a.len() == 8 && self.d.len() == 8
    }

    pub fn new() -> (r: Registers)
        ensures
            r.wf(),
            r.pc == 0,
            r.sr == 0,
            forall|i: int| 0 <= i < 8 ==> r.a[i] == 0 && r.d[i] == 0,
    {
        let mut a: Vec<u32> = Vec::new();
        let mut d: Vec<u32> = Vec::new();
        let mut i: usize = 0;
        while i < 8
            invariant
                a.len() == i,
                d.len() == i,
                i <= 8,
                forall|j: int| 0 <= j < i ==> a[j] == 0 && d[j] == 0,
            decreases 8 - i,
        {
            a.push(0);
            d.push(0);
            i = i + 1;
        }
        Registers { a, d, pc: 0, sr: 0 }
    }
}

} // verus!
