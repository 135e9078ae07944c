//! The instruction interpreter: fetch, decode through the opcode table,
//! evaluate effective addresses, execute, and maintain the condition codes.
//! Every public operation is specified against the machine model; `spec_step`
//! is the mathematical one-instruction transition.

use vstd::prelude::*;
use crate::arith::{
    low8, low8_of16, low16, replace_byte, replace_word, set_low8, set_low16, sext8to16, sext8to32,
    sext16to32, sign_extend8, sign_extend8to16, sign_extend16, take8, take8of16, take16, wadd8,
    wadd16, wadd32, wsub8, wsub16, wsub32,
};
use crate::bus::BusTrait;
use crate::model::{
    Machine, pc_plus, pop32s, push32s, rd8, rd16, rd32, sr_set_nzvc, sr_set_xnzvc, sr_set_z,
    sr_logical8, sr_logical16, sr_logical32, sr_cmp8, sr_cmp16, sr_cmp32, taken_bcc, taken_bcs,
    taken_bne, taken_beq, taken_bpl, taken_bmi, taken_bge, taken_blt, taken_bgt, taken_ble,
    with_a, with_d, with_pc, with_sr, wr8, wr16, wr32,
};
use crate::opcode::{Opcode, OpTable, decode, fld0, fld3, fld6, fld9};
use crate::registers::Registers;
use crate::util::{branch_offset, get_branch_offset, conv07to18, quick_value};

verus! {

/// What stopped the interpreter: a first word the table leaves undefined, or
/// a defined operation reaching an addressing form this core does not
/// implement. Either way the diagnostic carries the program counter of the
/// instruction and its first word.
#[derive(Clone, Copy, Debug, PartialEq, Eq, Structural)]
pub enum FaultKind {
    UnknownOpcode,
    Unsupported,
}

/// A fatal interpreter condition; it aborts the current batch of cycles.
#[derive(Clone, Copy, Debug, PartialEq, Eq, Structural)]
pub struct Fault {
    pub kind: FaultKind,
    pub pc: u32,
    pub op: u16,
}

pub struct Cpu<B> {
    pub regs: Registers,
    pub bus: B,
    pub table: OpTable,
}

impl<B: BusTrait> Cpu<B> {
    /// The architectural state this value stands for.
    pub open spec fn st(&self) -> Machine {
        Machine {
            d: self.regs.d@,
            a: self.regs.a@,
            pc: self.regs.pc,
            sr: self.regs.sr,
            mem: self.bus.mem(),
        }
    }

    pub open spec fn wf(&self) -> bool {
        self.regs.wf() && self.bus.wf() && self.table.wf()
    }

    /// Builds a processor around `bus`: registers zeroed, the opcode table
    /// tabulated once.
    pub fn new(bus: B) -> (r: Cpu<B>)
        requires
            bus.wf(),
        ensures
            r.wf(),
            r.st().pc == 0,
            r.st().sr == 0,
            forall|i: int| 0 <= i < 8 ==> r.st().d[i] == 0 && r.st().a[i] == 0,
            r.st().mem == bus.mem(),
    {
        let regs = Registers::new();
        let table = OpTable::new();
        Cpu { regs, bus, table }
    }

    /// The architectural reset protocol: `SR` cleared, `A7` loaded from the
    /// long at address 0, `PC` from the long at address 4.
    pub fn reset(&mut self)
        requires
            old(self).wf(),
        ensures
            final(self).wf(),
            final(self).st() == sem_reset(old(self).st()),
    {
        self.bus.reset();
        self.regs.sr = 0;
        let sp = self.bus.read32(0x000000);
        self.regs.a.set(7, sp);
        self.regs.pc = self.bus.read32(0x000004);
    }

    pub fn set_pc(&mut self, pc: u32)
        requires
            old(self).wf(),
        ensures
            final(self).wf(),
            final(self).st() == with_pc(old(self).st(), pc),
    {
        self.regs.pc = pc;
    }

    /// Data register `i`, for inspection.
    pub fn dreg(&self, i: usize) -> (r: u32)
        requires
            self.wf(),
            i < 8,
        ensures
            r == self.st().d[i as int],
    {
        self.regs.d[i]
    }

    /// Address register `i`, for inspection.
    pub fn areg(&self, i: usize) -> (r: u32)
        requires
            self.wf(),
            i < 8,
        ensures
            r == self.st().a[i as int],
    {
        self.regs.a[i]
    }

    pub fn pc(&self) -> (r: u32)
        ensures
            r == self.st().pc,
    {
        self.regs.pc
    }

    pub fn sr(&self) -> (r: u16)
        ensures
            r == self.st().sr,
    {
        self.regs.sr
    }

    /// Sets the status register, for tests and the enclosing emulator.
    pub fn set_sr(&mut self, v: u16)
        requires
            old(self).wf(),
        ensures
            final(self).wf(),
            final(self).st() == with_sr(old(self).st(), v),
    {
        self.regs.sr = v;
    }

    /// Sets data register `i`, for tests and the enclosing emulator.
    pub fn set_dreg(&mut self, i: usize, v: u32)
        requires
            old(self).wf(),
            i < 8,
        ensures
            final(self).wf(),
            final(self).st() == with_d(old(self).st(), i as int, v),
    {
        self.regs.d.set(i, v);
    }

    /// Sets address register `i`, for tests and the enclosing emulator.
    pub fn set_areg(&mut self, i: usize, v: u32)
        requires
            old(self).wf(),
            i < 8,
        ensures
            final(self).wf(),
            final(self).st() == with_a(old(self).st(), i as int, v),
    {
        self.regs.a.set(i, v);
    }

    // -----------------------------------------------------------------------
    // Memory access through the bus, big-endian.

    pub fn read8(&self, adr: u32) -> (r: u8)
        requires
            self.wf(),
        ensures
            r == rd8(self.st(), adr),
    {
        self.bus.read8(adr)
    }

    pub fn read16(&self, adr: u32) -> (r: u16)
        requires
            self.wf(),
        ensures
            r == rd16(self.st(), adr),
    {
        self.bus.read16(adr)
    }

    pub fn read32(&self, adr: u32) -> (r: u32)
        requires
            self.wf(),
        ensures
            r == rd32(self.st(), adr),
    {
        self.bus.read32(adr)
    }

    pub fn write8(&mut self, adr: u32, value: u8)
        requires
            old(self).wf(),
        ensures
            final(self).wf(),
            final(self).st() == wr8(old(self).st(), adr, value),
    {
        self.bus.write8(adr, value);
    }

    pub fn write16(&mut self, adr: u32, value: u16)
        requires
            old(self).wf(),
        ensures
            final(self).wf(),
            final(self).st() == wr16(old(self).st(), adr, value),
    {
        self.bus.write16(adr, value);
    }

    pub fn write32(&mut self, adr: u32, value: u32)
        requires
            old(self).wf(),
        ensures
            final(self).wf(),
            final(self).st() == wr32(old(self).st(), adr, value),
    {
        self.bus.write32(adr, value);
    }

    // -----------------------------------------------------------------------
    // Stack discipline.

    fn push32(&mut self, value: u32)
        requires
            old(self).wf(),
        ensures
            final(self).wf(),
            final(self).st() == push32s(old(self).st(), value),
    {
        let sp = self.regs.a[7].wrapping_sub(4);
        self.regs.a.set(7, sp);
        self.write32(sp, value);
    }

    fn pop32(&mut self) -> (r: u32)
        requires
            old(self).wf(),
        ensures
            final(self).wf(),
            final(self).st() == pop32s(old(self).st()).0,
            r == pop32s(old(self).st()).1,
    {
        let oldsp = self.regs.a[7];
        self.regs.a.set(7, oldsp.wrapping_add(4));
        self.read32(oldsp)
    }

    // -----------------------------------------------------------------------
    // Condition-code mutators. All preserve X except where shifts write it.

    fn set_cmp_sr(&mut self, borrow: bool, eq: bool, overflow: bool, neg: bool)
        requires
            old(self).wf(),
        ensures
            final(self).wf(),
            final(self).st() == with_sr(
                old(self).st(),
                sr_set_nzvc(old(self).st().sr, borrow, overflow, eq, neg),
            ),
    {
        let nib: u16 = (if borrow { 1u16 } else { 0u16 }) + (if overflow { 2u16 } else { 0u16 })
            + (if eq { 4u16 } else { 0u16 }) + (if neg { 8u16 } else { 0u16 });
        self.regs.sr = (self.regs.sr - self.regs.sr % 16) + nib;
    }

    fn set_and_sr(&mut self, zero: bool, neg: bool)
        requires
            old(self).wf(),
        ensures
            final(self).wf(),
            final(self).st() == with_sr(
                old(self).st(),
                sr_set_nzvc(old(self).st().sr, false, false, zero, neg),
            ),
    {
        let nib: u16 = (if zero { 4u16 } else { 0u16 }) + (if neg { 8u16 } else { 0u16 });
        self.regs.sr = (self.regs.sr - self.regs.sr % 16) + nib;
    }

    fn set_tst_sr(&mut self, zero: bool, neg: bool)
        requires
            old(self).wf(),
        ensures
            final(self).wf(),
            final(self).st() == with_sr(
                old(self).st(),
                sr_set_nzvc(old(self).st().sr, false, false, zero, neg),
            ),
    {
        let nib: u16 = (if zero { 4u16 } else { 0u16 }) + (if neg { 8u16 } else { 0u16 });
        self.regs.sr = (self.regs.sr - self.regs.sr % 16) + nib;
    }
}

/// Reset leaves memory and the data registers alone, clears `SR`, and loads
/// `A7` and `PC` from the two reset vectors.
pub open spec fn sem_reset(m: Machine) -> Machine {
    with_pc(with_a(with_sr(m, 0), 7, rd32(m, 0)), rd32(m, 4))
}


// ---------------------------------------------------------------------------
// Effective-address semantics. Each function yields the machine after the
// access (extension words consumed, side effects applied) and the value
// transferred; `None` marks a (mode, reg) combination this core rejects.

/// The address computed by a brief extension word: base register, index
/// register (word- or long-sized), and signed 8-bit displacement.
pub open spec fn brief_index_adr(m: Machine, reg: u16, ext: u16) -> u32 {
    let da = ext / 0x8000 == 1;
    let dr = ((ext / 0x1000) % 8) as int;
    let dl = (ext / 0x800) % 2 == 1;
    let base = if da {
        m.a[dr]
    } else {
        m.d[dr]
    };
    let regofs = if dl {
        base
    } else {
        sext16to32(low16(base))
    };
    wadd32(wadd32(m.a[reg as int], regofs), sext8to32(low8_of16(ext)))
}

/// Byte-sized source read for (mode, reg); `adv` permits consuming extension
/// words (advancing `PC`) and the postincrement side effect.
pub open spec fn ea_read8(m: Machine, mode: u16, reg: u16, adv: bool) -> Option<(Machine, u8)> {
    let r = reg as int;
    if mode == 0 {
        Some((m, low8(m.d[r])))
    } else if mode == 2 {
        Some((m, rd8(m, m.a[r])))
    } else if mode == 3 {
        let adr = m.a[r];
        let m2 = if adv {
            with_a(m, r, wadd32(adr, 1))
        } else {
            m
        };
        Some((m2, rd8(m, adr)))
    } else if mode == 5 {
        let ofs = rd16(m, m.pc);
        let m2 = if adv {
            pc_plus(m, 2)
        } else {
            m
        };
        Some((m2, rd8(m, wadd32(m.a[r], sext16to32(ofs)))))
    } else if mode == 7 && reg == 1 {
        let adr = rd32(m, m.pc);
        let m2 = if adv {
            pc_plus(m, 4)
        } else {
            m
        };
        Some((m2, rd8(m, adr)))
    } else if mode == 7 && reg == 4 {
        if adv {
            Some((pc_plus(m, 2), low8_of16(rd16(m, m.pc))))
        } else {
            None
        }
    } else {
        None
    }
}

/// Word-sized source read. At (7, 4) without advancement the status register
/// itself is the operand: that is how the immediate-to-SR forms read it.
pub open spec fn ea_read16(m: Machine, mode: u16, reg: u16, adv: bool) -> Option<(Machine, u16)> {
    let r = reg as int;
    if mode == 0 {
        Some((m, low16(m.d[r])))
    } else if mode == 2 {
        Some((m, rd16(m, m.a[r])))
    } else if mode == 3 {
        let adr = m.a[r];
        let m2 = if adv {
            with_a(m, r, wadd32(adr, 2))
        } else {
            m
        };
        Some((m2, rd16(m, adr)))
    } else if mode == 5 {
        let ofs = rd16(m, m.pc);
        let m2 = if adv {
            pc_plus(m, 2)
        } else {
            m
        };
        Some((m2, rd16(m, wadd32(m.a[r], sext16to32(ofs)))))
    } else if mode == 6 {
        let ext = rd16(m, m.pc);
        if (ext / 0x100) % 2 == 1 {
            None
        } else {
            let m2 = if adv {
                pc_plus(m, 2)
            } else {
                m
            };
            Some((m2, rd16(m, brief_index_adr(m, reg, ext))))
        }
    } else if mode == 7 && reg == 1 {
        let adr = rd32(m, m.pc);
        let m2 = if adv {
            pc_plus(m, 4)
        } else {
            m
        };
        Some((m2, rd16(m, adr)))
    } else if mode == 7 && reg == 4 {
        if adv {
            Some((pc_plus(m, 2), rd16(m, m.pc)))
        } else {
            Some((m, m.sr))
        }
    } else {
        None
    }
}

/// Long-sized source read; address register direct is accepted here only.
pub open spec fn ea_read32(m: Machine, mode: u16, reg: u16, adv: bool) -> Option<(Machine, u32)> {
    let r = reg as int;
    if mode == 0 {
        Some((m, m.d[r]))
    } else if mode == 1 {
        Some((m, m.a[r]))
    } else if mode == 2 {
        Some((m, rd32(m, m.a[r])))
    } else if mode == 3 {
        let adr = m.a[r];
        let m2 = if adv {
            with_a(m, r, wadd32(adr, 4))
        } else {
            m
        };
        Some((m2, rd32(m, adr)))
    } else if mode == 5 {
        let ofs = rd16(m, m.pc);
        let m2 = if adv {
            pc_plus(m, 2)
        } else {
            m
        };
        Some((m2, rd32(m, wadd32(m.a[r], sext16to32(ofs)))))
    } else if mode == 6 {
        let ext = rd16(m, m.pc);
        if (ext / 0x100) % 2 == 1 {
            None
        } else {
            let m2 = if adv {
                pc_plus(m, 2)
            } else {
                m
            };
            Some((m2, rd32(m, brief_index_adr(m, reg, ext))))
        }
    } else if mode == 7 && reg == 1 {
        let adr = rd32(m, m.pc);
        let m2 = if adv {
            pc_plus(m, 4)
        } else {
            m
        };
        Some((m2, rd32(m, adr)))
    } else if mode == 7 && reg == 4 {
        if adv {
            Some((pc_plus(m, 4), rd32(m, m.pc)))
        } else {
            None
        }
    } else {
        None
    }
}

/// Byte-sized destination write; a data register keeps its upper 24 bits.
pub open spec fn ea_write8(m: Machine, mode: u16, reg: u16, v: u8) -> Option<Machine> {
    let r = reg as int;
    if mode == 0 {
        Some(with_d(m, r, set_low8(m.d[r], v)))
    } else if mode == 2 {
        Some(wr8(m, m.a[r], v))
    } else if mode == 3 {
        Some(with_a(wr8(m, m.a[r], v), r, wadd32(m.a[r], 1)))
    } else if mode == 5 {
        let ofs = rd16(m, m.pc);
        Some(wr8(pc_plus(m, 2), wadd32(m.a[r], sext16to32(ofs)), v))
    } else if mode == 6 {
        let ext = rd16(m, m.pc);
        if (ext / 0x100) % 2 == 1 {
            None
        } else {
            Some(wr8(pc_plus(m, 2), brief_index_adr(m, reg, ext), v))
        }
    } else if mode == 7 && reg == 1 {
        let adr = rd32(m, m.pc);
        Some(wr8(pc_plus(m, 4), adr, v))
    } else {
        None
    }
}

/// Word-sized destination write. An address register replaces only its low
/// half; (7, 4) writes the status register.
pub open spec fn ea_write16(m: Machine, mode: u16, reg: u16, v: u16) -> Option<Machine> {
    let r = reg as int;
    if mode == 0 {
        Some(with_d(m, r, set_low16(m.d[r], v)))
    } else if mode == 1 {
        Some(with_a(m, r, set_low16(m.a[r], v)))
    } else if mode == 2 {
        Some(wr16(m, m.a[r], v))
    } else if mode == 3 {
        Some(with_a(wr16(m, m.a[r], v), r, wadd32(m.a[r], 2)))
    } else if mode == 4 {
        let adr = wsub32(m.a[r], 2);
        Some(wr16(with_a(m, r, adr), adr, v))
    } else if mode == 5 {
        let ofs = rd16(m, m.pc);
        Some(wr16(pc_plus(m, 2), wadd32(m.a[r], sext16to32(ofs)), v))
    } else if mode == 7 && reg == 1 {
        let adr = rd32(m, m.pc);
        Some(wr16(pc_plus(m, 4), adr, v))
    } else if mode == 7 && reg == 4 {
        Some(with_sr(m, v))
    } else {
        None
    }
}

/// Long-sized destination write.
pub open spec fn ea_write32(m: Machine, mode: u16, reg: u16, v: u32) -> Option<Machine> {
    let r = reg as int;
    if mode == 0 {
        Some(with_d(m, r, v))
    } else if mode == 1 {
        Some(with_a(m, r, v))
    } else if mode == 2 {
        Some(wr32(m, m.a[r], v))
    } else if mode == 3 {
        Some(with_a(wr32(m, m.a[r], v), r, wadd32(m.a[r], 4)))
    } else if mode == 4 {
        let adr = wsub32(m.a[r], 4);
        Some(wr32(with_a(m, r, adr), adr, v))
    } else if mode == 5 {
        let ofs = rd16(m, m.pc);
        Some(wr32(pc_plus(m, 2), wadd32(m.a[r], sext16to32(ofs)), v))
    } else if mode == 7 && reg == 1 {
        let adr = rd32(m, m.pc);
        Some(wr32(pc_plus(m, 4), adr, v))
    } else {
        None
    }
}


impl<B: BusTrait> Cpu<B> {
    // -----------------------------------------------------------------------
    // The effective-address unit. `None` marks an addressing form this core
    // rejects; the interpreter turns it into a fault.

    pub fn read_source8(&mut self, src: usize, m: usize) -> (r: Option<u8>)
        requires
            old(self).wf(),
            src < 8,
            m < 8,
        ensures
            final(self).wf(),
            match r {
                Some(v) => ea_read8(old(self).st(), src as u16, m as u16, true) == Some(
                    (final(self).st(), v),
                ),
                None => ea_read8(old(self).st(), src as u16, m as u16, true) is None && final(self).st() == old(self).st(),
            },
    {
        self.read_source8_incpc(src, m, true)
    }

    pub fn read_source8_incpc(&mut self, src: usize, m: usize, incpc: bool) -> (r: Option<u8>)
        requires
            old(self).wf(),
            src < 8,
            m < 8,
        ensures
            final(self).wf(),
            match r {
                Some(v) => ea_read8(old(self).st(), src as u16, m as u16, incpc) == Some(
                    (final(self).st(), v),
                ),
                None => ea_read8(old(self).st(), src as u16, m as u16, incpc) is None && final(self).st() == old(self).st(),
            },
    {
        if src == 0 {
            Some(take8(self.regs.d[m]))
        } else if src == 2 {
            let adr = self.regs.a[m];
            Some(self.read8(adr))
        } else if src == 3 {
            let adr = self.regs.a[m];
            let v = self.read8(adr);
            if incpc {
                self.regs.a.set(m, adr.wrapping_add(1));
            }
            Some(v)
        } else if src == 5 {
            let ofs = self.read16(self.regs.pc);
            if incpc {
                self.regs.pc = self.regs.pc.wrapping_add(2);
            }
            let adr = self.regs.a[m].wrapping_add(sign_extend16(ofs));
            Some(self.read8(adr))
        } else if src == 7 && m == 1 {
            let adr = self.read32(self.regs.pc);
            if incpc {
                self.regs.pc = self.regs.pc.wrapping_add(4);
            }
            Some(self.read8(adr))
        } else if src == 7 && m == 4 {
            if incpc {
                let value = self.read16(self.regs.pc);
                self.regs.pc = self.regs.pc.wrapping_add(2);
                Some(take8of16(value))
            } else {
                None
            }
        } else {
            None
        }
    }

    pub fn read_source16(&mut self, src: usize, m: usize) -> (r: Option<u16>)
        requires
            old(self).wf(),
            src < 8,
            m < 8,
        ensures
            final(self).wf(),
            match r {
                Some(v) => ea_read16(old(self).st(), src as u16, m as u16, true) == Some(
                    (final(self).st(), v),
                ),
                None => ea_read16(old(self).st(), src as u16, m as u16, true) is None && final(self).st() == old(self).st(),
            },
    {
        self.read_source16_incpc(src, m, true)
    }

    /// The address named by a brief extension word.
    fn brief_adr(&self, m: usize, ext: u16) -> (r: u32)
        requires
            self.wf(),
            m < 8,
        ensures
            r == brief_index_adr(self.st(), m as u16, ext),
    {
        let da = ext / 0x8000 == 1;
        let dr = ((ext / 0x1000) % 8) as usize;
        let dl = (ext / 0x800) % 2 == 1;
        let base = if da {
            self.regs.a[dr]
        } else {
            self.regs.d[dr]
        };
        let regofs = if dl {
            base
        } else {
            sign_extend16(take16(base))
        };
        self.regs.a[m].wrapping_add(regofs).wrapping_add(sign_extend8(take8of16(ext)))
    }

    pub fn read_source16_incpc(&mut self, src: usize, m: usize, incpc: bool) -> (r: Option<u16>)
        requires
            old(self).wf(),
            src < 8,
            m < 8,
        ensures
            final(self).wf(),
            match r {
                Some(v) => ea_read16(old(self).st(), src as u16, m as u16, incpc) == Some(
                    (final(self).st(), v),
                ),
                None => ea_read16(old(self).st(), src as u16, m as u16, incpc) is None && final(self).st() == old(self).st(),
            },
    {
        if src == 0 {
            Some(take16(self.regs.d[m]))
        } else if src == 2 {
            let adr = self.regs.a[m];
            Some(self.read16(adr))
        } else if src == 3 {
            let adr = self.regs.a[m];
            let v = self.read16(adr);
            if incpc {
                self.regs.a.set(m, adr.wrapping_add(2));
            }
            Some(v)
        } else if src == 5 {
            let ofs = self.read16(self.regs.pc);
            if incpc {
                self.regs.pc = self.regs.pc.wrapping_add(2);
            }
            let adr = self.regs.a[m].wrapping_add(sign_extend16(ofs));
            Some(self.read16(adr))
        } else if src == 6 {
            let ext = self.read16(self.regs.pc);
            if (ext / 0x100) % 2 == 1 {
                None
            } else {
                let adr = self.brief_adr(m, ext);
                if incpc {
                    self.regs.pc = self.regs.pc.wrapping_add(2);
                }
                Some(self.read16(adr))
            }
        } else if src == 7 && m == 1 {
            let adr = self.read32(self.regs.pc);
            if incpc {
                self.regs.pc = self.regs.pc.wrapping_add(4);
            }
            Some(self.read16(adr))
        } else if src == 7 && m == 4 {
            if incpc {
                let value = self.read16(self.regs.pc);
                self.regs.pc = self.regs.pc.wrapping_add(2);
                Some(value)
            } else {
                Some(self.regs.sr)
            }
        } else {
            None
        }
    }

    pub fn read_source32(&mut self, src: usize, m: usize) -> (r: Option<u32>)
        requires
            old(self).wf(),
            src < 8,
            m < 8,
        ensures
            final(self).wf(),
            match r {
                Some(v) => ea_read32(old(self).st(), src as u16, m as u16, true) == Some(
                    (final(self).st(), v),
                ),
                None => ea_read32(old(self).st(), src as u16, m as u16, true) is None && final(self).st() == old(self).st(),
            },
    {
        self.read_source32_incpc(src, m, true)
    }

    pub fn read_source32_incpc(&mut self, src: usize, m: usize, incpc: bool) -> (r: Option<u32>)
        requires
            old(self).wf(),
            src < 8,
            m < 8,
        ensures
            final(self).wf(),
            match r {
                Some(v) => ea_read32(old(self).st(), src as u16, m as u16, incpc) == Some(
                    (final(self).st(), v),
                ),
                None => ea_read32(old(self).st(), src as u16, m as u16, incpc) is None && final(self).st() == old(self).st(),
            },
    {
        if src == 0 {
            Some(self.regs.d[m])
        } else if src == 1 {
            Some(self.regs.a[m])
        } else if src == 2 {
            let adr = self.regs.a[m];
            Some(self.read32(adr))
        } else if src == 3 {
            let adr = self.regs.a[m];
            let v = self.read32(adr);
            if incpc {
                self.regs.a.set(m, adr.wrapping_add(4));
            }
            Some(v)
        } else if src == 5 {
            let ofs = self.read16(self.regs.pc);
            if incpc {
                self.regs.pc = self.regs.pc.wrapping_add(2);
            }
            let adr = self.regs.a[m].wrapping_add(sign_extend16(ofs));
            Some(self.read32(adr))
        } else if src == 6 {
            let ext = self.read16(self.regs.pc);
            if (ext / 0x100) % 2 == 1 {
                None
            } else {
                let adr = self.brief_adr(m, ext);
                if incpc {
                    self.regs.pc = self.regs.pc.wrapping_add(2);
                }
                Some(self.read32(adr))
            }
        } else if src == 7 && m == 1 {
            let adr = self.read32(self.regs.pc);
            if incpc {
                self.regs.pc = self.regs.pc.wrapping_add(4);
            }
            Some(self.read32(adr))
        } else if src == 7 && m == 4 {
            if incpc {
                let value = self.read32(self.regs.pc);
                self.regs.pc = self.regs.pc.wrapping_add(4);
                Some(value)
            } else {
                None
            }
        } else {
            None
        }
    }

    pub fn write_destination8(&mut self, dst: usize, n: usize, value: u8) -> (r: bool)
        requires
            old(self).wf(),
            dst < 8,
            n < 8,
        ensures
            final(self).wf(),
            if r {
                ea_write8(old(self).st(), dst as u16, n as u16, value) == Some(final(self).st())
            } else {
                ea_write8(old(self).st(), dst as u16, n as u16, value) is None && final(self).st()
                    == old(self).st()
            },
    {
        if dst == 0 {
            let v = replace_byte(self.regs.d[n], value);
            self.regs.d.set(n, v);
            true
        } else if dst == 2 {
            let adr = self.regs.a[n];
            self.write8(adr, value);
            true
        } else if dst == 3 {
            let adr = self.regs.a[n];
            self.write8(adr, value);
            self.regs.a.set(n, adr.wrapping_add(1));
            true
        } else if dst == 5 {
            let ofs = self.read16(self.regs.pc);
            self.regs.pc = self.regs.pc.wrapping_add(2);
            let adr = self.regs.a[n].wrapping_add(sign_extend16(ofs));
            self.write8(adr, value);
            true
        } else if dst == 6 {
            let ext = self.read16(self.regs.pc);
            if (ext / 0x100) % 2 == 1 {
                false
            } else {
                let adr = self.brief_adr(n, ext);
                self.regs.pc = self.regs.pc.wrapping_add(2);
                self.write8(adr, value);
                true
            }
        } else if dst == 7 && n == 1 {
            let adr = self.read32(self.regs.pc);
            self.regs.pc = self.regs.pc.wrapping_add(4);
            self.write8(adr, value);
            true
        } else {
            false
        }
    }

    pub fn write_destination16(&mut self, dst: usize, n: usize, value: u16) -> (r: bool)
        requires
            old(self).wf(),
            dst < 8,
            n < 8,
        ensures
            final(self).wf(),
            if r {
                ea_write16(old(self).st(), dst as u16, n as u16, value) == Some(final(self).st())
            } else {
                ea_write16(old(self).st(), dst as u16, n as u16, value) is None && final(self).st()
                    == old(self).st()
            },
    {
        if dst == 0 {
            let v = replace_word(self.regs.d[n], value);
            self.regs.d.set(n, v);
            true
        } else if dst == 1 {
            let v = replace_word(self.regs.a[n], value);
            self.regs.a.set(n, v);
            true
        } else if dst == 2 {
            let adr = self.regs.a[n];
            self.write16(adr, value);
            true
        } else if dst == 3 {
            let adr = self.regs.a[n];
            self.write16(adr, value);
            self.regs.a.set(n, adr.wrapping_add(2));
            true
        } else if dst == 4 {
            let adr = self.regs.a[n].wrapping_sub(2);
            self.regs.a.set(n, adr);
            self.write16(adr, value);
            true
        } else if dst == 5 {
            let ofs = self.read16(self.regs.pc);
            self.regs.pc = self.regs.pc.wrapping_add(2);
            let adr = self.regs.a[n].wrapping_add(sign_extend16(ofs));
            self.write16(adr, value);
            true
        } else if dst == 7 && n == 1 {
            let adr = self.read32(self.regs.pc);
            self.regs.pc = self.regs.pc.wrapping_add(4);
            self.write16(adr, value);
            true
        } else if dst == 7 && n == 4 {
            self.regs.sr = value;
            true
        } else {
            false
        }
    }

    pub fn write_destination32(&mut self, dst: usize, n: usize, value: u32) -> (r: bool)
        requires
            old(self).wf(),
            dst < 8,
            n < 8,
        ensures
            final(self).wf(),
            if r {
                ea_write32(old(self).st(), dst as u16, n as u16, value) == Some(final(self).st())
            } else {
                ea_write32(old(self).st(), dst as u16, n as u16, value) is None && final(self).st()
                    == old(self).st()
            },
    {
        if dst == 0 {
            self.regs.d.set(n, value);
            true
        } else if dst == 1 {
            self.regs.a.set(n, value);
            true
        } else if dst == 2 {
            let adr = self.regs.a[n];
            self.write32(adr, value);
            true
        } else if dst == 3 {
            let adr = self.regs.a[n];
            self.write32(adr, value);
            self.regs.a.set(n, adr.wrapping_add(4));
            true
        } else if dst == 4 {
            let adr = self.regs.a[n].wrapping_sub(4);
            self.regs.a.set(n, adr);
            self.write32(adr, value);
            true
        } else if dst == 5 {
            let ofs = self.read16(self.regs.pc);
            self.regs.pc = self.regs.pc.wrapping_add(2);
            let adr = self.regs.a[n].wrapping_add(sign_extend16(ofs));
            self.write32(adr, value);
            true
        } else if dst == 7 && n == 1 {
            let adr = self.read32(self.regs.pc);
            self.regs.pc = self.regs.pc.wrapping_add(4);
            self.write32(adr, value);
            true
        } else {
            false
        }
    }
}


// ---------------------------------------------------------------------------
// Per-operation semantics. Each function takes the machine with the first
// word already fetched (`PC` past it) and yields the state after the
// operation, or `None` where the operation reaches a form this core rejects.

pub open spec fn sem_move8(m: Machine, op: u16) -> Option<Machine> {
    match ea_read8(m, fld3(op), fld0(op), true) {
        None => None,
        Some((m1, src)) => match ea_write8(m1, fld6(op), fld9(op), src) {
            None => None,
            Some(m2) => Some(with_sr(m2, sr_logical8(m2.sr, src))),
        },
    }
}

pub open spec fn sem_move16(m: Machine, op: u16) -> Option<Machine> {
    match ea_read16(m, fld3(op), fld0(op), true) {
        None => None,
        Some((m1, src)) => match ea_write16(m1, fld6(op), fld9(op), src) {
            None => None,
            Some(m2) => Some(with_sr(m2, sr_logical16(m2.sr, src))),
        },
    }
}

pub open spec fn sem_move32(m: Machine, op: u16) -> Option<Machine> {
    match ea_read32(m, fld3(op), fld0(op), true) {
        None => None,
        Some((m1, src)) => match ea_write32(m1, fld6(op), fld9(op), src) {
            None => None,
            Some(m2) => Some(with_sr(m2, sr_logical32(m2.sr, src))),
        },
    }
}

/// MOVEQ: the low opcode byte, sign-extended to 32 bits, lands in `Dn`.
pub open spec fn sem_moveq(m: Machine, op: u16) -> Option<Machine> {
    let v = low8_of16(op);
    let m1 = with_d(m, fld9(op) as int, sext8to32(v));
    Some(with_sr(m1, sr_logical8(m1.sr, v)))
}

pub open spec fn sem_move_to_sr(m: Machine, op: u16) -> Option<Machine> {
    match ea_read16(m, fld3(op), fld0(op), true) {
        None => None,
        Some((m1, src)) => Some(with_sr(m1, src)),
    }
}

pub open spec fn sem_move_from_sr(m: Machine, op: u16) -> Option<Machine> {
    ea_write16(m, fld3(op), fld0(op), m.sr)
}

pub open spec fn sem_lea_direct(m: Machine, op: u16) -> Option<Machine> {
    let value = rd32(m, m.pc);
    Some(with_a(pc_plus(m, 4), fld9(op) as int, value))
}

pub open spec fn sem_lea_offset(m: Machine, op: u16) -> Option<Machine> {
    let ofs = rd16(m, m.pc);
    Some(with_a(pc_plus(m, 2), fld9(op) as int, wadd32(m.a[fld0(op) as int], sext16to32(ofs))))
}

/// LEA with brief index extension; only the word-sized data-register index
/// form without further displacement flags is implemented.
pub open spec fn sem_lea_offset_d(m: Machine, op: u16) -> Option<Machine> {
    let next = rd16(m, m.pc);
    if next < 0x8000 && (next / 0x100) % 0x10 == 0 {
        let ii = ((next / 0x1000) % 8) as int;
        let adr = wadd32(
            wadd32(m.a[fld0(op) as int], sext16to32(low16(m.d[ii]))),
            sext8to32(low8_of16(next)),
        );
        Some(with_a(pc_plus(m, 2), fld9(op) as int, adr))
    } else {
        None
    }
}

pub open spec fn sem_lea_offset_pc(m: Machine, op: u16) -> Option<Machine> {
    let ofs = rd16(m, m.pc);
    let m1 = pc_plus(m, 2);
    Some(with_a(m1, fld9(op) as int, wadd32(m1.pc, sext16to32(ofs))))
}

pub open spec fn sem_clr8(m: Machine, op: u16) -> Option<Machine> {
    ea_write8(m, fld3(op), fld0(op), 0)
}

pub open spec fn sem_clr16(m: Machine, op: u16) -> Option<Machine> {
    ea_write16(m, fld3(op), fld0(op), 0)
}

pub open spec fn sem_clr32(m: Machine, op: u16) -> Option<Machine> {
    ea_write32(m, fld3(op), fld0(op), 0)
}

/// SWAP exchanges the halves of a data register.
pub open spec fn swap32(v: u32) -> u32 {
    (v / 0x10000 + (v % 0x10000) * 0x10000) as u32
}

pub open spec fn sem_swap(m: Machine, op: u16) -> Option<Machine> {
    let r = fld0(op) as int;
    Some(with_d(m, r, swap32(m.d[r])))
}

/// EXT.W sign-extends the low byte into the low word, upper word untouched.
pub open spec fn sem_ext16(m: Machine, op: u16) -> Option<Machine> {
    let r = fld0(op) as int;
    Some(with_d(m, r, set_low16(m.d[r], sext8to16(low8(m.d[r])))))
}

// ---------------------------------------------------------------------------
// Control flow.

/// A conditional branch: jump by the decoded offset when taken, else step
/// over the extension words.
pub open spec fn sem_bcond(m: Machine, op: u16, taken: bool) -> Option<Machine> {
    let (ofs, sz) = branch_offset(m.mem, op, m.pc);
    Some(
        with_pc(
            m,
            if taken {
                wadd32(m.pc, ofs)
            } else {
                wadd32(m.pc, sz)
            },
        ),
    )
}

/// DBRA: decrement the low word of `Dn`; loop unless it ran past zero.
pub open spec fn sem_dbra(m: Machine, op: u16) -> Option<Machine> {
    let r = fld0(op) as int;
    let ofs = rd16(m, m.pc);
    let w = wsub16(low16(m.d[r]), 1);
    let m1 = with_d(m, r, set_low16(m.d[r], w));
    Some(
        with_pc(
            m1,
            if w != 0xffff {
                wadd32(m1.pc, sext16to32(ofs))
            } else {
                wadd32(m1.pc, 2)
            },
        ),
    )
}

/// BSR: push the address after the displacement words, then branch.
pub open spec fn sem_bsr(m: Machine, op: u16) -> Option<Machine> {
    let (ofs, sz) = branch_offset(m.mem, op, m.pc);
    let m1 = push32s(pc_plus(m, sz), wadd32(m.pc, sz));
    Some(with_pc(m1, wadd32(m.pc, ofs)))
}

/// JSR: only the plain `(An)` form is implemented.
pub open spec fn sem_jsr(m: Machine, op: u16) -> Option<Machine> {
    if op % 16 < 8 {
        let adr = m.a[fld0(op) as int];
        Some(with_pc(push32s(m, m.pc), adr))
    } else {
        None
    }
}

pub open spec fn sem_rts(m: Machine) -> Option<Machine> {
    let (m1, v) = pop32s(m);
    Some(with_pc(m1, v))
}

/// TRAP #n: push the return address and jump through the vector at
/// `0x0080 + 4*n`.
pub open spec fn sem_trap(m: Machine, op: u16) -> Option<Machine> {
    let adr = rd32(m, (0x80 + (op % 16) * 4) as u32);
    Some(with_pc(push32s(m, m.pc), adr))
}

impl<B: BusTrait> Cpu<B> {
    // -----------------------------------------------------------------------
    // Operation handlers. Each runs with `PC` already past the first word and
    // meets the matching `sem_` function; `false` reports an unimplemented
    // form.

    fn op_move8(&mut self, op: u16) -> (r: bool)
        requires
            old(self).wf(),
        ensures
            final(self).wf(),
            if r {
                sem_move8(old(self).st(), op) == Some(final(self).st())
            } else {
                sem_move8(old(self).st(), op) is None
            },
    {
        let si = (op % 8) as usize;
        let st = ((op / 8) % 8) as usize;
        let dt = ((op / 0x40) % 8) as usize;
        let di = ((op / 0x200) % 8) as usize;
        let src = match self.read_source8(st, si) {
            Some(v) => v,
            None => {
                return false;
            },
        };
        if !self.write_destination8(dt, di, src) {
            return false;
        }
        self.set_and_sr(src == 0, src >= 0x80);
        true
    }

    fn op_move16(&mut self, op: u16) -> (r: bool)
        requires
            old(self).wf(),
        ensures
            final(self).wf(),
            if r {
                sem_move16(old(self).st(), op) == Some(final(self).st())
            } else {
                sem_move16(old(self).st(), op) is None
            },
    {
        let si = (op % 8) as usize;
        let st = ((op / 8) % 8) as usize;
        let dt = ((op / 0x40) % 8) as usize;
        let di = ((op / 0x200) % 8) as usize;
        let src = match self.read_source16(st, si) {
            Some(v) => v,
            None => {
                return false;
            },
        };
        if !self.write_destination16(dt, di, src) {
            return false;
        }
        self.set_and_sr(src == 0, src >= 0x8000);
        true
    }

    fn op_move32(&mut self, op: u16) -> (r: bool)
        requires
            old(self).wf(),
        ensures
            final(self).wf(),
            if r {
                sem_move32(old(self).st(), op) == Some(final(self).st())
            } else {
                sem_move32(old(self).st(), op) is None
            },
    {
        let si = (op % 8) as usize;
        let st = ((op / 8) % 8) as usize;
        let dt = ((op / 0x40) % 8) as usize;
        let di = ((op / 0x200) % 8) as usize;
        let src = match self.read_source32(st, si) {
            Some(v) => v,
            None => {
                return false;
            },
        };
        if !self.write_destination32(dt, di, src) {
            return false;
        }
        self.set_and_sr(src == 0, src >= 0x80000000);
        true
    }

    fn op_moveq(&mut self, op: u16)
        requires
            old(self).wf(),
        ensures
            final(self).wf(),
            sem_moveq(old(self).st(), op) == Some(final(self).st()),
    {
        let v = take8of16(op);
        let di = ((op / 0x200) % 8) as usize;
        self.regs.d.set(di, sign_extend8(v));
        self.set_and_sr(v == 0, v >= 0x80);
    }

    fn op_move_to_sr(&mut self, op: u16) -> (r: bool)
        requires
            old(self).wf(),
        ensures
            final(self).wf(),
            if r {
                sem_move_to_sr(old(self).st(), op) == Some(final(self).st())
            } else {
                sem_move_to_sr(old(self).st(), op) is None
            },
    {
        let si = (op % 8) as usize;
        let st = ((op / 8) % 8) as usize;
        match self.read_source16(st, si) {
            Some(v) => {
                self.regs.sr = v;
                true
            },
            None => false,
        }
    }

    fn op_move_from_sr(&mut self, op: u16) -> (r: bool)
        requires
            old(self).wf(),
        ensures
            final(self).wf(),
            if r {
                sem_move_from_sr(old(self).st(), op) == Some(final(self).st())
            } else {
                sem_move_from_sr(old(self).st(), op) is None
            },
    {
        let di = (op % 8) as usize;
        let dt = ((op / 8) % 8) as usize;
        let sr = self.regs.sr;
        self.write_destination16(dt, di, sr)
    }

    fn op_lea_direct(&mut self, op: u16)
        requires
            old(self).wf(),
        ensures
            final(self).wf(),
            sem_lea_direct(old(self).st(), op) == Some(final(self).st()),
    {
        let di = ((op / 0x200) % 8) as usize;
        let value = self.read32(self.regs.pc);
        self.regs.pc = self.regs.pc.wrapping_add(4);
        self.regs.a.set(di, value);
    }

    fn op_lea_offset(&mut self, op: u16)
        requires
            old(self).wf(),
        ensures
            final(self).wf(),
            sem_lea_offset(old(self).st(), op) == Some(final(self).st()),
    {
        let si = (op % 8) as usize;
        let di = ((op / 0x200) % 8) as usize;
        let ofs = self.read16(self.regs.pc);
        self.regs.pc = self.regs.pc.wrapping_add(2);
        let adr = self.regs.a[si].wrapping_add(sign_extend16(ofs));
        self.regs.a.set(di, adr);
    }

    fn op_lea_offset_d(&mut self, op: u16) -> (r: bool)
        requires
            old(self).wf(),
        ensures
            final(self).wf(),
            if r {
                sem_lea_offset_d(old(self).st(), op) == Some(final(self).st())
            } else {
                sem_lea_offset_d(old(self).st(), op) is None
            },
    {
        let si = (op % 8) as usize;
        let di = ((op / 0x200) % 8) as usize;
        let next = self.read16(self.regs.pc);
        if next < 0x8000 && (next / 0x100) % 0x10 == 0 {
            self.regs.pc = self.regs.pc.wrapping_add(2);
            let ii = ((next / 0x1000) % 8) as usize;
            let adr = self.regs.a[si].wrapping_add(sign_extend16(take16(self.regs.d[ii])))
                .wrapping_add(sign_extend8(take8of16(next)));
            self.regs.a.set(di, adr);
            true
        } else {
            false
        }
    }

    fn op_lea_offset_pc(&mut self, op: u16)
        requires
            old(self).wf(),
        ensures
            final(self).wf(),
            sem_lea_offset_pc(old(self).st(), op) == Some(final(self).st()),
    {
        let di = ((op / 0x200) % 8) as usize;
        let ofs = self.read16(self.regs.pc);
        self.regs.pc = self.regs.pc.wrapping_add(2);
        let adr = self.regs.pc.wrapping_add(sign_extend16(ofs));
        self.regs.a.set(di, adr);
    }

    fn op_clr8(&mut self, op: u16) -> (r: bool)
        requires
            old(self).wf(),
        ensures
            final(self).wf(),
            if r {
                sem_clr8(old(self).st(), op) == Some(final(self).st())
            } else {
                sem_clr8(old(self).st(), op) is None
            },
    {
        let di = (op % 8) as usize;
        let dt = ((op / 8) % 8) as usize;
        self.write_destination8(dt, di, 0)
    }

    fn op_clr16(&mut self, op: u16) -> (r: bool)
        requires
            old(self).wf(),
        ensures
            final(self).wf(),
            if r {
                sem_clr16(old(self).st(), op) == Some(final(self).st())
            } else {
                sem_clr16(old(self).st(), op) is None
            },
    {
        let di = (op % 8) as usize;
        let dt = ((op / 8) % 8) as usize;
        self.write_destination16(dt, di, 0)
    }

    fn op_clr32(&mut self, op: u16) -> (r: bool)
        requires
            old(self).wf(),
        ensures
            final(self).wf(),
            if r {
                sem_clr32(old(self).st(), op) == Some(final(self).st())
            } else {
                sem_clr32(old(self).st(), op) is None
            },
    {
        let di = (op % 8) as usize;
        let dt = ((op / 8) % 8) as usize;
        self.write_destination32(dt, di, 0)
    }

    fn op_swap(&mut self, op: u16)
        requires
            old(self).wf(),
        ensures
            final(self).wf(),
            sem_swap(old(self).st(), op) == Some(final(self).st()),
    {
        let di = (op % 8) as usize;
        let v = self.regs.d[di];
        self.regs.d.set(di, v / 0x10000 + (v % 0x10000) * 0x10000);
    }

    fn op_ext16(&mut self, op: u16)
        requires
            old(self).wf(),
        ensures
            final(self).wf(),
            sem_ext16(old(self).st(), op) == Some(final(self).st()),
    {
        let di = (op % 8) as usize;
        let src = self.regs.d[di];
        self.regs.d.set(di, replace_word(src, sign_extend8to16(take8(src))));
    }

    // -----------------------------------------------------------------------
    // Control flow.

    fn bcond(&mut self, op: u16, cond: bool)
        requires
            old(self).wf(),
        ensures
            final(self).wf(),
            sem_bcond(old(self).st(), op, cond) == Some(final(self).st()),
    {
        let (ofs, sz) = get_branch_offset(op, &self.bus, self.regs.pc);
        self.regs.pc = if cond {
            self.regs.pc.wrapping_add(ofs)
        } else {
            self.regs.pc.wrapping_add(sz)
        };
    }

    fn op_dbra(&mut self, op: u16)
        requires
            old(self).wf(),
        ensures
            final(self).wf(),
            sem_dbra(old(self).st(), op) == Some(final(self).st()),
    {
        let si = (op % 8) as usize;
        let ofs = self.read16(self.regs.pc);
        let l = self.regs.d[si];
        let w = take16(l).wrapping_sub(1);
        self.regs.d.set(si, replace_word(l, w));
        self.regs.pc = if w != 0xffff {
            self.regs.pc.wrapping_add(sign_extend16(ofs))
        } else {
            self.regs.pc.wrapping_add(2)
        };
    }

    fn op_bsr(&mut self, op: u16)
        requires
            old(self).wf(),
        ensures
            final(self).wf(),
            sem_bsr(old(self).st(), op) == Some(final(self).st()),
    {
        let base = self.regs.pc;
        let (ofs, sz) = get_branch_offset(op, &self.bus, base);
        self.regs.pc = base.wrapping_add(sz);
        let ret = self.regs.pc;
        self.push32(ret);
        self.regs.pc = base.wrapping_add(ofs);
    }

    fn op_jsr(&mut self, op: u16) -> (r: bool)
        requires
            old(self).wf(),
        ensures
            final(self).wf(),
            if r {
                sem_jsr(old(self).st(), op) == Some(final(self).st())
            } else {
                sem_jsr(old(self).st(), op) is None
            },
    {
        let si = (op % 8) as usize;
        if op % 16 < 8 {
            let adr = self.regs.a[si];
            let ret = self.regs.pc;
            self.push32(ret);
            self.regs.pc = adr;
            true
        } else {
            false
        }
    }

    fn op_rts(&mut self)
        requires
            old(self).wf(),
        ensures
            final(self).wf(),
            sem_rts(old(self).st()) == Some(final(self).st()),
    {
        let adr = self.pop32();
        self.regs.pc = adr;
    }

    fn op_trap(&mut self, op: u16)
        requires
            old(self).wf(),
        ensures
            final(self).wf(),
            sem_trap(old(self).st(), op) == Some(final(self).st()),
    {
        let no = op % 16;
        let adr = self.read32(0x80 + (no as u32) * 4);
        let ret = self.regs.pc;
        self.push32(ret);
        self.regs.pc = adr;
    }
}


// ---------------------------------------------------------------------------
// Compares, tests and bit operations.

pub open spec fn sem_cmp8(m: Machine, op: u16) -> Option<Machine> {
    match ea_read8(m, fld3(op), fld0(op), true) {
        None => None,
        Some((m1, src)) => match ea_read8(m1, 0, fld9(op), true) {
            None => None,
            Some((m2, dst)) => Some(with_sr(m2, sr_cmp8(m2.sr, src, dst))),
        },
    }
}

pub open spec fn sem_cmp16(m: Machine, op: u16) -> Option<Machine> {
    match ea_read16(m, fld3(op), fld0(op), true) {
        None => None,
        Some((m1, src)) => match ea_read16(m1, 0, fld9(op), true) {
            None => None,
            Some((m2, dst)) => Some(with_sr(m2, sr_cmp16(m2.sr, src, dst))),
        },
    }
}

pub open spec fn sem_cmp32(m: Machine, op: u16) -> Option<Machine> {
    match ea_read32(m, fld3(op), fld0(op), true) {
        None => None,
        Some((m1, src)) => match ea_read32(m1, 0, fld9(op), true) {
            None => None,
            Some((m2, dst)) => Some(with_sr(m2, sr_cmp32(m2.sr, src, dst))),
        },
    }
}

pub open spec fn sem_cmpi8(m: Machine, op: u16) -> Option<Machine> {
    let src = low8_of16(rd16(m, m.pc));
    let m1 = pc_plus(m, 2);
    match ea_read8(m1, fld3(op), fld0(op), true) {
        None => None,
        Some((m2, dst)) => Some(with_sr(m2, sr_cmp8(m2.sr, src, dst))),
    }
}

pub open spec fn sem_cmpi16(m: Machine, op: u16) -> Option<Machine> {
    let src = rd16(m, m.pc);
    let m1 = pc_plus(m, 2);
    match ea_read16(m1, fld3(op), fld0(op), true) {
        None => None,
        Some((m2, dst)) => Some(with_sr(m2, sr_cmp16(m2.sr, src, dst))),
    }
}

pub open spec fn sem_cmpa(m: Machine, op: u16) -> Option<Machine> {
    match ea_read32(m, fld3(op), fld0(op), true) {
        None => None,
        Some((m1, src)) => match ea_read32(m1, 1, fld9(op), true) {
            None => None,
            Some((m2, dst)) => Some(with_sr(m2, sr_cmp32(m2.sr, src, dst))),
        },
    }
}

/// CMPM.B compares through both postincremented address registers.
pub open spec fn sem_cmpm8(m: Machine, op: u16) -> Option<Machine> {
    let si = fld0(op) as int;
    let di = fld9(op) as int;
    let dst = rd8(m, m.a[di]);
    let src = rd8(m, m.a[si]);
    let m1 = with_a(m, si, wadd32(m.a[si], 1));
    let m2 = with_a(m1, di, wadd32(m1.a[di], 1));
    Some(with_sr(m2, sr_cmp8(m2.sr, src, dst)))
}

pub open spec fn sem_tst8(m: Machine, op: u16) -> Option<Machine> {
    match ea_read8(m, fld3(op), fld0(op), true) {
        None => None,
        Some((m1, v)) => Some(with_sr(m1, sr_logical8(m1.sr, v))),
    }
}

pub open spec fn sem_tst16(m: Machine, op: u16) -> Option<Machine> {
    match ea_read16(m, fld3(op), fld0(op), true) {
        None => None,
        Some((m1, v)) => Some(with_sr(m1, sr_logical16(m1.sr, v))),
    }
}

pub open spec fn sem_tst32(m: Machine, op: u16) -> Option<Machine> {
    match ea_read32(m, fld3(op), fld0(op), true) {
        None => None,
        Some((m1, v)) => Some(with_sr(m1, sr_logical32(m1.sr, v))),
    }
}

/// BTST #imm: a register operand is tested as 32 bits, memory as 8; Z is the
/// inverse of the tested bit.
pub open spec fn sem_btst_im(m: Machine, op: u16) -> Option<Machine> {
    let bit = rd16(m, m.pc);
    let m1 = pc_plus(m, 2);
    let st = fld3(op);
    let si = fld0(op);
    if st < 2 {
        match ea_read32(m1, st, si, true) {
            None => None,
            Some((m2, val)) => Some(
                with_sr(m2, sr_set_z(m2.sr, val & (1u32 << ((bit % 32) as u32)) == 0)),
            ),
        }
    } else {
        match ea_read8(m1, st, si, true) {
            None => None,
            Some((m2, val)) => Some(
                with_sr(m2, sr_set_z(m2.sr, val & (1u8 << ((bit % 8) as u32)) == 0)),
            ),
        }
    }
}

pub open spec fn sem_bclr_im(m: Machine, op: u16) -> Option<Machine> {
    let bit = rd16(m, m.pc);
    let m1 = pc_plus(m, 2);
    let dt = fld3(op);
    let di = fld0(op);
    if dt < 2 {
        match ea_read32(m1, dt, di, false) {
            None => None,
            Some((m2, dst)) => ea_write32(m2, dt, di, dst & !(1u32 << ((bit % 32) as u32))),
        }
    } else {
        match ea_read8(m1, dt, di, false) {
            None => None,
            Some((m2, dst)) => ea_write8(m2, dt, di, dst & !(1u8 << ((bit % 8) as u32))),
        }
    }
}

pub open spec fn sem_bset_im(m: Machine, op: u16) -> Option<Machine> {
    let bit = rd16(m, m.pc);
    let m1 = pc_plus(m, 2);
    let dt = fld3(op);
    let di = fld0(op);
    if dt < 2 {
        match ea_read32(m1, dt, di, false) {
            None => None,
            Some((m2, dst)) => ea_write32(m2, dt, di, dst | (1u32 << ((bit % 32) as u32))),
        }
    } else {
        match ea_read8(m1, dt, di, false) {
            None => None,
            Some((m2, dst)) => ea_write8(m2, dt, di, dst | (1u8 << ((bit % 8) as u32))),
        }
    }
}

/// BSET with the bit number taken from a data register.
pub open spec fn sem_bset_reg(m: Machine, op: u16) -> Option<Machine> {
    let dt = fld3(op);
    let di = fld0(op);
    let si = fld9(op) as int;
    if dt < 2 {
        match ea_read32(m, dt, di, false) {
            None => None,
            Some((m2, dst)) => ea_write32(m2, dt, di, dst | (1u32 << ((m2.d[si] % 32) as u32))),
        }
    } else {
        match ea_read8(m, dt, di, false) {
            None => None,
            Some((m2, dst)) => ea_write8(m2, dt, di, dst | (1u8 << ((m2.d[si] % 8) as u32))),
        }
    }
}

// ---------------------------------------------------------------------------
// Arithmetic. The upper bytes of a data register survive a narrower
// operation. Flag updates are partial in this core: the compare and logical
// families and the quick subtractions write the codes they document, the
// rest leave the status register alone.

pub open spec fn sem_add8(m: Machine, op: u16) -> Option<Machine> {
    match ea_read8(m, fld3(op), fld0(op), true) {
        None => None,
        Some((m1, src)) => {
            let di = fld9(op) as int;
            Some(with_d(m1, di, set_low8(m1.d[di], wadd8(low8(m1.d[di]), src))))
        },
    }
}

pub open spec fn sem_add16(m: Machine, op: u16) -> Option<Machine> {
    match ea_read16(m, fld3(op), fld0(op), true) {
        None => None,
        Some((m1, src)) => {
            let di = fld9(op) as int;
            Some(with_d(m1, di, set_low16(m1.d[di], wadd16(low16(m1.d[di]), src))))
        },
    }
}

pub open spec fn sem_add32(m: Machine, op: u16) -> Option<Machine> {
    match ea_read32(m, fld3(op), fld0(op), true) {
        None => None,
        Some((m1, src)) => {
            let di = fld9(op) as int;
            Some(with_d(m1, di, wadd32(m1.d[di], src)))
        },
    }
}

pub open spec fn sem_addi8(m: Machine, op: u16) -> Option<Machine> {
    let v = low8_of16(rd16(m, m.pc));
    let m1 = pc_plus(m, 2);
    match ea_read8(m1, fld3(op), fld0(op), false) {
        None => None,
        Some((m2, src)) => ea_write8(m2, fld3(op), fld0(op), wadd8(src, v)),
    }
}

pub open spec fn sem_addi16(m: Machine, op: u16) -> Option<Machine> {
    let v = rd16(m, m.pc);
    let m1 = pc_plus(m, 2);
    match ea_read16(m1, fld3(op), fld0(op), false) {
        None => None,
        Some((m2, src)) => ea_write16(m2, fld3(op), fld0(op), wadd16(src, v)),
    }
}

pub open spec fn sem_adda(m: Machine, op: u16) -> Option<Machine> {
    match ea_read32(m, fld3(op), fld0(op), true) {
        None => None,
        Some((m1, src)) => {
            let di = fld9(op) as int;
            Some(with_a(m1, di, wadd32(m1.a[di], src)))
        },
    }
}

pub open spec fn sem_addq8(m: Machine, op: u16) -> Option<Machine> {
    let v = quick_value(op / 0x200);
    match ea_read8(m, fld3(op), fld0(op), false) {
        None => None,
        Some((m1, src)) => ea_write8(m1, fld3(op), fld0(op), wadd8(v as u8, src)),
    }
}

pub open spec fn sem_addq16(m: Machine, op: u16) -> Option<Machine> {
    let v = quick_value(op / 0x200);
    match ea_read16(m, fld3(op), fld0(op), false) {
        None => None,
        Some((m1, src)) => ea_write16(m1, fld3(op), fld0(op), wadd16(v, src)),
    }
}

pub open spec fn sem_addq32(m: Machine, op: u16) -> Option<Machine> {
    let v = quick_value(op / 0x200);
    match ea_read32(m, fld3(op), fld0(op), false) {
        None => None,
        Some((m1, src)) => ea_write32(m1, fld3(op), fld0(op), wadd32(v as u32, src)),
    }
}

pub open spec fn sem_sub8(m: Machine, op: u16) -> Option<Machine> {
    match ea_read8(m, fld3(op), fld0(op), true) {
        None => None,
        Some((m1, src)) => {
            let di = fld9(op) as int;
            Some(with_d(m1, di, set_low8(m1.d[di], wsub8(low8(m1.d[di]), src))))
        },
    }
}

pub open spec fn sem_sub16(m: Machine, op: u16) -> Option<Machine> {
    match ea_read16(m, fld3(op), fld0(op), true) {
        None => None,
        Some((m1, src)) => {
            let di = fld9(op) as int;
            Some(with_d(m1, di, set_low16(m1.d[di], wsub16(low16(m1.d[di]), src))))
        },
    }
}

pub open spec fn sem_subi8(m: Machine, op: u16) -> Option<Machine> {
    let v = low8_of16(rd16(m, m.pc));
    let m1 = pc_plus(m, 2);
    match ea_read8(m1, fld3(op), fld0(op), false) {
        None => None,
        Some((m2, src)) => ea_write8(m2, fld3(op), fld0(op), wsub8(src, v)),
    }
}

pub open spec fn sem_suba(m: Machine, op: u16) -> Option<Machine> {
    match ea_read32(m, fld3(op), fld0(op), true) {
        None => None,
        Some((m1, src)) => {
            let di = fld9(op) as int;
            Some(with_a(m1, di, wsub32(m1.a[di], src)))
        },
    }
}

/// SUBQ updates Z from the result; the other flags keep their values.
pub open spec fn sem_subq16(m: Machine, op: u16) -> Option<Machine> {
    let v = quick_value(op / 0x200);
    match ea_read16(m, fld3(op), fld0(op), false) {
        None => None,
        Some((m1, src)) => {
            let val = wsub16(src, v);
            match ea_write16(m1, fld3(op), fld0(op), val) {
                None => None,
                Some(m2) => Some(with_sr(m2, sr_set_z(m2.sr, val == 0))),
            }
        },
    }
}

pub open spec fn sem_subq32(m: Machine, op: u16) -> Option<Machine> {
    let v = quick_value(op / 0x200);
    match ea_read32(m, fld3(op), fld0(op), false) {
        None => None,
        Some((m1, src)) => {
            let val = wsub32(src, v as u32);
            match ea_write32(m1, fld3(op), fld0(op), val) {
                None => None,
                Some(m2) => Some(with_sr(m2, sr_set_z(m2.sr, val == 0))),
            }
        },
    }
}

/// MULU.W: unsigned 16 by 16 into the full 32 bits of `Dn`.
pub open spec fn mulu_val(x: u16, y: u16) -> u32 {
    (x * y) as u32
}

pub open spec fn sem_mulu(m: Machine, op: u16) -> Option<Machine> {
    match ea_read16(m, fld3(op), fld0(op), true) {
        None => None,
        Some((m1, src)) => {
            let di = fld9(op) as int;
            Some(with_d(m1, di, mulu_val(low16(m1.d[di]), src)))
        },
    }
}

// ---------------------------------------------------------------------------
// Logical operations.

pub open spec fn sem_and8(m: Machine, op: u16) -> Option<Machine> {
    match ea_read8(m, fld3(op), fld0(op), true) {
        None => None,
        Some((m1, src)) => {
            let di = fld9(op) as int;
            let res = low8(m1.d[di]) & src;
            let m2 = with_d(m1, di, set_low8(m1.d[di], res));
            Some(with_sr(m2, sr_logical8(m2.sr, res)))
        },
    }
}

pub open spec fn sem_and16(m: Machine, op: u16) -> Option<Machine> {
    match ea_read16(m, fld3(op), fld0(op), true) {
        None => None,
        Some((m1, src)) => {
            let di = fld9(op) as int;
            let res = low16(m1.d[di]) & src;
            let m2 = with_d(m1, di, set_low16(m1.d[di], res));
            Some(with_sr(m2, sr_logical16(m2.sr, res)))
        },
    }
}

pub open spec fn sem_and32(m: Machine, op: u16) -> Option<Machine> {
    match ea_read32(m, fld3(op), fld0(op), true) {
        None => None,
        Some((m1, src)) => {
            let di = fld9(op) as int;
            let res = m1.d[di] & src;
            let m2 = with_d(m1, di, res);
            Some(with_sr(m2, sr_logical32(m2.sr, res)))
        },
    }
}

pub open spec fn sem_andi16(m: Machine, op: u16) -> Option<Machine> {
    let v = rd16(m, m.pc);
    let m1 = pc_plus(m, 2);
    match ea_read16(m1, fld3(op), fld0(op), false) {
        None => None,
        Some((m2, src)) => {
            let res = src & v;
            match ea_write16(m2, fld3(op), fld0(op), res) {
                None => None,
                Some(m3) => Some(with_sr(m3, sr_logical16(m3.sr, res))),
            }
        },
    }
}

pub open spec fn sem_or8(m: Machine, op: u16) -> Option<Machine> {
    match ea_read8(m, fld3(op), fld0(op), true) {
        None => None,
        Some((m1, src)) => {
            let di = fld9(op) as int;
            Some(with_d(m1, di, set_low8(m1.d[di], low8(m1.d[di]) | src)))
        },
    }
}

pub open spec fn sem_or16(m: Machine, op: u16) -> Option<Machine> {
    match ea_read16(m, fld3(op), fld0(op), true) {
        None => None,
        Some((m1, src)) => {
            let di = fld9(op) as int;
            Some(with_d(m1, di, set_low16(m1.d[di], low16(m1.d[di]) | src)))
        },
    }
}

pub open spec fn sem_ori8(m: Machine, op: u16) -> Option<Machine> {
    let v = low8_of16(rd16(m, m.pc));
    let m1 = pc_plus(m, 2);
    match ea_read8(m1, fld3(op), fld0(op), false) {
        None => None,
        Some((m2, src)) => ea_write8(m2, fld3(op), fld0(op), src | v),
    }
}

pub open spec fn sem_ori16(m: Machine, op: u16) -> Option<Machine> {
    let v = rd16(m, m.pc);
    let m1 = pc_plus(m, 2);
    match ea_read16(m1, fld3(op), fld0(op), false) {
        None => None,
        Some((m2, src)) => ea_write16(m2, fld3(op), fld0(op), src | v),
    }
}

/// EOR.B: a data register exclusive-ored into the destination.
pub open spec fn sem_eor8(m: Machine, op: u16) -> Option<Machine> {
    let si = fld9(op) as int;
    match ea_read8(m, fld3(op), fld0(op), false) {
        None => None,
        Some((m1, dst)) => ea_write8(m1, fld3(op), fld0(op), low8(m1.d[si]) ^ dst),
    }
}

pub open spec fn sem_eori8(m: Machine, op: u16) -> Option<Machine> {
    let v = low8_of16(rd16(m, m.pc));
    let m1 = pc_plus(m, 2);
    match ea_read8(m1, fld3(op), fld0(op), false) {
        None => None,
        Some((m2, src)) => ea_write8(m2, fld3(op), fld0(op), src ^ v),
    }
}

pub open spec fn sem_eori16(m: Machine, op: u16) -> Option<Machine> {
    let v = rd16(m, m.pc);
    let m1 = pc_plus(m, 2);
    match ea_read16(m1, fld3(op), fld0(op), false) {
        None => None,
        Some((m2, src)) => ea_write16(m2, fld3(op), fld0(op), src ^ v),
    }
}

// ---------------------------------------------------------------------------
// Shifts and rotates, immediate counts 1..8 on data registers.

pub open spec fn sem_asl8(m: Machine, op: u16) -> Option<Machine> {
    let di = fld0(op) as int;
    let s = quick_value(op / 0x200);
    let v = low8(m.d[di]);
    let nv = if s >= 8 {
        0u8
    } else {
        v << (s as u32)
    };
    Some(with_d(m, di, set_low8(m.d[di], nv)))
}

pub open spec fn sem_asl16(m: Machine, op: u16) -> Option<Machine> {
    let di = fld0(op) as int;
    let s = quick_value(op / 0x200);
    Some(with_d(m, di, set_low16(m.d[di], low16(m.d[di]) << (s as u32))))
}

pub open spec fn sem_asl32(m: Machine, op: u16) -> Option<Machine> {
    let di = fld0(op) as int;
    let s = quick_value(op / 0x200);
    Some(with_d(m, di, m.d[di] << (s as u32)))
}

/// LSR writes C and X with the last bit shifted out, Z from the result, and
/// clears N and V.
pub open spec fn sem_lsr8(m: Machine, op: u16) -> Option<Machine> {
    let di = fld0(op) as int;
    let s = quick_value(op / 0x200);
    let val = m.d[di];
    let nv = if s >= 8 {
        0u8
    } else {
        low8(val) >> (s as u32)
    };
    let carry = val & (1u32 << ((s - 1) as u32)) != 0;
    let m1 = with_d(m, di, set_low8(val, nv));
    Some(with_sr(m1, sr_set_xnzvc(m1.sr, carry, carry, false, nv == 0, false)))
}

pub open spec fn sem_lsr16(m: Machine, op: u16) -> Option<Machine> {
    let di = fld0(op) as int;
    let s = quick_value(op / 0x200);
    let val = m.d[di];
    let nv = low16(val) >> (s as u32);
    let carry = val & (1u32 << ((s - 1) as u32)) != 0;
    let m1 = with_d(m, di, set_low16(val, nv));
    Some(with_sr(m1, sr_set_xnzvc(m1.sr, carry, carry, false, nv == 0, false)))
}

pub open spec fn sem_lsl16(m: Machine, op: u16) -> Option<Machine> {
    let di = fld0(op) as int;
    let s = quick_value(op / 0x200);
    Some(with_d(m, di, set_low16(m.d[di], low16(m.d[di]) << (s as u32))))
}

/// ROR.W: a 16-bit rotate right by the immediate count.
pub open spec fn sem_ror16(m: Machine, op: u16) -> Option<Machine> {
    let di = fld0(op) as int;
    let s = quick_value(op / 0x200);
    let v = low16(m.d[di]);
    let nv = (v >> (s as u32)) | (v << ((16 - s) as u32));
    Some(with_d(m, di, set_low16(m.d[di], nv)))
}

/// ROL.W with the count taken from a data register, modulo 16.
pub open spec fn sem_rol16_reg(m: Machine, op: u16) -> Option<Machine> {
    let di = fld0(op) as int;
    let si = fld9(op) as int;
    let sh = m.d[si] % 16;
    let v = low16(m.d[di]);
    let nv = if sh == 0 {
        v
    } else {
        (v << sh) | (v >> ((16 - sh) as u32))
    };
    Some(with_d(m, di, set_low16(m.d[di], nv)))
}

pub open spec fn sem_rol8(m: Machine, op: u16) -> Option<Machine> {
    let di = fld0(op) as int;
    let s = quick_value(op / 0x200);
    let v = low8(m.d[di]);
    let hi = if s >= 8 {
        0u8
    } else {
        v << (s as u32)
    };
    let nv = hi | (v >> ((8 - s) as u32));
    Some(with_d(m, di, set_low8(m.d[di], nv)))
}


impl<B: BusTrait> Cpu<B> {
    // -----------------------------------------------------------------------
    // Compare, test and bit-operation handlers.

    fn set_z_sr(&mut self, z: bool)
        requires
            old(self).wf(),
        ensures
            final(self).wf(),
            final(self).st() == with_sr(old(self).st(), sr_set_z(old(self).st().sr, z)),
    {
        let bit = (self.regs.sr / 4) % 2;
        self.regs.sr = (self.regs.sr - bit * 4) + (if z { 4 } else { 0 });
    }

    fn set_lsr_sr(&mut self, carry: bool, zero: bool)
        requires
            old(self).wf(),
        ensures
            final(self).wf(),
            final(self).st() == with_sr(
                old(self).st(),
                sr_set_xnzvc(old(self).st().sr, carry, carry, false, zero, false),
            ),
    {
        self.regs.sr = (self.regs.sr - self.regs.sr % 32) + (if carry { 17 } else { 0 }) + (
        if zero {
            4
        } else {
            0
        });
    }

    fn op_cmp8(&mut self, op: u16) -> (r: bool)
        requires
            old(self).wf(),
        ensures
            final(self).wf(),
            if r {
                sem_cmp8(old(self).st(), op) == Some(final(self).st())
            } else {
                sem_cmp8(old(self).st(), op) is None
            },
    {
        let si = (op % 8) as usize;
        let st = ((op / 8) % 8) as usize;
        let di = ((op / 0x200) % 8) as usize;
        let src = match self.read_source8(st, si) {
            Some(v) => v,
            None => {
                return false;
            },
        };
        let dst = match self.read_source8(0, di) {
            Some(v) => v,
            None => {
                return false;
            },
        };
        let res = dst.wrapping_sub(src);
        self.set_cmp_sr(dst < src, dst == src, ((src ^ dst) & (res ^ dst)) >= 0x80, res >= 0x80);
        true
    }

    fn op_cmp16(&mut self, op: u16) -> (r: bool)
        requires
            old(self).wf(),
        ensures
            final(self).wf(),
            if r {
                sem_cmp16(old(self).st(), op) == Some(final(self).st())
            } else {
                sem_cmp16(old(self).st(), op) is None
            },
    {
        let si = (op % 8) as usize;
        let st = ((op / 8) % 8) as usize;
        let di = ((op / 0x200) % 8) as usize;
        let src = match self.read_source16(st, si) {
            Some(v) => v,
            None => {
                return false;
            },
        };
        let dst = match self.read_source16(0, di) {
            Some(v) => v,
            None => {
                return false;
            },
        };
        let res = dst.wrapping_sub(src);
        self.set_cmp_sr(
            dst < src,
            dst == src,
            ((src ^ dst) & (res ^ dst)) >= 0x8000,
            res >= 0x8000,
        );
        true
    }

    fn op_cmp32(&mut self, op: u16) -> (r: bool)
        requires
            old(self).wf(),
        ensures
            final(self).wf(),
            if r {
                sem_cmp32(old(self).st(), op) == Some(final(self).st())
            } else {
                sem_cmp32(old(self).st(), op) is None
            },
    {
        let si = (op % 8) as usize;
        let st = ((op / 8) % 8) as usize;
        let di = ((op / 0x200) % 8) as usize;
        let src = match self.read_source32(st, si) {
            Some(v) => v,
            None => {
                return false;
            },
        };
        let dst = match self.read_source32(0, di) {
            Some(v) => v,
            None => {
                return false;
            },
        };
        let res = dst.wrapping_sub(src);
        self.set_cmp_sr(
            dst < src,
            dst == src,
            ((src ^ dst) & (res ^ dst)) >= 0x80000000,
            res >= 0x80000000,
        );
        true
    }

    fn op_cmpi8(&mut self, op: u16) -> (r: bool)
        requires
            old(self).wf(),
        ensures
            final(self).wf(),
            if r {
                sem_cmpi8(old(self).st(), op) == Some(final(self).st())
            } else {
                sem_cmpi8(old(self).st(), op) is None
            },
    {
        let di = (op % 8) as usize;
        let dt = ((op / 8) % 8) as usize;
        let src = take8of16(self.read16(self.regs.pc));
        self.regs.pc = self.regs.pc.wrapping_add(2);
        let dst = match self.read_source8(dt, di) {
            Some(v) => v,
            None => {
                return false;
            },
        };
        let res = dst.wrapping_sub(src);
        self.set_cmp_sr(dst < src, dst == src, ((src ^ dst) & (res ^ dst)) >= 0x80, res >= 0x80);
        true
    }

    fn op_cmpi16(&mut self, op: u16) -> (r: bool)
        requires
            old(self).wf(),
        ensures
            final(self).wf(),
            if r {
                sem_cmpi16(old(self).st(), op) == Some(final(self).st())
            } else {
                sem_cmpi16(old(self).st(), op) is None
            },
    {
        let di = (op % 8) as usize;
        let dt = ((op / 8) % 8) as usize;
        let src = self.read16(self.regs.pc);
        self.regs.pc = self.regs.pc.wrapping_add(2);
        let dst = match self.read_source16(dt, di) {
            Some(v) => v,
            None => {
                return false;
            },
        };
        let res = dst.wrapping_sub(src);
        self.set_cmp_sr(
            dst < src,
            dst == src,
            ((src ^ dst) & (res ^ dst)) >= 0x8000,
            res >= 0x8000,
        );
        true
    }

    fn op_cmpa(&mut self, op: u16) -> (r: bool)
        requires
            old(self).wf(),
        ensures
            final(self).wf(),
            if r {
                sem_cmpa(old(self).st(), op) == Some(final(self).st())
            } else {
                sem_cmpa(old(self).st(), op) is None
            },
    {
        let si = (op % 8) as usize;
        let st = ((op / 8) % 8) as usize;
        let di = ((op / 0x200) % 8) as usize;
        let src = match self.read_source32(st, si) {
            Some(v) => v,
            None => {
                return false;
            },
        };
        let dst = match self.read_source32(1, di) {
            Some(v) => v,
            None => {
                return false;
            },
        };
        let res = dst.wrapping_sub(src);
        self.set_cmp_sr(
            dst < src,
            dst == src,
            ((src ^ dst) & (res ^ dst)) >= 0x80000000,
            res >= 0x80000000,
        );
        true
    }

    fn op_cmpm8(&mut self, op: u16)
        requires
            old(self).wf(),
        ensures
            final(self).wf(),
            sem_cmpm8(old(self).st(), op) == Some(final(self).st()),
    {
        let si = (op % 8) as usize;
        let di = ((op / 0x200) % 8) as usize;
        let dst = self.read8(self.regs.a[di]);
        let src = self.read8(self.regs.a[si]);
        let v1 = self.regs.a[si].wrapping_add(1);
        self.regs.a.set(si, v1);
        let v2 = self.regs.a[di].wrapping_add(1);
        self.regs.a.set(di, v2);
        let res = dst.wrapping_sub(src);
        self.set_cmp_sr(dst < src, dst == src, ((src ^ dst) & (res ^ dst)) >= 0x80, res >= 0x80);
    }

    fn op_tst8(&mut self, op: u16) -> (r: bool)
        requires
            old(self).wf(),
        ensures
            final(self).wf(),
            if r {
                sem_tst8(old(self).st(), op) == Some(final(self).st())
            } else {
                sem_tst8(old(self).st(), op) is None
            },
    {
        let si = (op % 8) as usize;
        let st = ((op / 8) % 8) as usize;
        match self.read_source8(st, si) {
            Some(v) => {
                self.set_tst_sr(v == 0, v >= 0x80);
                true
            },
            None => false,
        }
    }

    fn op_tst16(&mut self, op: u16) -> (r: bool)
        requires
            old(self).wf(),
        ensures
            final(self).wf(),
            if r {
                sem_tst16(old(self).st(), op) == Some(final(self).st())
            } else {
                sem_tst16(old(self).st(), op) is None
            },
    {
        let si = (op % 8) as usize;
        let st = ((op / 8) % 8) as usize;
        match self.read_source16(st, si) {
            Some(v) => {
                self.set_tst_sr(v == 0, v >= 0x8000);
                true
            },
            None => false,
        }
    }

    fn op_tst32(&mut self, op: u16) -> (r: bool)
        requires
            old(self).wf(),
        ensures
            final(self).wf(),
            if r {
                sem_tst32(old(self).st(), op) == Some(final(self).st())
            } else {
                sem_tst32(old(self).st(), op) is None
            },
    {
        let si = (op % 8) as usize;
        let st = ((op / 8) % 8) as usize;
        match self.read_source32(st, si) {
            Some(v) => {
                self.set_tst_sr(v == 0, v >= 0x80000000);
                true
            },
            None => false,
        }
    }

    fn op_btst_im(&mut self, op: u16) -> (r: bool)
        requires
            old(self).wf(),
        ensures
            final(self).wf(),
            if r {
                sem_btst_im(old(self).st(), op) == Some(final(self).st())
            } else {
                sem_btst_im(old(self).st(), op) is None
            },
    {
        let bit = self.read16(self.regs.pc);
        self.regs.pc = self.regs.pc.wrapping_add(2);
        let si = (op % 8) as usize;
        let st = ((op / 8) % 8) as usize;
        if st < 2 {
            match self.read_source32(st, si) {
                Some(val) => {
                    let z = val & (1u32 << ((bit % 32) as u32)) == 0;
                    self.set_z_sr(z);
                    true
                },
                None => false,
            }
        } else {
            match self.read_source8(st, si) {
                Some(val) => {
                    let z = val & (1u8 << ((bit % 8) as u32)) == 0;
                    self.set_z_sr(z);
                    true
                },
                None => false,
            }
        }
    }

    fn op_bclr_im(&mut self, op: u16) -> (r: bool)
        requires
            old(self).wf(),
        ensures
            final(self).wf(),
            if r {
                sem_bclr_im(old(self).st(), op) == Some(final(self).st())
            } else {
                sem_bclr_im(old(self).st(), op) is None
            },
    {
        let bit = self.read16(self.regs.pc);
        self.regs.pc = self.regs.pc.wrapping_add(2);
        let di = (op % 8) as usize;
        let dt = ((op / 8) % 8) as usize;
        if dt < 2 {
            match self.read_source32_incpc(dt, di, false) {
                Some(dst) => self.write_destination32(dt, di, dst & !(1u32 << ((bit % 32) as u32))),
                None => false,
            }
        } else {
            match self.read_source8_incpc(dt, di, false) {
                Some(dst) => self.write_destination8(dt, di, dst & !(1u8 << ((bit % 8) as u32))),
                None => false,
            }
        }
    }

    fn op_bset_im(&mut self, op: u16) -> (r: bool)
        requires
            old(self).wf(),
        ensures
            final(self).wf(),
            if r {
                sem_bset_im(old(self).st(), op) == Some(final(self).st())
            } else {
                sem_bset_im(old(self).st(), op) is None
            },
    {
        let bit = self.read16(self.regs.pc);
        self.regs.pc = self.regs.pc.wrapping_add(2);
        let di = (op % 8) as usize;
        let dt = ((op / 8) % 8) as usize;
        if dt < 2 {
            match self.read_source32_incpc(dt, di, false) {
                Some(dst) => self.write_destination32(dt, di, dst | (1u32 << ((bit % 32) as u32))),
                None => false,
            }
        } else {
            match self.read_source8_incpc(dt, di, false) {
                Some(dst) => self.write_destination8(dt, di, dst | (1u8 << ((bit % 8) as u32))),
                None => false,
            }
        }
    }

    fn op_bset_reg(&mut self, op: u16) -> (r: bool)
        requires
            old(self).wf(),
        ensures
            final(self).wf(),
            if r {
                sem_bset_reg(old(self).st(), op) == Some(final(self).st())
            } else {
                sem_bset_reg(old(self).st(), op) is None
            },
    {
        let di = (op % 8) as usize;
        let dt = ((op / 8) % 8) as usize;
        let si = ((op / 0x200) % 8) as usize;
        if dt < 2 {
            match self.read_source32_incpc(dt, di, false) {
                Some(dst) => {
                    let k = (self.regs.d[si] % 32) as u32;
                    self.write_destination32(dt, di, dst | (1u32 << k))
                },
                None => false,
            }
        } else {
            match self.read_source8_incpc(dt, di, false) {
                Some(dst) => {
                    let k = (self.regs.d[si] % 8) as u32;
                    self.write_destination8(dt, di, dst | (1u8 << k))
                },
                None => false,
            }
        }
    }
}


impl<B: BusTrait> Cpu<B> {
    // -----------------------------------------------------------------------
    // Arithmetic and logical handlers.

    fn op_add8(&mut self, op: u16) -> (r: bool)
        requires
            old(self).wf(),
        ensures
            final(self).wf(),
            if r {
                sem_add8(old(self).st(), op) == Some(final(self).st())
            } else {
                sem_add8(old(self).st(), op) is None
            },
    {
        let si = (op % 8) as usize;
        let st = ((op / 8) % 8) as usize;
        let di = ((op / 0x200) % 8) as usize;
        match self.read_source8(st, si) {
            Some(src) => {
                let val = self.regs.d[di];
                self.regs.d.set(di, replace_byte(val, take8(val).wrapping_add(src)));
                true
            },
            None => false,
        }
    }

    fn op_add16(&mut self, op: u16) -> (r: bool)
        requires
            old(self).wf(),
        ensures
            final(self).wf(),
            if r {
                sem_add16(old(self).st(), op) == Some(final(self).st())
            } else {
                sem_add16(old(self).st(), op) is None
            },
    {
        let si = (op % 8) as usize;
        let st = ((op / 8) % 8) as usize;
        let di = ((op / 0x200) % 8) as usize;
        match self.read_source16(st, si) {
            Some(src) => {
                let val = self.regs.d[di];
                self.regs.d.set(di, replace_word(val, take16(val).wrapping_add(src)));
                true
            },
            None => false,
        }
    }

    fn op_add32(&mut self, op: u16) -> (r: bool)
        requires
            old(self).wf(),
        ensures
            final(self).wf(),
            if r {
                sem_add32(old(self).st(), op) == Some(final(self).st())
            } else {
                sem_add32(old(self).st(), op) is None
            },
    {
        let si = (op % 8) as usize;
        let st = ((op / 8) % 8) as usize;
        let di = ((op / 0x200) % 8) as usize;
        match self.read_source32(st, si) {
            Some(src) => {
                let val = self.regs.d[di];
                self.regs.d.set(di, val.wrapping_add(src));
                true
            },
            None => false,
        }
    }

    fn op_addi8(&mut self, op: u16) -> (r: bool)
        requires
            old(self).wf(),
        ensures
            final(self).wf(),
            if r {
                sem_addi8(old(self).st(), op) == Some(final(self).st())
            } else {
                sem_addi8(old(self).st(), op) is None
            },
    {
        let di = (op % 8) as usize;
        let dt = ((op / 8) % 8) as usize;
        let v = take8of16(self.read16(self.regs.pc));
        self.regs.pc = self.regs.pc.wrapping_add(2);
        match self.read_source8_incpc(dt, di, false) {
            Some(src) => self.write_destination8(dt, di, src.wrapping_add(v)),
            None => false,
        }
    }

    fn op_addi16(&mut self, op: u16) -> (r: bool)
        requires
            old(self).wf(),
        ensures
            final(self).wf(),
            if r {
                sem_addi16(old(self).st(), op) == Some(final(self).st())
            } else {
                sem_addi16(old(self).st(), op) is None
            },
    {
        let di = (op % 8) as usize;
        let dt = ((op / 8) % 8) as usize;
        let v = self.read16(self.regs.pc);
        self.regs.pc = self.regs.pc.wrapping_add(2);
        match self.read_source16_incpc(dt, di, false) {
            Some(src) => self.write_destination16(dt, di, src.wrapping_add(v)),
            None => false,
        }
    }

    fn op_adda(&mut self, op: u16) -> (r: bool)
        requires
            old(self).wf(),
        ensures
            final(self).wf(),
            if r {
                sem_adda(old(self).st(), op) == Some(final(self).st())
            } else {
                sem_adda(old(self).st(), op) is None
            },
    {
        let si = (op % 8) as usize;
        let st = ((op / 8) % 8) as usize;
        let di = ((op / 0x200) % 8) as usize;
        match self.read_source32(st, si) {
            Some(src) => {
                let val = self.regs.a[di];
                self.regs.a.set(di, val.wrapping_add(src));
                true
            },
            None => false,
        }
    }

    fn op_addq8(&mut self, op: u16) -> (r: bool)
        requires
            old(self).wf(),
        ensures
            final(self).wf(),
            if r {
                sem_addq8(old(self).st(), op) == Some(final(self).st())
            } else {
                sem_addq8(old(self).st(), op) is None
            },
    {
        let si = (op % 8) as usize;
        let st = ((op / 8) % 8) as usize;
        let v = conv07to18(op / 0x200);
        match self.read_source8_incpc(st, si, false) {
            Some(src) => self.write_destination8(st, si, (v as u8).wrapping_add(src)),
            None => false,
        }
    }

    fn op_addq16(&mut self, op: u16) -> (r: bool)
        requires
            old(self).wf(),
        ensures
            final(self).wf(),
            if r {
                sem_addq16(old(self).st(), op) == Some(final(self).st())
            } else {
                sem_addq16(old(self).st(), op) is None
            },
    {
        let si = (op % 8) as usize;
        let st = ((op / 8) % 8) as usize;
        let v = conv07to18(op / 0x200);
        match self.read_source16_incpc(st, si, false) {
            Some(src) => self.write_destination16(st, si, v.wrapping_add(src)),
            None => false,
        }
    }

    fn op_addq32(&mut self, op: u16) -> (r: bool)
        requires
            old(self).wf(),
        ensures
            final(self).wf(),
            if r {
                sem_addq32(old(self).st(), op) == Some(final(self).st())
            } else {
                sem_addq32(old(self).st(), op) is None
            },
    {
        let si = (op % 8) as usize;
        let st = ((op / 8) % 8) as usize;
        let v = conv07to18(op / 0x200);
        match self.read_source32_incpc(st, si, false) {
            Some(src) => self.write_destination32(st, si, (v as u32).wrapping_add(src)),
            None => false,
        }
    }

    fn op_sub8(&mut self, op: u16) -> (r: bool)
        requires
            old(self).wf(),
        ensures
            final(self).wf(),
            if r {
                sem_sub8(old(self).st(), op) == Some(final(self).st())
            } else {
                sem_sub8(old(self).st(), op) is None
            },
    {
        let si = (op % 8) as usize;
        let st = ((op / 8) % 8) as usize;
        let di = ((op / 0x200) % 8) as usize;
        match self.read_source8(st, si) {
            Some(src) => {
                let val = self.regs.d[di];
                self.regs.d.set(di, replace_byte(val, take8(val).wrapping_sub(src)));
                true
            },
            None => false,
        }
    }

    fn op_sub16(&mut self, op: u16) -> (r: bool)
        requires
            old(self).wf(),
        ensures
            final(self).wf(),
            if r {
                sem_sub16(old(self).st(), op) == Some(final(self).st())
            } else {
                sem_sub16(old(self).st(), op) is None
            },
    {
        let si = (op % 8) as usize;
        let st = ((op / 8) % 8) as usize;
        let di = ((op / 0x200) % 8) as usize;
        match self.read_source16(st, si) {
            Some(src) => {
                let val = self.regs.d[di];
                self.regs.d.set(di, replace_word(val, take16(val).wrapping_sub(src)));
                true
            },
            None => false,
        }
    }

    fn op_subi8(&mut self, op: u16) -> (r: bool)
        requires
            old(self).wf(),
        ensures
            final(self).wf(),
            if r {
                sem_subi8(old(self).st(), op) == Some(final(self).st())
            } else {
                sem_subi8(old(self).st(), op) is None
            },
    {
        let di = (op % 8) as usize;
        let dt = ((op / 8) % 8) as usize;
        let v = take8of16(self.read16(self.regs.pc));
        self.regs.pc = self.regs.pc.wrapping_add(2);
        match self.read_source8_incpc(dt, di, false) {
            Some(src) => self.write_destination8(dt, di, src.wrapping_sub(v)),
            None => false,
        }
    }

    fn op_suba(&mut self, op: u16) -> (r: bool)
        requires
            old(self).wf(),
        ensures
            final(self).wf(),
            if r {
                sem_suba(old(self).st(), op) == Some(final(self).st())
            } else {
                sem_suba(old(self).st(), op) is None
            },
    {
        let si = (op % 8) as usize;
        let st = ((op / 8) % 8) as usize;
        let di = ((op / 0x200) % 8) as usize;
        match self.read_source32(st, si) {
            Some(src) => {
                let val = self.regs.a[di];
                self.regs.a.set(di, val.wrapping_sub(src));
                true
            },
            None => false,
        }
    }

    fn op_subq16(&mut self, op: u16) -> (r: bool)
        requires
            old(self).wf(),
        ensures
            final(self).wf(),
            if r {
                sem_subq16(old(self).st(), op) == Some(final(self).st())
            } else {
                sem_subq16(old(self).st(), op) is None
            },
    {
        let si = (op % 8) as usize;
        let st = ((op / 8) % 8) as usize;
        let v = conv07to18(op / 0x200);
        match self.read_source16_incpc(st, si, false) {
            Some(src) => {
                let val = src.wrapping_sub(v);
                if self.write_destination16(st, si, val) {
                    self.set_z_sr(val == 0);
                    true
                } else {
                    false
                }
            },
            None => false,
        }
    }

    fn op_subq32(&mut self, op: u16) -> (r: bool)
        requires
            old(self).wf(),
        ensures
            final(self).wf(),
            if r {
                sem_subq32(old(self).st(), op) == Some(final(self).st())
            } else {
                sem_subq32(old(self).st(), op) is None
            },
    {
        let si = (op % 8) as usize;
        let st = ((op / 8) % 8) as usize;
        let v = conv07to18(op / 0x200);
        match self.read_source32_incpc(st, si, false) {
            Some(src) => {
                let val = src.wrapping_sub(v as u32);
                if self.write_destination32(st, si, val) {
                    self.set_z_sr(val == 0);
                    true
                } else {
                    false
                }
            },
            None => false,
        }
    }

    fn op_mulu(&mut self, op: u16) -> (r: bool)
        requires
            old(self).wf(),
        ensures
            final(self).wf(),
            if r {
                sem_mulu(old(self).st(), op) == Some(final(self).st())
            } else {
                sem_mulu(old(self).st(), op) is None
            },
    {
        let si = (op % 8) as usize;
        let st = ((op / 8) % 8) as usize;
        let di = ((op / 0x200) % 8) as usize;
        match self.read_source16(st, si) {
            Some(src) => {
                let lhs = take16(self.regs.d[di]);
                proof {
                    assert(lhs * src <= 0xffff * 0xffff) by (nonlinear_arith)
                        requires
                            lhs <= 0xffff,
                            src <= 0xffff,
                    ;
                }
                self.regs.d.set(di, (lhs as u32) * (src as u32));
                true
            },
            None => false,
        }
    }

    fn op_and8(&mut self, op: u16) -> (r: bool)
        requires
            old(self).wf(),
        ensures
            final(self).wf(),
            if r {
                sem_and8(old(self).st(), op) == Some(final(self).st())
            } else {
                sem_and8(old(self).st(), op) is None
            },
    {
        let si = (op % 8) as usize;
        let st = ((op / 8) % 8) as usize;
        let di = ((op / 0x200) % 8) as usize;
        match self.read_source8(st, si) {
            Some(src) => {
                let dst = self.regs.d[di];
                let res = take8(dst) & src;
                self.regs.d.set(di, replace_byte(dst, res));
                self.set_and_sr(res == 0, res >= 0x80);
                true
            },
            None => false,
        }
    }

    fn op_and16(&mut self, op: u16) -> (r: bool)
        requires
            old(self).wf(),
        ensures
            final(self).wf(),
            if r {
                sem_and16(old(self).st(), op) == Some(final(self).st())
            } else {
                sem_and16(old(self).st(), op) is None
            },
    {
        let si = (op % 8) as usize;
        let st = ((op / 8) % 8) as usize;
        let di = ((op / 0x200) % 8) as usize;
        match self.read_source16(st, si) {
            Some(src) => {
                let dst = self.regs.d[di];
                let res = take16(dst) & src;
                self.regs.d.set(di, replace_word(dst, res));
                self.set_and_sr(res == 0, res >= 0x8000);
                true
            },
            None => false,
        }
    }

    fn op_and32(&mut self, op: u16) -> (r: bool)
        requires
            old(self).wf(),
        ensures
            final(self).wf(),
            if r {
                sem_and32(old(self).st(), op) == Some(final(self).st())
            } else {
                sem_and32(old(self).st(), op) is None
            },
    {
        let si = (op % 8) as usize;
        let st = ((op / 8) % 8) as usize;
        let di = ((op / 0x200) % 8) as usize;
        match self.read_source32(st, si) {
            Some(src) => {
                let dst = self.regs.d[di];
                let res = dst & src;
                self.regs.d.set(di, res);
                self.set_and_sr(res == 0, res >= 0x80000000);
                true
            },
            None => false,
        }
    }

    fn op_andi16(&mut self, op: u16) -> (r: bool)
        requires
            old(self).wf(),
        ensures
            final(self).wf(),
            if r {
                sem_andi16(old(self).st(), op) == Some(final(self).st())
            } else {
                sem_andi16(old(self).st(), op) is None
            },
    {
        let di = (op % 8) as usize;
        let dt = ((op / 8) % 8) as usize;
        let v = self.read16(self.regs.pc);
        self.regs.pc = self.regs.pc.wrapping_add(2);
        match self.read_source16_incpc(dt, di, false) {
            Some(src) => {
                let res = src & v;
                if self.write_destination16(dt, di, res) {
                    self.set_and_sr(res == 0, res >= 0x8000);
                    true
                } else {
                    false
                }
            },
            None => false,
        }
    }

    fn op_or8(&mut self, op: u16) -> (r: bool)
        requires
            old(self).wf(),
        ensures
            final(self).wf(),
            if r {
                sem_or8(old(self).st(), op) == Some(final(self).st())
            } else {
                sem_or8(old(self).st(), op) is None
            },
    {
        let si = (op % 8) as usize;
        let st = ((op / 8) % 8) as usize;
        let di = ((op / 0x200) % 8) as usize;
        match self.read_source8(st, si) {
            Some(src) => {
                let dst = self.regs.d[di];
                self.regs.d.set(di, replace_byte(dst, take8(dst) | src));
                true
            },
            None => false,
        }
    }

    fn op_or16(&mut self, op: u16) -> (r: bool)
        requires
            old(self).wf(),
        ensures
            final(self).wf(),
            if r {
                sem_or16(old(self).st(), op) == Some(final(self).st())
            } else {
                sem_or16(old(self).st(), op) is None
            },
    {
        let si = (op % 8) as usize;
        let st = ((op / 8) % 8) as usize;
        let di = ((op / 0x200) % 8) as usize;
        match self.read_source16(st, si) {
            Some(src) => {
                let dst = self.regs.d[di];
                self.regs.d.set(di, replace_word(dst, take16(dst) | src));
                true
            },
            None => false,
        }
    }

    fn op_ori8(&mut self, op: u16) -> (r: bool)
        requires
            old(self).wf(),
        ensures
            final(self).wf(),
            if r {
                sem_ori8(old(self).st(), op) == Some(final(self).st())
            } else {
                sem_ori8(old(self).st(), op) is None
            },
    {
        let di = (op % 8) as usize;
        let dt = ((op / 8) % 8) as usize;
        let v = take8of16(self.read16(self.regs.pc));
        self.regs.pc = self.regs.pc.wrapping_add(2);
        match self.read_source8_incpc(dt, di, false) {
            Some(src) => self.write_destination8(dt, di, src | v),
            None => false,
        }
    }

    fn op_ori16(&mut self, op: u16) -> (r: bool)
        requires
            old(self).wf(),
        ensures
            final(self).wf(),
            if r {
                sem_ori16(old(self).st(), op) == Some(final(self).st())
            } else {
                sem_ori16(old(self).st(), op) is None
            },
    {
        let di = (op % 8) as usize;
        let dt = ((op / 8) % 8) as usize;
        let v = self.read16(self.regs.pc);
        self.regs.pc = self.regs.pc.wrapping_add(2);
        match self.read_source16_incpc(dt, di, false) {
            Some(src) => self.write_destination16(dt, di, src | v),
            None => false,
        }
    }

    fn op_eor8(&mut self, op: u16) -> (r: bool)
        requires
            old(self).wf(),
        ensures
            final(self).wf(),
            if r {
                sem_eor8(old(self).st(), op) == Some(final(self).st())
            } else {
                sem_eor8(old(self).st(), op) is None
            },
    {
        let di = (op % 8) as usize;
        let dt = ((op / 8) % 8) as usize;
        let si = ((op / 0x200) % 8) as usize;
        match self.read_source8_incpc(dt, di, false) {
            Some(dst) => {
                let v = take8(self.regs.d[si]);
                self.write_destination8(dt, di, v ^ dst)
            },
            None => false,
        }
    }

    fn op_eori8(&mut self, op: u16) -> (r: bool)
        requires
            old(self).wf(),
        ensures
            final(self).wf(),
            if r {
                sem_eori8(old(self).st(), op) == Some(final(self).st())
            } else {
                sem_eori8(old(self).st(), op) is None
            },
    {
        let di = (op % 8) as usize;
        let dt = ((op / 8) % 8) as usize;
        let v = take8of16(self.read16(self.regs.pc));
        self.regs.pc = self.regs.pc.wrapping_add(2);
        match self.read_source8_incpc(dt, di, false) {
            Some(src) => self.write_destination8(dt, di, src ^ v),
            None => false,
        }
    }

    fn op_eori16(&mut self, op: u16) -> (r: bool)
        requires
            old(self).wf(),
        ensures
            final(self).wf(),
            if r {
                sem_eori16(old(self).st(), op) == Some(final(self).st())
            } else {
                sem_eori16(old(self).st(), op) is None
            },
    {
        let di = (op % 8) as usize;
        let dt = ((op / 8) % 8) as usize;
        let v = self.read16(self.regs.pc);
        self.regs.pc = self.regs.pc.wrapping_add(2);
        match self.read_source16_incpc(dt, di, false) {
            Some(src) => self.write_destination16(dt, di, src ^ v),
            None => false,
        }
    }

    // -----------------------------------------------------------------------
    // Shifts and rotates.

    fn op_asl8(&mut self, op: u16)
        requires
            old(self).wf(),
        ensures
            final(self).wf(),
            sem_asl8(old(self).st(), op) == Some(final(self).st()),
    {
        let di = (op % 8) as usize;
        let s = conv07to18(op / 0x200);
        let val = self.regs.d[di];
        let v = take8(val);
        let nv = if s >= 8 {
            0u8
        } else {
            v << (s as u32)
        };
        self.regs.d.set(di, replace_byte(val, nv));
    }

    fn op_asl16(&mut self, op: u16)
        requires
            old(self).wf(),
        ensures
            final(self).wf(),
            sem_asl16(old(self).st(), op) == Some(final(self).st()),
    {
        let di = (op % 8) as usize;
        let s = conv07to18(op / 0x200);
        let val = self.regs.d[di];
        self.regs.d.set(di, replace_word(val, take16(val) << (s as u32)));
    }

    fn op_asl32(&mut self, op: u16)
        requires
            old(self).wf(),
        ensures
            final(self).wf(),
            sem_asl32(old(self).st(), op) == Some(final(self).st()),
    {
        let di = (op % 8) as usize;
        let s = conv07to18(op / 0x200);
        let val = self.regs.d[di];
        self.regs.d.set(di, val << (s as u32));
    }

    fn op_lsr8(&mut self, op: u16)
        requires
            old(self).wf(),
        ensures
            final(self).wf(),
            sem_lsr8(old(self).st(), op) == Some(final(self).st()),
    {
        let di = (op % 8) as usize;
        let s = conv07to18(op / 0x200);
        let val = self.regs.d[di];
        let nv = if s >= 8 {
            0u8
        } else {
            take8(val) >> (s as u32)
        };
        self.regs.d.set(di, replace_byte(val, nv));
        let carry = val & (1u32 << ((s - 1) as u32)) != 0;
        self.set_lsr_sr(carry, nv == 0);
    }

    fn op_lsr16(&mut self, op: u16)
        requires
            old(self).wf(),
        ensures
            final(self).wf(),
            sem_lsr16(old(self).st(), op) == Some(final(self).st()),
    {
        let di = (op % 8) as usize;
        let s = conv07to18(op / 0x200);
        let val = self.regs.d[di];
        let nv = take16(val) >> (s as u32);
        self.regs.d.set(di, replace_word(val, nv));
        let carry = val & (1u32 << ((s - 1) as u32)) != 0;
        self.set_lsr_sr(carry, nv == 0);
    }

    fn op_lsl16(&mut self, op: u16)
        requires
            old(self).wf(),
        ensures
            final(self).wf(),
            sem_lsl16(old(self).st(), op) == Some(final(self).st()),
    {
        let di = (op % 8) as usize;
        let s = conv07to18(op / 0x200);
        let val = self.regs.d[di];
        self.regs.d.set(di, replace_word(val, take16(val) << (s as u32)));
    }

    fn op_ror16(&mut self, op: u16)
        requires
            old(self).wf(),
        ensures
            final(self).wf(),
            sem_ror16(old(self).st(), op) == Some(final(self).st()),
    {
        let di = (op % 8) as usize;
        let s = conv07to18(op / 0x200);
        let val = self.regs.d[di];
        let v = take16(val);
        let nv = (v >> (s as u32)) | (v << ((16 - s) as u32));
        self.regs.d.set(di, replace_word(val, nv));
    }

    fn op_rol16_reg(&mut self, op: u16)
        requires
            old(self).wf(),
        ensures
            final(self).wf(),
            sem_rol16_reg(old(self).st(), op) == Some(final(self).st()),
    {
        let di = (op % 8) as usize;
        let si = ((op / 0x200) % 8) as usize;
        let sh = self.regs.d[si] % 16;
        let val = self.regs.d[di];
        let v = take16(val);
        let nv = if sh == 0 {
            v
        } else {
            (v << sh) | (v >> (16 - sh))
        };
        self.regs.d.set(di, replace_word(val, nv));
    }

    fn op_rol8(&mut self, op: u16)
        requires
            old(self).wf(),
        ensures
            final(self).wf(),
            sem_rol8(old(self).st(), op) == Some(final(self).st()),
    {
        let di = (op % 8) as usize;
        let s = conv07to18(op / 0x200);
        let val = self.regs.d[di];
        let v = take8(val);
        let hi = if s >= 8 {
            0u8
        } else {
            v << (s as u32)
        };
        let nv = hi | (v >> ((8 - s) as u32));
        self.regs.d.set(di, replace_byte(val, nv));
    }
}


// ---------------------------------------------------------------------------
// MOVEM: a bitmap-selected block of registers moves to or from memory. In
// both directions the mask is walked from bit 0 as D0..D7 then A0..A7; the
// predecrement direction first steps the pointer down by 4 for each
// transfer, so the first register written lands at the highest address.

pub open spec fn movem_from_d(m: Machine, b: u16, i: int, p: u32) -> (Machine, u32)
    decreases 8 - i,
{
    if i >= 8 {
        (m, p)
    } else if b % 2 == 1 {
        let p2 = wsub32(p, 4);
        movem_from_d(wr32(m, p2, m.d[i]), b / 2, i + 1, p2)
    } else {
        movem_from_d(m, b / 2, i + 1, p)
    }
}

pub open spec fn movem_from_a(m: Machine, b: u16, i: int, p: u32) -> (Machine, u32)
    decreases 8 - i,
{
    if i >= 8 {
        (m, p)
    } else if b % 2 == 1 {
        let p2 = wsub32(p, 4);
        movem_from_a(wr32(m, p2, m.a[i]), b / 2, i + 1, p2)
    } else {
        movem_from_a(m, b / 2, i + 1, p)
    }
}

pub open spec fn sem_movem_from(m: Machine, op: u16) -> Option<Machine> {
    let di = fld0(op) as int;
    let bits = rd16(m, m.pc);
    let m1 = pc_plus(m, 2);
    let (m2, p2) = movem_from_d(m1, bits, 0, m1.a[di]);
    let (m3, p3) = movem_from_a(m2, bits / 0x100, 0, p2);
    Some(with_a(m3, di, p3))
}

pub open spec fn movem_to_d(m: Machine, b: u16, i: int, p: u32) -> (Machine, u32)
    decreases 8 - i,
{
    if i >= 8 {
        (m, p)
    } else if b % 2 == 1 {
        movem_to_d(with_d(m, i, rd32(m, p)), b / 2, i + 1, wadd32(p, 4))
    } else {
        movem_to_d(m, b / 2, i + 1, p)
    }
}

pub open spec fn movem_to_a(m: Machine, b: u16, i: int, p: u32) -> (Machine, u32)
    decreases 8 - i,
{
    if i >= 8 {
        (m, p)
    } else if b % 2 == 1 {
        movem_to_a(with_a(m, i, rd32(m, p)), b / 2, i + 1, wadd32(p, 4))
    } else {
        movem_to_a(m, b / 2, i + 1, p)
    }
}

pub open spec fn sem_movem_to(m: Machine, op: u16) -> Option<Machine> {
    let di = fld0(op) as int;
    let bits = rd16(m, m.pc);
    let m1 = pc_plus(m, 2);
    let (m2, p2) = movem_to_d(m1, bits, 0, m1.a[di]);
    let (m3, p3) = movem_to_a(m2, bits / 0x100, 0, p2);
    Some(with_a(m3, di, p3))
}

impl<B: BusTrait> Cpu<B> {
    fn op_movem_from(&mut self, op: u16)
        requires
            old(self).wf(),
        ensures
            final(self).wf(),
            sem_movem_from(old(self).st(), op) == Some(final(self).st()),
    {
        let di = (op % 8) as usize;
        let bits = self.read16(self.regs.pc);
        self.regs.pc = self.regs.pc.wrapping_add(2);
        let ghost m1 = self.st();
        let mut p = self.regs.a[di];
        let mut b = bits;
        let mut i: usize = 0;
        while i < 8
            invariant
                self.wf(),
                i <= 8,
                movem_from_d(m1, bits, 0, m1.a[di as int]) == movem_from_d(
                    self.st(),
                    b,
                    i as int,
                    p,
                ),
            decreases 8 - i,
        {
            if b % 2 == 1 {
                p = p.wrapping_sub(4);
                let v = self.regs.d[i];
                self.write32(p, v);
            }
            b = b / 2;
            i = i + 1;
        }
        let ghost m2 = self.st();
        let ghost p2 = p;
        let mut b = bits / 0x100;
        let mut i: usize = 0;
        while i < 8
            invariant
                self.wf(),
                i <= 8,
                movem_from_a(m2, bits / 0x100, 0, p2) == movem_from_a(self.st(), b, i as int, p),
            decreases 8 - i,
        {
            if b % 2 == 1 {
                p = p.wrapping_sub(4);
                let v = self.regs.a[i];
                self.write32(p, v);
            }
            b = b / 2;
            i = i + 1;
        }
        self.regs.a.set(di, p);
    }

    fn op_movem_to(&mut self, op: u16)
        requires
            old(self).wf(),
        ensures
            final(self).wf(),
            sem_movem_to(old(self).st(), op) == Some(final(self).st()),
    {
        let di = (op % 8) as usize;
        let bits = self.read16(self.regs.pc);
        self.regs.pc = self.regs.pc.wrapping_add(2);
        let ghost m1 = self.st();
        let mut p = self.regs.a[di];
        let mut b = bits;
        let mut i: usize = 0;
        while i < 8
            invariant
                self.wf(),
                i <= 8,
                movem_to_d(m1, bits, 0, m1.a[di as int]) == movem_to_d(self.st(), b, i as int, p),
            decreases 8 - i,
        {
            if b % 2 == 1 {
                let v = self.read32(p);
                self.regs.d.set(i, v);
                p = p.wrapping_add(4);
            }
            b = b / 2;
            i = i + 1;
        }
        let ghost m2 = self.st();
        let ghost p2 = p;
        let mut b = bits / 0x100;
        let mut i: usize = 0;
        while i < 8
            invariant
                self.wf(),
                i <= 8,
                movem_to_a(m2, bits / 0x100, 0, p2) == movem_to_a(self.st(), b, i as int, p),
            decreases 8 - i,
        {
            if b % 2 == 1 {
                let v = self.read32(p);
                self.regs.a.set(i, v);
                p = p.wrapping_add(4);
            }
            b = b / 2;
            i = i + 1;
        }
        self.regs.a.set(di, p);
    }
}

// ---------------------------------------------------------------------------
// One architectural step: fetch the first word at `PC`, advance over it,
// decode, and run the operation's semantics. `None` is a fault.

#[verifier::opaque]
pub open spec fn spec_step(m: Machine) -> Option<Machine> {
    let op = rd16(m, m.pc);
    let m1 = pc_plus(m, 2);
    match decode(op) {
        Opcode::Unknown => None,
        Opcode::Nop => Some(m1),
        Opcode::MoveByte => sem_move8(m1, op),
        Opcode::MoveWord => sem_move16(m1, op),
        Opcode::MoveLong => sem_move32(m1, op),
        Opcode::Moveq => sem_moveq(m1, op),
        Opcode::MovemFrom => sem_movem_from(m1, op),
        Opcode::MovemTo => sem_movem_to(m1, op),
        Opcode::MoveToSr => sem_move_to_sr(m1, op),
        Opcode::MoveFromSr => sem_move_from_sr(m1, op),
        Opcode::LeaDirect => sem_lea_direct(m1, op),
        Opcode::LeaOffset => sem_lea_offset(m1, op),
        Opcode::LeaOffsetD => sem_lea_offset_d(m1, op),
        Opcode::LeaOffsetPc => sem_lea_offset_pc(m1, op),
        Opcode::ClrByte => sem_clr8(m1, op),
        Opcode::ClrWord => sem_clr16(m1, op),
        Opcode::ClrLong => sem_clr32(m1, op),
        Opcode::Swap => sem_swap(m1, op),
        Opcode::CmpByte => sem_cmp8(m1, op),
        Opcode::CmpWord => sem_cmp16(m1, op),
        Opcode::CmpLong => sem_cmp32(m1, op),
        Opcode::CmpiByte => sem_cmpi8(m1, op),
        Opcode::CmpiWord => sem_cmpi16(m1, op),
        Opcode::CmpaLong => sem_cmpa(m1, op),
        Opcode::CmpmByte => sem_cmpm8(m1, op),
        Opcode::Cmp2Byte => None,
        Opcode::TstByte => sem_tst8(m1, op),
        Opcode::TstWord => sem_tst16(m1, op),
        Opcode::TstLong => sem_tst32(m1, op),
        Opcode::BtstIm => sem_btst_im(m1, op),
        Opcode::BclrIm => sem_bclr_im(m1, op),
        Opcode::Bset => sem_bset_reg(m1, op),
        Opcode::BsetIm => sem_bset_im(m1, op),
        Opcode::AddByte => sem_add8(m1, op),
        Opcode::AddWord => sem_add16(m1, op),
        Opcode::AddLong => sem_add32(m1, op),
        Opcode::AddiByte => sem_addi8(m1, op),
        Opcode::AddiWord => sem_addi16(m1, op),
        Opcode::AddaLong => sem_adda(m1, op),
        Opcode::AddqByte => sem_addq8(m1, op),
        Opcode::AddqWord => sem_addq16(m1, op),
        Opcode::AddqLong => sem_addq32(m1, op),
        Opcode::SubByte => sem_sub8(m1, op),
        Opcode::SubWord => sem_sub16(m1, op),
        Opcode::SubiByte => sem_subi8(m1, op),
        Opcode::SubaLong => sem_suba(m1, op),
        Opcode::SubqWord => sem_subq16(m1, op),
        Opcode::SubqLong => sem_subq32(m1, op),
        Opcode::MuluWord => sem_mulu(m1, op),
        Opcode::AndByte => sem_and8(m1, op),
        Opcode::AndWord => sem_and16(m1, op),
        Opcode::AndLong => sem_and32(m1, op),
        Opcode::AndiWord => sem_andi16(m1, op),
        Opcode::OrByte => sem_or8(m1, op),
        Opcode::OrWord => sem_or16(m1, op),
        Opcode::OriByte => sem_ori8(m1, op),
        Opcode::OriWord => sem_ori16(m1, op),
        Opcode::EorByte => sem_eor8(m1, op),
        Opcode::EoriByte => sem_eori8(m1, op),
        Opcode::EoriWord => sem_eori16(m1, op),
        Opcode::AslImByte => sem_asl8(m1, op),
        Opcode::AslImWord => sem_asl16(m1, op),
        Opcode::AslImLong => sem_asl32(m1, op),
        Opcode::LsrImByte => sem_lsr8(m1, op),
        Opcode::LsrImWord => sem_lsr16(m1, op),
        Opcode::LslImWord => sem_lsl16(m1, op),
        Opcode::RorImWord => sem_ror16(m1, op),
        Opcode::RolWord => sem_rol16_reg(m1, op),
        Opcode::RolImByte => sem_rol8(m1, op),
        Opcode::ExtWord => sem_ext16(m1, op),
        Opcode::Bra => sem_bcond(m1, op, true),
        Opcode::Bcc => sem_bcond(m1, op, taken_bcc(m1.sr)),
        Opcode::Bcs => sem_bcond(m1, op, taken_bcs(m1.sr)),
        Opcode::Bne => sem_bcond(m1, op, taken_bne(m1.sr)),
        Opcode::Beq => sem_bcond(m1, op, taken_beq(m1.sr)),
        Opcode::Bpl => sem_bcond(m1, op, taken_bpl(m1.sr)),
        Opcode::Bmi => sem_bcond(m1, op, taken_bmi(m1.sr)),
        Opcode::Bge => sem_bcond(m1, op, taken_bge(m1.sr)),
        Opcode::Blt => sem_bcond(m1, op, taken_blt(m1.sr)),
        Opcode::Bgt => sem_bcond(m1, op, taken_bgt(m1.sr)),
        Opcode::Ble => sem_bcond(m1, op, taken_ble(m1.sr)),
        Opcode::Dbra => sem_dbra(m1, op),
        Opcode::Bsr => sem_bsr(m1, op),
        Opcode::JsrA => sem_jsr(m1, op),
        Opcode::Rts => sem_rts(m1),
        Opcode::Rte => sem_rts(m1),
        Opcode::Trap => sem_trap(m1, op),
        Opcode::Reset => Some(m1),
    }
}

/// `n` architectural steps, or the fault that stops them.
pub open spec fn spec_run(m: Machine, n: nat) -> Option<Machine>
    decreases n,
{
    if n == 0 {
        Some(m)
    } else {
        match spec_step(m) {
            None => None,
            Some(m2) => spec_run(m2, (n - 1) as nat),
        }
    }
}

impl<B: BusTrait> Cpu<B> {
    /// Runs one instruction. On a fault the interpreter reports the program
    /// counter of the instruction and its first word; the machine state then
    /// reflects the work done up to the fault.
    #[verifier::rlimit(100)]
    pub fn step(&mut self) -> (r: Result<(), Fault>)
        requires
            old(self).wf(),
        ensures
            final(self).wf(),
            match r {
                Ok(()) => spec_step(old(self).st()) == Some(final(self).st()),
                Err(f) => spec_step(old(self).st()) is None && f.pc == old(self).st().pc && f.op
                    == rd16(old(self).st(), old(self).st().pc),
            },
    {
        proof {
            reveal(spec_step);
        }
        let startadr = self.regs.pc;
        let op = self.read16(startadr);
        self.regs.pc = self.regs.pc.wrapping_add(2);
        let ok = match self.table.lookup(op) {
            Opcode::Unknown => {
                return Err(Fault { kind: FaultKind::UnknownOpcode, pc: startadr, op });
            },
            Opcode::Cmp2Byte => {
                return Err(Fault { kind: FaultKind::UnknownOpcode, pc: startadr, op });
            },
            Opcode::Nop => true,
            Opcode::Reset => true,
            Opcode::MoveByte => self.op_move8(op),
            Opcode::MoveWord => self.op_move16(op),
            Opcode::MoveLong => self.op_move32(op),
            Opcode::Moveq => {
                self.op_moveq(op);
                true
            },
            Opcode::MovemFrom => {
                self.op_movem_from(op);
                true
            },
            Opcode::MovemTo => {
                self.op_movem_to(op);
                true
            },
            Opcode::MoveToSr => self.op_move_to_sr(op),
            Opcode::MoveFromSr => self.op_move_from_sr(op),
            Opcode::LeaDirect => {
                self.op_lea_direct(op);
                true
            },
            Opcode::LeaOffset => {
                self.op_lea_offset(op);
                true
            },
            Opcode::LeaOffsetD => self.op_lea_offset_d(op),
            Opcode::LeaOffsetPc => {
                self.op_lea_offset_pc(op);
                true
            },
            Opcode::ClrByte => self.op_clr8(op),
            Opcode::ClrWord => self.op_clr16(op),
            Opcode::ClrLong => self.op_clr32(op),
            Opcode::Swap => {
                self.op_swap(op);
                true
            },
            Opcode::CmpByte => self.op_cmp8(op),
            Opcode::CmpWord => self.op_cmp16(op),
            Opcode::CmpLong => self.op_cmp32(op),
            Opcode::CmpiByte => self.op_cmpi8(op),
            Opcode::CmpiWord => self.op_cmpi16(op),
            Opcode::CmpaLong => self.op_cmpa(op),
            Opcode::CmpmByte => {
                self.op_cmpm8(op);
                true
            },
            Opcode::TstByte => self.op_tst8(op),
            Opcode::TstWord => self.op_tst16(op),
            Opcode::TstLong => self.op_tst32(op),
            Opcode::BtstIm => self.op_btst_im(op),
            Opcode::BclrIm => self.op_bclr_im(op),
            Opcode::Bset => self.op_bset_reg(op),
            Opcode::BsetIm => self.op_bset_im(op),
            Opcode::AddByte => self.op_add8(op),
            Opcode::AddWord => self.op_add16(op),
            Opcode::AddLong => self.op_add32(op),
            Opcode::AddiByte => self.op_addi8(op),
            Opcode::AddiWord => self.op_addi16(op),
            Opcode::AddaLong => self.op_adda(op),
            Opcode::AddqByte => self.op_addq8(op),
            Opcode::AddqWord => self.op_addq16(op),
            Opcode::AddqLong => self.op_addq32(op),
            Opcode::SubByte => self.op_sub8(op),
            Opcode::SubWord => self.op_sub16(op),
            Opcode::SubiByte => self.op_subi8(op),
            Opcode::SubaLong => self.op_suba(op),
            Opcode::SubqWord => self.op_subq16(op),
            Opcode::SubqLong => self.op_subq32(op),
            Opcode::MuluWord => self.op_mulu(op),
            Opcode::AndByte => self.op_and8(op),
            Opcode::AndWord => self.op_and16(op),
            Opcode::AndLong => self.op_and32(op),
            Opcode::AndiWord => self.op_andi16(op),
            Opcode::OrByte => self.op_or8(op),
            Opcode::OrWord => self.op_or16(op),
            Opcode::OriByte => self.op_ori8(op),
            Opcode::OriWord => self.op_ori16(op),
            Opcode::EorByte => self.op_eor8(op),
            Opcode::EoriByte => self.op_eori8(op),
            Opcode::EoriWord => self.op_eori16(op),
            Opcode::AslImByte => {
                self.op_asl8(op);
                true
            },
            Opcode::AslImWord => {
                self.op_asl16(op);
                true
            },
            Opcode::AslImLong => {
                self.op_asl32(op);
                true
            },
            Opcode::LsrImByte => {
                self.op_lsr8(op);
                true
            },
            Opcode::LsrImWord => {
                self.op_lsr16(op);
                true
            },
            Opcode::LslImWord => {
                self.op_lsl16(op);
                true
            },
            Opcode::RorImWord => {
                self.op_ror16(op);
                true
            },
            Opcode::RolWord => {
                self.op_rol16_reg(op);
                true
            },
            Opcode::RolImByte => {
                self.op_rol8(op);
                true
            },
            Opcode::ExtWord => {
                self.op_ext16(op);
                true
            },
            Opcode::Bra => {
                self.bcond(op, true);
                true
            },
            Opcode::Bcc => {
                let c = self.regs.sr % 2 == 0;
                self.bcond(op, c);
                true
            },
            Opcode::Bcs => {
                let c = self.regs.sr % 2 == 1;
                self.bcond(op, c);
                true
            },
            Opcode::Bne => {
                let c = (self.regs.sr / 4) % 2 == 0;
                self.bcond(op, c);
                true
            },
            Opcode::Beq => {
                let c = (self.regs.sr / 4) % 2 == 1;
                self.bcond(op, c);
                true
            },
            Opcode::Bpl => {
                let c = (self.regs.sr / 8) % 2 == 0;
                self.bcond(op, c);
                true
            },
            Opcode::Bmi => {
                let c = (self.regs.sr / 8) % 2 == 1;
                self.bcond(op, c);
                true
            },
            Opcode::Bge => {
                let n = (self.regs.sr / 8) % 2 == 1;
                let v = (self.regs.sr / 2) % 2 == 1;
                self.bcond(op, (n && v) || (!n && !v));
                true
            },
            Opcode::Blt => {
                let n = (self.regs.sr / 8) % 2 == 1;
                let v = (self.regs.sr / 2) % 2 == 1;
                self.bcond(op, (n && !v) || (!n && v));
                true
            },
            Opcode::Bgt => {
                let z = (self.regs.sr / 4) % 2 == 1;
                let n = (self.regs.sr / 8) % 2 == 1;
                let v = (self.regs.sr / 2) % 2 == 1;
                self.bcond(op, !z && ((n && v) || (!n && !v)));
                true
            },
            Opcode::Ble => {
                let z = (self.regs.sr / 4) % 2 == 1;
                let n = (self.regs.sr / 8) % 2 == 1;
                let v = (self.regs.sr / 2) % 2 == 1;
                self.bcond(op, z || (n && !v) || (!n && v));
                true
            },
            Opcode::Dbra => {
                self.op_dbra(op);
                true
            },
            Opcode::Bsr => {
                self.op_bsr(op);
                true
            },
            Opcode::JsrA => self.op_jsr(op),
            Opcode::Rts => {
                self.op_rts();
                true
            },
            Opcode::Rte => {
                self.op_rts();
                true
            },
            Opcode::Trap => {
                self.op_trap(op);
                true
            },
        };
        if ok {
            Ok(())
        } else {
            Err(Fault { kind: FaultKind::Unsupported, pc: startadr, op })
        }
    }

    /// Runs a batch of `cycles` instructions, stopping at the first fault.
    pub fn run_cycles(&mut self, cycles: usize) -> (r: Result<(), Fault>)
        requires
            old(self).wf(),
        ensures
            final(self).wf(),
            match r {
                Ok(()) => spec_run(old(self).st(), cycles as nat) == Some(final(self).st()),
                Err(f) => spec_run(old(self).st(), cycles as nat) is None,
            },
    {
        let mut i: usize = 0;
        while i < cycles
            invariant
                self.wf(),
                i <= cycles,
                spec_run(old(self).st(), cycles as nat) == spec_run(
                    self.st(),
                    (cycles - i) as nat,
                ),
            decreases cycles - i,
        {
            let ghost pre = self.st();
            match self.step() {
                Ok(()) => {},
                Err(f) => {
                    proof {
                        assert(spec_run(pre, (cycles - i) as nat) is None);
                    }
                    return Err(f);
                },
            }
            proof {
                assert(spec_run(pre, (cycles - i) as nat) == spec_run(
                    self.st(),
                    (cycles - i - 1) as nat,
                ));
            }
            i = i + 1;
        }
        Ok(())
    }
}

} // verus!







