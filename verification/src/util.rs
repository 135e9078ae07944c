//! Small decoding helpers shared by the interpreter and the disassembler.

use vstd::prelude::*;
use crate::arith::{sext8to32, sext16to32};
use crate::bus::BusTrait;
use crate::model::{mem_rd16, mem_rd32};

verus! {

/// The small-constant mapping of ADDQ/SUBQ and the shift instructions: the
/// 3-bit field maps 0 to 8 and 1..7 to themselves.
pub open spec fn quick_value(x: u16) -> u16 {
    if x % 8 == 0 {
        8
    } else {
        x % 8
    }
}

pub fn conv07to18(x: u16) -> (r: u16)
    ensures
        r == quick_value(x),
        1 <= r <= 8,
{
    let f = x % 8;
    if f == 0 {
        8
    } else {
        f
    }
}

/// Branch displacement decoding over the memory view: the low opcode byte is
/// the inline signed 8-bit offset, except that `0x00` selects a 16-bit
/// extension word and `0xff` a 32-bit extension long at `adr`. Yields the
/// offset, wrapped to 32 bits, and the number of extension bytes consumed.
pub open spec fn branch_offset(mem: Map<u32, u8>, op: u16, adr: u32) -> (u32, u32) {
    let b = op % 0x100;
    if b == 0 {
        (sext16to32(mem_rd16(mem, adr)), 2u32)
    } else if b == 0xff {
        (mem_rd32(mem, adr), 4u32)
    } else {
        (sext8to32((b) as u8), 0u32)
    }
}

/// Reads the branch offset of `op` whose extension words, if any, sit at
/// `adr`. Returns the offset wrapped to 32 bits and the bytes consumed.
pub fn get_branch_offset<B: BusTrait>(op: u16, bus: &B, adr: u32) -> (r: (u32, u32))
    requires
        bus.wf(),
    ensures
        r == branch_offset(bus.mem(), op, adr),
{
    let b = op % 0x100;
    if b == 0 {
        let w = bus.read16(adr);
        (crate::arith::sign_extend16(w), 2)
    } else if b == 0xff {
        (bus.read32(adr), 4)
    } else {
        (crate::arith::sign_extend8(b as u8), 0)
    }
}

} // verus!
