//! The mathematical model of the architectural state: eight data registers,
//! eight address registers (`A7` is the stack pointer), program counter,
//! status register, and the byte-addressable memory seen through the bus.
//! Contracts throughout the crate are stated over this model.

use vstd::prelude::*;
use crate::arith::{
    byte1, byte2, byte3, hi8_of16, join16, join32, low8, low8_of16, mask24, neg8, neg16, neg32,
    wadd32, wsub32,
};
use vstd::wrapping::u8_specs;
use vstd::wrapping::u16_specs;
use vstd::wrapping::u32_specs;

verus! {

/// Architectural state: registers plus the memory visible through the bus,
/// keyed by 24-bit addresses.
pub ghost struct Machine {
    pub d: Seq<u32>,
    pub a: Seq<u32>,
    pub pc: u32,
    pub sr: u16,
    pub mem: Map<u32, u8>,
}

pub open spec fn machine_wf(m: Machine) -> bool {
    m.d.len() == 8 && m.a.len() == 8
}

// ---------------------------------------------------------------------------
// Memory, big-endian.

/// One byte of bus memory; the bus decodes 24 address bits.
pub open spec fn mem_rd8(mem: Map<u32, u8>, adr: u32) -> u8 {
    mem[mask24(adr)]
}

pub open spec fn mem_rd16(mem: Map<u32, u8>, adr: u32) -> u16 {
    join16(mem_rd8(mem, adr), mem_rd8(mem, wadd32(adr, 1)))
}

pub open spec fn mem_rd32(mem: Map<u32, u8>, adr: u32) -> u32 {
    join32(
        mem_rd8(mem, adr),
        mem_rd8(mem, wadd32(adr, 1)),
        mem_rd8(mem, wadd32(adr, 2)),
        mem_rd8(mem, wadd32(adr, 3)),
    )
}

pub open spec fn mem_wr8(mem: Map<u32, u8>, adr: u32, v: u8) -> Map<u32, u8> {
    mem.insert(mask24(adr), v)
}

pub open spec fn mem_wr16(mem: Map<u32, u8>, adr: u32, v: u16) -> Map<u32, u8> {
    mem_wr8(mem_wr8(mem, adr, hi8_of16(v)), wadd32(adr, 1), low8_of16(v))
}

pub open spec fn mem_wr32(mem: Map<u32, u8>, adr: u32, v: u32) -> Map<u32, u8> {
    mem_wr8(
        mem_wr8(
            mem_wr8(mem_wr8(mem, adr, byte3(v)), wadd32(adr, 1), byte2(v)),
            wadd32(adr, 2),
            byte1(v),
        ),
        wadd32(adr, 3),
        low8(v),
    )
}

pub open spec fn rd8(m: Machine, adr: u32) -> u8 {
    mem_rd8(m.mem, adr)
}

pub open spec fn rd16(m: Machine, adr: u32) -> u16 {
    mem_rd16(m.mem, adr)
}

pub open spec fn rd32(m: Machine, adr: u32) -> u32 {
    mem_rd32(m.mem, adr)
}

pub open spec fn wr8(m: Machine, adr: u32, v: u8) -> Machine {
    Machine { mem: mem_wr8(m.mem, adr, v), ..m }
}

pub open spec fn wr16(m: Machine, adr: u32, v: u16) -> Machine {
    Machine { mem: mem_wr16(m.mem, adr, v), ..m }
}

pub open spec fn wr32(m: Machine, adr: u32, v: u32) -> Machine {
    Machine { mem: mem_wr32(m.mem, adr, v), ..m }
}

// ---------------------------------------------------------------------------
// Register updates.

pub open spec fn with_d(m: Machine, i: int, v: u32) -> Machine {
    Machine { d: m.d.update(i, v), ..m }
}

pub open spec fn with_a(m: Machine, i: int, v: u32) -> Machine {
    Machine { a: m.a.update(i, v), ..m }
}

pub open spec fn with_pc(m: Machine, pc: u32) -> Machine {
    Machine { pc: pc, ..m }
}

pub open spec fn with_sr(m: Machine, sr: u16) -> Machine {
    Machine { sr: sr, ..m }
}

/// The program counter stepped over `k` bytes of instruction stream.
pub open spec fn pc_plus(m: Machine, k: u32) -> Machine {
    with_pc(m, wadd32(m.pc, k))
}

// ---------------------------------------------------------------------------
// Stack discipline: `A7` moves by 4 around each long transfer.

pub open spec fn push32s(m: Machine, v: u32) -> Machine {
    let sp = wsub32(m.a[7], 4);
    wr32(with_a(m, 7, sp), sp, v)
}

/// The value popped and the state after popping.
pub open spec fn pop32s(m: Machine) -> (Machine, u32) {
    (with_a(m, 7, wadd32(m.a[7], 4)), rd32(m, m.a[7]))
}

// ---------------------------------------------------------------------------
// The condition-code register: C=bit 0, V=bit 1, Z=bit 2, N=bit 3, X=bit 4.

pub open spec fn flag_c(sr: u16) -> bool {
    sr % 2 == 1
}

pub open spec fn flag_v(sr: u16) -> bool {
    (sr / 2) % 2 == 1
}

pub open spec fn flag_z(sr: u16) -> bool {
    (sr / 4) % 2 == 1
}

pub open spec fn flag_n(sr: u16) -> bool {
    (sr / 8) % 2 == 1
}

pub open spec fn flag_x(sr: u16) -> bool {
    (sr / 16) % 2 == 1
}

/// The low nibble assembled from the four tested condition codes.
pub open spec fn ccr_nibble(c: bool, v: bool, z: bool, n: bool) -> u16 {
    ((if c { 1u16 } else { 0u16 }) + (if v { 2u16 } else { 0u16 }) + (if z { 4u16 } else { 0u16 })
        + (if n { 8u16 } else { 0u16 })) as u16
}

/// `sr` with N, Z, V and C replaced and X and the upper bits preserved.
pub open spec fn sr_set_nzvc(sr: u16, c: bool, v: bool, z: bool, n: bool) -> u16 {
    ((sr - sr % 16) + ccr_nibble(c, v, z, n)) as u16
}

/// `sr` with X, N, Z, V and C all replaced (shifts write X as well).
pub open spec fn sr_set_xnzvc(sr: u16, x: bool, c: bool, v: bool, z: bool, n: bool) -> u16 {
    ((sr - sr % 32) + ccr_nibble(c, v, z, n) + (if x { 16u16 } else { 0u16 })) as u16
}

/// `sr` with only Z replaced.
pub open spec fn sr_set_z(sr: u16, z: bool) -> u16 {
    ((sr - (sr / 4 % 2) * 4) + (if z { 4u16 } else { 0u16 })) as u16
}

// ---------------------------------------------------------------------------
// Flag outcomes of the operation families (the reference formulas).

/// After a move or a logical operation: Z and N from the value, V and C cleared.
pub open spec fn sr_logical8(sr: u16, v: u8) -> u16 {
    sr_set_nzvc(sr, false, false, v == 0, neg8(v))
}

pub open spec fn sr_logical16(sr: u16, v: u16) -> u16 {
    sr_set_nzvc(sr, false, false, v == 0, neg16(v))
}

pub open spec fn sr_logical32(sr: u16, v: u32) -> u16 {
    sr_set_nzvc(sr, false, false, v == 0, neg32(v))
}

/// After `CMP`-family operations on bytes: flags of `dst - src`, result discarded.
/// `C = dst <u src`, `Z = dst == src`, `V` from the two's-complement overflow
/// formula, `N` from the sign of the difference.
pub open spec fn sr_cmp8(sr: u16, src: u8, dst: u8) -> u16 {
    let res = u8_specs::wrapping_sub(dst, src);
    sr_set_nzvc(
        sr,
        dst < src,
        ((src ^ dst) & (res ^ dst)) >= 0x80,
        dst == src,
        neg8(res),
    )
}

pub open spec fn sr_cmp16(sr: u16, src: u16, dst: u16) -> u16 {
    let res = u16_specs::wrapping_sub(dst, src);
    sr_set_nzvc(
        sr,
        dst < src,
        ((src ^ dst) & (res ^ dst)) >= 0x8000,
        dst == src,
        neg16(res),
    )
}

pub open spec fn sr_cmp32(sr: u16, src: u32, dst: u32) -> u16 {
    let res = u32_specs::wrapping_sub(dst, src);
    sr_set_nzvc(
        sr,
        dst < src,
        ((src ^ dst) & (res ^ dst)) >= 0x80000000,
        dst == src,
        neg32(res),
    )
}

// ---------------------------------------------------------------------------
// Branch predicates over the condition codes (the Bcc table).

pub open spec fn taken_bcc(sr: u16) -> bool {
    !flag_c(sr)
}

pub open spec fn taken_bcs(sr: u16) -> bool {
    flag_c(sr)
}

pub open spec fn taken_bne(sr: u16) -> bool {
    !flag_z(sr)
}

pub open spec fn taken_beq(sr: u16) -> bool {
    flag_z(sr)
}

pub open spec fn taken_bpl(sr: u16) -> bool {
    !flag_n(sr)
}

pub open spec fn taken_bmi(sr: u16) -> bool {
    flag_n(sr)
}

pub open spec fn taken_bge(sr: u16) -> bool {
    (flag_n(sr) && flag_v(sr)) || (!flag_n(sr) && !flag_v(sr))
}

pub open spec fn taken_blt(sr: u16) -> bool {
    (flag_n(sr) && !flag_v(sr)) || (!flag_n(sr) && flag_v(sr))
}

pub open spec fn taken_bgt(sr: u16) -> bool {
    !flag_z(sr) && taken_bge(sr)
}

pub open spec fn taken_ble(sr: u16) -> bool {
    flag_z(sr) || taken_blt(sr)
}

} // verus!
