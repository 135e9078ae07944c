//! The laws of the core, stated and proved once for all inputs: table
//! completeness, endian round-trips, the condition-code formulas of the
//! compare family, preservation of unaffected register bytes, and
//! read-after-write round-trips of the register and memory addressing modes.

use vstd::prelude::*;
use vstd::arithmetic::div_mod::{lemma_add_mod_noop, lemma_mod_multiples_vanish, lemma_small_mod};
use crate::arith::{
    lemma_join_split16, lemma_join_split32, lemma_set_low8_upper, lemma_set_low16_upper, low8,
    low16, mask24, wadd32, wsub8, wsub16, wsub32, neg8, neg16, neg32,
};
use crate::cpu::{
    ea_read8, ea_read16, ea_read32, ea_write8, ea_write16, ea_write32, movem_from_a, movem_from_d,
    movem_to_a, movem_to_d, sem_move8, sem_move16, spec_step,
};
use crate::disasm::{dst_len8, dst_len16, instr_len, src_len8, src_len16, src_len32};
use crate::opcode::{fld0, fld3, fld6, fld9};
use crate::model::{
    Machine, machine_wf, mem_rd8, mem_rd16, mem_rd32, mem_wr8, mem_wr16, mem_wr32, flag_c, flag_n,
    flag_v, flag_x, flag_z, ccr_nibble, pc_plus, rd16, sr_set_nzvc, sr_cmp8, sr_cmp16, sr_cmp32,
};
use crate::opcode::{Opcode, OpTable, decode};

verus! {

// ---------------------------------------------------------------------------
// Address arithmetic under the 24-bit bus decoding.

/// Stepping an address by less than the bus span steps its decoded 24-bit
/// form by the same amount, modulo the span.
proof fn lemma_mask24_step(adr: u32, k: u32)
    requires
        k < 0x1000000,
    ensures
        mask24(wadd32(adr, k)) == (mask24(adr) + k) % 0x1000000,
{
    lemma_add_mod_noop(adr as int, k as int, 0x1000000);
    lemma_small_mod(k as nat, 0x1000000);
    if adr + k > u32::MAX {
        lemma_mod_multiples_vanish(-0x100, adr + k, 0x1000000);
    }
}

/// Two different small offsets from one base decode to different bus cells.
proof fn lemma_mask24_distinct(adr: u32, j: u32, k: u32)
    requires
        j < k < 0x1000000,
    ensures
        mask24(wadd32(adr, j)) != mask24(wadd32(adr, k)),
{
    lemma_mask24_step(adr, j);
    lemma_mask24_step(adr, k);
    let x = mask24(adr);
    if x + j < 0x1000000 {
        lemma_small_mod((x + j) as nat, 0x1000000);
    } else {
        lemma_mod_multiples_vanish(-1, x + j, 0x1000000);
        lemma_small_mod((x + j - 0x1000000) as nat, 0x1000000);
    }
    if x + k < 0x1000000 {
        lemma_small_mod((x + k) as nat, 0x1000000);
    } else {
        lemma_mod_multiples_vanish(-1, x + k, 0x1000000);
        lemma_small_mod((x + k - 0x1000000) as nat, 0x1000000);
    }
}

// ---------------------------------------------------------------------------
// Table completeness: every 16-bit word has a defined tag in a well-formed
// table, and every tag is reached by some word.

/// Each of the 65 536 entries of a well-formed table is the decoded tag.
pub proof fn lemma_table_total(t: &OpTable, op: u16)
    requires
        t.wf(),
    ensures
        t.table[op as int] == decode(op),
{
}

/// Every operation tag is the decoding of at least one 16-bit word.
pub proof fn lemma_every_opcode_reachable(t: Opcode)
    ensures
        exists|op: u16| decode(op) == t,
{
    match t {
        Opcode::Unknown => {
            assert(decode(0xffff) == Opcode::Unknown);
        },
        Opcode::Nop => {
            assert(decode(0x4e71) == Opcode::Nop);
        },
        Opcode::MoveByte => {
            assert(decode(0x1000) == Opcode::MoveByte);
        },
        Opcode::MoveWord => {
            assert(decode(0x3000) == Opcode::MoveWord);
        },
        Opcode::MoveLong => {
            assert(decode(0x2000) == Opcode::MoveLong);
        },
        Opcode::Moveq => {
            assert(decode(0x7000) == Opcode::Moveq);
        },
        Opcode::MovemFrom => {
            assert(decode(0x48e0) == Opcode::MovemFrom);
        },
        Opcode::MovemTo => {
            assert(decode(0x4cd8) == Opcode::MovemTo);
        },
        Opcode::MoveToSr => {
            assert(decode(0x46c0) == Opcode::MoveToSr);
        },
        Opcode::MoveFromSr => {
            assert(decode(0x40c0) == Opcode::MoveFromSr);
        },
        Opcode::LeaDirect => {
            assert(decode(0x41f9) == Opcode::LeaDirect);
        },
        Opcode::LeaOffset => {
            assert(decode(0x41e8) == Opcode::LeaOffset);
        },
        Opcode::LeaOffsetD => {
            assert(decode(0x41f0) == Opcode::LeaOffsetD);
        },
        Opcode::LeaOffsetPc => {
            assert(decode(0x41fa) == Opcode::LeaOffsetPc);
        },
        Opcode::ClrByte => {
            assert(decode(0x4200) == Opcode::ClrByte);
        },
        Opcode::ClrWord => {
            assert(decode(0x4240) == Opcode::ClrWord);
        },
        Opcode::ClrLong => {
            assert(decode(0x4280) == Opcode::ClrLong);
        },
        Opcode::Swap => {
            assert(decode(0x4840) == Opcode::Swap);
        },
        Opcode::CmpByte => {
            assert(decode(0xb000) == Opcode::CmpByte);
        },
        Opcode::CmpWord => {
            assert(decode(0xb040) == Opcode::CmpWord);
        },
        Opcode::CmpLong => {
            assert(decode(0xb080) == Opcode::CmpLong);
        },
        Opcode::CmpiByte => {
            assert(decode(0x0c00) == Opcode::CmpiByte);
        },
        Opcode::CmpiWord => {
            assert(decode(0x0c40) == Opcode::CmpiWord);
        },
        Opcode::CmpaLong => {
            assert(decode(0xb1c0) == Opcode::CmpaLong);
        },
        Opcode::CmpmByte => {
            assert(decode(0xb108) == Opcode::CmpmByte);
        },
        Opcode::Cmp2Byte => {
            assert(decode(0x00e8) == Opcode::Cmp2Byte);
        },
        Opcode::TstByte => {
            assert(decode(0x4a00) == Opcode::TstByte);
        },
        Opcode::TstWord => {
            assert(decode(0x4a40) == Opcode::TstWord);
        },
        Opcode::TstLong => {
            assert(decode(0x4a80) == Opcode::TstLong);
        },
        Opcode::BtstIm => {
            assert(decode(0x0800) == Opcode::BtstIm);
        },
        Opcode::BclrIm => {
            assert(decode(0x0880) == Opcode::BclrIm);
        },
        Opcode::Bset => {
            assert(decode(0x01c0) == Opcode::Bset);
        },
        Opcode::BsetIm => {
            assert(decode(0x08c0) == Opcode::BsetIm);
        },
        Opcode::AddByte => {
            assert(decode(0xd000) == Opcode::AddByte);
        },
        Opcode::AddWord => {
            assert(decode(0xd040) == Opcode::AddWord);
        },
        Opcode::AddLong => {
            assert(decode(0xd080) == Opcode::AddLong);
        },
        Opcode::AddiByte => {
            assert(decode(0x0600) == Opcode::AddiByte);
        },
        Opcode::AddiWord => {
            assert(decode(0x0640) == Opcode::AddiWord);
        },
        Opcode::AddaLong => {
            assert(decode(0xd1c0) == Opcode::AddaLong);
        },
        Opcode::AddqByte => {
            assert(decode(0x5000) == Opcode::AddqByte);
        },
        Opcode::AddqWord => {
            assert(decode(0x5040) == Opcode::AddqWord);
        },
        Opcode::AddqLong => {
            assert(decode(0x5080) == Opcode::AddqLong);
        },
        Opcode::SubByte => {
            assert(decode(0x9000) == Opcode::SubByte);
        },
        Opcode::SubWord => {
            assert(decode(0x9040) == Opcode::SubWord);
        },
        Opcode::SubiByte => {
            assert(decode(0x0400) == Opcode::SubiByte);
        },
        Opcode::SubaLong => {
            assert(decode(0x91c0) == Opcode::SubaLong);
        },
        Opcode::SubqWord => {
            assert(decode(0x5140) == Opcode::SubqWord);
        },
        Opcode::SubqLong => {
            assert(decode(0x5180) == Opcode::SubqLong);
        },
        Opcode::MuluWord => {
            assert(decode(0xc0c0) == Opcode::MuluWord);
        },
        Opcode::AndByte => {
            assert(decode(0xc000) == Opcode::AndByte);
        },
        Opcode::AndWord => {
            assert(decode(0xc040) == Opcode::AndWord);
        },
        Opcode::AndLong => {
            assert(decode(0xc080) == Opcode::AndLong);
        },
        Opcode::AndiWord => {
            assert(decode(0x0240) == Opcode::AndiWord);
        },
        Opcode::OrByte => {
            assert(decode(0x8000) == Opcode::OrByte);
        },
        Opcode::OrWord => {
            assert(decode(0x8040) == Opcode::OrWord);
        },
        Opcode::OriByte => {
            assert(decode(0x0000) == Opcode::OriByte);
        },
        Opcode::OriWord => {
            assert(decode(0x0040) == Opcode::OriWord);
        },
        Opcode::EorByte => {
            assert(decode(0xb100) == Opcode::EorByte);
        },
        Opcode::EoriByte => {
            assert(decode(0x0a00) == Opcode::EoriByte);
        },
        Opcode::EoriWord => {
            assert(decode(0x0a40) == Opcode::EoriWord);
        },
        Opcode::AslImByte => {
            assert(decode(0xe100) == Opcode::AslImByte);
        },
        Opcode::AslImWord => {
            assert(decode(0xe140) == Opcode::AslImWord);
        },
        Opcode::AslImLong => {
            assert(decode(0xe180) == Opcode::AslImLong);
        },
        Opcode::LsrImByte => {
            assert(decode(0xe008) == Opcode::LsrImByte);
        },
        Opcode::LsrImWord => {
            assert(decode(0xe048) == Opcode::LsrImWord);
        },
        Opcode::LslImWord => {
            assert(decode(0xe148) == Opcode::LslImWord);
        },
        Opcode::RorImWord => {
            assert(decode(0xe058) == Opcode::RorImWord);
        },
        Opcode::RolWord => {
            assert(decode(0xe178) == Opcode::RolWord);
        },
        Opcode::RolImByte => {
            assert(decode(0xe118) == Opcode::RolImByte);
        },
        Opcode::ExtWord => {
            assert(decode(0x4880) == Opcode::ExtWord);
        },
        Opcode::Bra => {
            assert(decode(0x6000) == Opcode::Bra);
        },
        Opcode::Bcc => {
            assert(decode(0x6400) == Opcode::Bcc);
        },
        Opcode::Bcs => {
            assert(decode(0x6500) == Opcode::Bcs);
        },
        Opcode::Bne => {
            assert(decode(0x6600) == Opcode::Bne);
        },
        Opcode::Beq => {
            assert(decode(0x6700) == Opcode::Beq);
        },
        Opcode::Bpl => {
            assert(decode(0x6a00) == Opcode::Bpl);
        },
        Opcode::Bmi => {
            assert(decode(0x6b00) == Opcode::Bmi);
        },
        Opcode::Bge => {
            assert(decode(0x6c00) == Opcode::Bge);
        },
        Opcode::Blt => {
            assert(decode(0x6d00) == Opcode::Blt);
        },
        Opcode::Bgt => {
            assert(decode(0x6e00) == Opcode::Bgt);
        },
        Opcode::Ble => {
            assert(decode(0x6f00) == Opcode::Ble);
        },
        Opcode::Dbra => {
            assert(decode(0x51c8) == Opcode::Dbra);
        },
        Opcode::Bsr => {
            assert(decode(0x6100) == Opcode::Bsr);
        },
        Opcode::JsrA => {
            assert(decode(0x4e90) == Opcode::JsrA);
        },
        Opcode::Rts => {
            assert(decode(0x4e75) == Opcode::Rts);
        },
        Opcode::Rte => {
            assert(decode(0x4e73) == Opcode::Rte);
        },
        Opcode::Trap => {
            assert(decode(0x4e40) == Opcode::Trap);
        },
        Opcode::Reset => {
            assert(decode(0x4e70) == Opcode::Reset);
        },
    }
}

// ---------------------------------------------------------------------------
// Endian round-trips: a big-endian store read back at the same address is
// the identity, at every width.

pub proof fn lemma_endian_roundtrip8(mem: Map<u32, u8>, adr: u32, v: u8)
    ensures
        mem_rd8(mem_wr8(mem, adr, v), adr) == v,
{
}

pub proof fn lemma_endian_roundtrip16(mem: Map<u32, u8>, adr: u32, v: u16)
    ensures
        mem_rd16(mem_wr16(mem, adr, v), adr) == v,
{
    assert(wadd32(adr, 0) == adr);
    lemma_mask24_distinct(adr, 0, 1);
    lemma_join_split16(v);
}

pub proof fn lemma_endian_roundtrip32(mem: Map<u32, u8>, adr: u32, v: u32)
    ensures
        mem_rd32(mem_wr32(mem, adr, v), adr) == v,
{
    assert(wadd32(adr, 0) == adr);
    lemma_mask24_distinct(adr, 0, 1);
    lemma_mask24_distinct(adr, 0, 2);
    lemma_mask24_distinct(adr, 0, 3);
    lemma_mask24_distinct(adr, 1, 2);
    lemma_mask24_distinct(adr, 1, 3);
    lemma_mask24_distinct(adr, 2, 3);
    lemma_join_split32(v);
}

// ---------------------------------------------------------------------------
// The condition codes written by the compare family are exactly the
// reference formulas, and X is untouched.

proof fn lemma_ccr_bits(sr: u16, c: bool, v: bool, z: bool, n: bool)
    ensures
        flag_c(sr_set_nzvc(sr, c, v, z, n)) == c,
        flag_v(sr_set_nzvc(sr, c, v, z, n)) == v,
        flag_z(sr_set_nzvc(sr, c, v, z, n)) == z,
        flag_n(sr_set_nzvc(sr, c, v, z, n)) == n,
        flag_x(sr_set_nzvc(sr, c, v, z, n)) == flag_x(sr),
{
    let nib = ccr_nibble(c, v, z, n);
    let t = sr_set_nzvc(sr, c, v, z, n);
    assert(t % 2 == nib % 2 && (t / 2) % 2 == (nib / 2) % 2 && (t / 4) % 2 == (nib / 4) % 2 && (t
        / 8) % 2 == (nib / 8) % 2 && (t / 16) % 2 == (sr / 16) % 2) by (bit_vector)
        requires
            t == ((sr - sr % 16) + nib) as u16,
            nib < 16,
    ;
}

/// After a byte compare, `C` is the unsigned borrow, `Z` equality, `N` the
/// sign of the difference, `V` the signed-overflow formula; `X` is kept.
pub proof fn lemma_cmp_flags8(sr: u16, src: u8, dst: u8)
    ensures
        flag_c(sr_cmp8(sr, src, dst)) == (dst < src),
        flag_z(sr_cmp8(sr, src, dst)) == (dst == src),
        flag_n(sr_cmp8(sr, src, dst)) == neg8(wsub8(dst, src)),
        flag_v(sr_cmp8(sr, src, dst)) == (((src ^ dst) & (wsub8(dst, src) ^ dst)) >= 0x80),
        flag_x(sr_cmp8(sr, src, dst)) == flag_x(sr),
{
    let res = wsub8(dst, src);
    lemma_ccr_bits(sr, dst < src, ((src ^ dst) & (res ^ dst)) >= 0x80, dst == src, neg8(res));
}

pub proof fn lemma_cmp_flags16(sr: u16, src: u16, dst: u16)
    ensures
        flag_c(sr_cmp16(sr, src, dst)) == (dst < src),
        flag_z(sr_cmp16(sr, src, dst)) == (dst == src),
        flag_n(sr_cmp16(sr, src, dst)) == neg16(wsub16(dst, src)),
        flag_v(sr_cmp16(sr, src, dst)) == (((src ^ dst) & (wsub16(dst, src) ^ dst)) >= 0x8000),
        flag_x(sr_cmp16(sr, src, dst)) == flag_x(sr),
{
    let res = wsub16(dst, src);
    lemma_ccr_bits(sr, dst < src, ((src ^ dst) & (res ^ dst)) >= 0x8000, dst == src, neg16(res));
}

pub proof fn lemma_cmp_flags32(sr: u16, src: u32, dst: u32)
    ensures
        flag_c(sr_cmp32(sr, src, dst)) == (dst < src),
        flag_z(sr_cmp32(sr, src, dst)) == (dst == src),
        flag_n(sr_cmp32(sr, src, dst)) == neg32(wsub32(dst, src)),
        flag_v(sr_cmp32(sr, src, dst)) == (((src ^ dst) & (wsub32(dst, src) ^ dst)) >= 0x80000000),
        flag_x(sr_cmp32(sr, src, dst)) == flag_x(sr),
{
    let res = wsub32(dst, src);
    lemma_ccr_bits(
        sr,
        dst < src,
        ((src ^ dst) & (res ^ dst)) >= 0x80000000,
        dst == src,
        neg32(res),
    );
}

// ---------------------------------------------------------------------------
// Partial-width preservation: a byte or word written into a data register
// leaves the unaffected upper bits exactly as they were.

pub proof fn lemma_partial_width8(m: Machine, reg: u16, v: u8)
    requires
        machine_wf(m),
        reg < 8,
    ensures
        ea_write8(m, 0, reg, v) matches Some(m2) ==> m2.d[reg as int] / 0x100 == m.d[reg as int]
            / 0x100 && low8(m2.d[reg as int]) == v,
{
    lemma_set_low8_upper(m.d[reg as int], v);
}

pub proof fn lemma_partial_width16(m: Machine, reg: u16, v: u16)
    requires
        machine_wf(m),
        reg < 8,
    ensures
        ea_write16(m, 0, reg, v) matches Some(m2) ==> m2.d[reg as int] / 0x10000 == m.d[reg as int]
            / 0x10000 && low16(m2.d[reg as int]) == v,
{
    lemma_set_low16_upper(m.d[reg as int], v);
}

// ---------------------------------------------------------------------------
// Addressing-mode round-trips: writing an operand and reading it back
// through the same register or memory-indirect form yields the value.

pub proof fn lemma_ea_roundtrip8(m: Machine, mode: u16, reg: u16, v: u8)
    requires
        machine_wf(m),
        reg < 8,
        mode == 0 || mode == 2,
    ensures
        ea_write8(m, mode, reg, v) matches Some(m2) ==> ea_read8(m2, mode, reg, true) == Some(
            (m2, v),
        ),
{
    if mode == 0 {
        lemma_set_low8_upper(m.d[reg as int], v);
    } else {
        lemma_endian_roundtrip8(m.mem, m.a[reg as int], v);
    }
}

pub proof fn lemma_ea_roundtrip16(m: Machine, mode: u16, reg: u16, v: u16)
    requires
        machine_wf(m),
        reg < 8,
        mode == 0 || mode == 2,
    ensures
        ea_write16(m, mode, reg, v) matches Some(m2) ==> ea_read16(m2, mode, reg, true) == Some(
            (m2, v),
        ),
{
    if mode == 0 {
        lemma_set_low16_upper(m.d[reg as int], v);
    } else {
        lemma_endian_roundtrip16(m.mem, m.a[reg as int], v);
    }
}

pub proof fn lemma_ea_roundtrip32(m: Machine, mode: u16, reg: u16, v: u32)
    requires
        machine_wf(m),
        reg < 8,
        mode == 0 || mode == 1 || mode == 2,
    ensures
        ea_write32(m, mode, reg, v) matches Some(m2) ==> ea_read32(m2, mode, reg, true) == Some(
            (m2, v),
        ),
{
    if mode == 2 {
        lemma_endian_roundtrip32(m.mem, m.a[reg as int], v);
    }
}


// ---------------------------------------------------------------------------
// Disassembler length agreement: for every instruction the interpreter runs
// without fault, the program counter moves past exactly the bytes the
// disassembler reports — on the fall-through path where one exists.

/// Operations that replace the program counter rather than stepping it.
pub open spec fn transfers_control(t: Opcode) -> bool {
    t == Opcode::Bra || t == Opcode::Bcc || t == Opcode::Bcs || t == Opcode::Bne || t
        == Opcode::Beq || t == Opcode::Bpl || t == Opcode::Bmi || t == Opcode::Bge || t
        == Opcode::Blt || t == Opcode::Bgt || t == Opcode::Ble || t == Opcode::Dbra || t
        == Opcode::Bsr || t == Opcode::JsrA || t == Opcode::Rts || t == Opcode::Rte || t
        == Opcode::Trap
}

proof fn lemma_movem_from_a_pc(m: Machine, b: u16, i: int, p: u32)
    ensures
        movem_from_a(m, b, i, p).0.pc == m.pc,
        movem_from_a(m, b, i, p).0.d == m.d,
        movem_from_a(m, b, i, p).0.a == m.a,
    decreases 8 - i,
{
    if i < 8 {
        if b % 2 == 1 {
            lemma_movem_from_a_pc(
                crate::model::wr32(m, wsub32(p, 4), m.a[i]),
                b / 2,
                i + 1,
                wsub32(p, 4),
            );
        } else {
            lemma_movem_from_a_pc(m, b / 2, i + 1, p);
        }
    }
}

proof fn lemma_movem_from_d_pc(m: Machine, b: u16, i: int, p: u32)
    ensures
        movem_from_d(m, b, i, p).0.pc == m.pc,
        movem_from_d(m, b, i, p).0.d == m.d,
        movem_from_d(m, b, i, p).0.a == m.a,
    decreases 8 - i,
{
    if i < 8 {
        if b % 2 == 1 {
            lemma_movem_from_d_pc(
                crate::model::wr32(m, wsub32(p, 4), m.d[i]),
                b / 2,
                i + 1,
                wsub32(p, 4),
            );
        } else {
            lemma_movem_from_d_pc(m, b / 2, i + 1, p);
        }
    }
}

proof fn lemma_movem_to_d_pc(m: Machine, b: u16, i: int, p: u32)
    ensures
        movem_to_d(m, b, i, p).0.pc == m.pc,
        movem_to_d(m, b, i, p).0.a == m.a,
    decreases 8 - i,
{
    if i < 8 {
        if b % 2 == 1 {
            lemma_movem_to_d_pc(
                crate::model::with_d(m, i, crate::model::rd32(m, p)),
                b / 2,
                i + 1,
                wadd32(p, 4),
            );
        } else {
            lemma_movem_to_d_pc(m, b / 2, i + 1, p);
        }
    }
}

proof fn lemma_movem_to_a_pc(m: Machine, b: u16, i: int, p: u32)
    ensures
        movem_to_a(m, b, i, p).0.pc == m.pc,
    decreases 8 - i,
{
    if i < 8 {
        if b % 2 == 1 {
            lemma_movem_to_a_pc(
                crate::model::with_a(m, i, crate::model::rd32(m, p)),
                b / 2,
                i + 1,
                wadd32(p, 4),
            );
        } else {
            lemma_movem_to_a_pc(m, b / 2, i + 1, p);
        }
    }
}

/// The shared bundle of facts about how each effective-address access moves
/// the program counter.
proof fn lemma_ea_pc_facts()
    ensures
        forall|x: u32, a: u32, b: u32|
            a <= 8 && b <= 8 ==> #[trigger] wadd32(wadd32(x, a), b) == wadd32(x, (a + b) as u32),
        forall|mm: Machine, mo: u16, rg: u16, ad: bool|
            #[trigger] ea_read8(mm, mo, rg, ad) matches Some(p) ==> p.0.pc == (if ad {
                wadd32(mm.pc, src_len8(mo, rg))
            } else {
                mm.pc
            }),
        forall|mm: Machine, mo: u16, rg: u16, ad: bool|
            #[trigger] ea_read16(mm, mo, rg, ad) matches Some(p) ==> p.0.pc == (if ad {
                wadd32(mm.pc, src_len16(mo, rg))
            } else {
                mm.pc
            }),
        forall|mm: Machine, mo: u16, rg: u16, ad: bool|
            #[trigger] ea_read32(mm, mo, rg, ad) matches Some(p) ==> p.0.pc == (if ad {
                wadd32(mm.pc, src_len32(mo, rg))
            } else {
                mm.pc
            }),
        forall|mm: Machine, mo: u16, rg: u16, v: u8|
            #[trigger] ea_write8(mm, mo, rg, v) matches Some(p) ==> p.pc == wadd32(
                mm.pc,
                dst_len8(mo, rg),
            ),
        forall|mm: Machine, mo: u16, rg: u16, v: u16|
            #[trigger] ea_write16(mm, mo, rg, v) matches Some(p) ==> p.pc == wadd32(
                mm.pc,
                dst_len16(mo, rg),
            ),
        forall|mm: Machine, mo: u16, rg: u16, v: u32|
            #[trigger] ea_write32(mm, mo, rg, v) matches Some(p) ==> p.pc == wadd32(
                mm.pc,
                dst_len16(mo, rg),
            ),
{
    assert forall|x: u32, a: u32, b: u32|
        a <= 8 && b <= 8 ==> #[trigger] wadd32(wadd32(x, a), b) == wadd32(x, (a + b) as u32) by {};
    assert forall|mm: Machine, mo: u16, rg: u16, ad: bool|
        #[trigger] ea_read8(mm, mo, rg, ad) matches Some(p) ==> p.0.pc == (if ad {
            wadd32(mm.pc, src_len8(mo, rg))
        } else {
            mm.pc
        }) by {
        assert(wadd32(mm.pc, 0) == mm.pc);
    };
    assert forall|mm: Machine, mo: u16, rg: u16, ad: bool|
        #[trigger] ea_read16(mm, mo, rg, ad) matches Some(p) ==> p.0.pc == (if ad {
            wadd32(mm.pc, src_len16(mo, rg))
        } else {
            mm.pc
        }) by {
        assert(wadd32(mm.pc, 0) == mm.pc);
    };
    assert forall|mm: Machine, mo: u16, rg: u16, ad: bool|
        #[trigger] ea_read32(mm, mo, rg, ad) matches Some(p) ==> p.0.pc == (if ad {
            wadd32(mm.pc, src_len32(mo, rg))
        } else {
            mm.pc
        }) by {
        assert(wadd32(mm.pc, 0) == mm.pc);
    };
    assert forall|mm: Machine, mo: u16, rg: u16, v: u8|
        #[trigger] ea_write8(mm, mo, rg, v) matches Some(p) ==> p.pc == wadd32(
            mm.pc,
            dst_len8(mo, rg),
        ) by {
        assert(wadd32(mm.pc, 0) == mm.pc);
    };
    assert forall|mm: Machine, mo: u16, rg: u16, v: u16|
        #[trigger] ea_write16(mm, mo, rg, v) matches Some(p) ==> p.pc == wadd32(
            mm.pc,
            dst_len16(mo, rg),
        ) by {
        assert(wadd32(mm.pc, 0) == mm.pc);
    };
    assert forall|mm: Machine, mo: u16, rg: u16, v: u32|
        #[trigger] ea_write32(mm, mo, rg, v) matches Some(p) ==> p.pc == wadd32(
            mm.pc,
            dst_len16(mo, rg),
        ) by {
        assert(wadd32(mm.pc, 0) == mm.pc);
    };
}

pub open spec fn group_move(t: Opcode) -> bool {
    t == Opcode::Nop || t == Opcode::Reset || t == Opcode::MoveByte || t == Opcode::MoveWord || t
        == Opcode::MoveLong || t == Opcode::Moveq || t == Opcode::MoveToSr || t
        == Opcode::MoveFromSr || t == Opcode::LeaDirect || t == Opcode::LeaOffset || t
        == Opcode::LeaOffsetD || t == Opcode::LeaOffsetPc || t == Opcode::ClrByte || t
        == Opcode::ClrWord || t == Opcode::ClrLong || t == Opcode::Swap || t == Opcode::ExtWord
}

pub open spec fn group_cmp(t: Opcode) -> bool {
    t == Opcode::CmpByte || t == Opcode::CmpWord || t == Opcode::CmpLong || t == Opcode::CmpiByte
        || t == Opcode::CmpiWord || t == Opcode::CmpaLong || t == Opcode::CmpmByte || t
        == Opcode::TstByte || t == Opcode::TstWord || t == Opcode::TstLong || t == Opcode::BtstIm
        || t == Opcode::BclrIm || t == Opcode::Bset || t == Opcode::BsetIm
}

pub open spec fn group_arith(t: Opcode) -> bool {
    t == Opcode::AddByte || t == Opcode::AddWord || t == Opcode::AddLong || t == Opcode::AddiByte
        || t == Opcode::AddiWord || t == Opcode::AddaLong || t == Opcode::AddqByte || t
        == Opcode::AddqWord || t == Opcode::AddqLong || t == Opcode::SubByte || t
        == Opcode::SubWord || t == Opcode::SubiByte || t == Opcode::SubaLong || t
        == Opcode::SubqWord || t == Opcode::SubqLong || t == Opcode::MuluWord || t
        == Opcode::AndByte || t == Opcode::AndWord || t == Opcode::AndLong || t
        == Opcode::AndiWord || t == Opcode::OrByte || t == Opcode::OrWord || t == Opcode::OriByte
        || t == Opcode::OriWord || t == Opcode::EorByte || t == Opcode::EoriByte || t
        == Opcode::EoriWord || t == Opcode::AslImByte || t == Opcode::AslImWord || t
        == Opcode::AslImLong || t == Opcode::LsrImByte || t == Opcode::LsrImWord || t
        == Opcode::LslImWord || t == Opcode::RorImWord || t == Opcode::RolWord || t
        == Opcode::RolImByte
}

#[verifier::rlimit(100)]
#[verifier::spinoff_prover]
proof fn lemma_len_move_group(m: Machine)
    requires
        spec_step(m) is Some,
        group_move(decode(rd16(m, m.pc))),
    ensures
        spec_step(m) matches Some(m2) && m2.pc == wadd32(m.pc, instr_len(rd16(m, m.pc)) as u32),
{
    reveal(spec_step);
    lemma_ea_pc_facts();
}

#[verifier::rlimit(100)]
#[verifier::spinoff_prover]
proof fn lemma_len_cmp_group(m: Machine)
    requires
        spec_step(m) is Some,
        group_cmp(decode(rd16(m, m.pc))),
    ensures
        spec_step(m) matches Some(m2) && m2.pc == wadd32(m.pc, instr_len(rd16(m, m.pc)) as u32),
{
    reveal(spec_step);
    lemma_ea_pc_facts();
}

#[verifier::rlimit(100)]
#[verifier::spinoff_prover]
proof fn lemma_len_arith_group(m: Machine)
    requires
        spec_step(m) is Some,
        group_arith(decode(rd16(m, m.pc))),
    ensures
        spec_step(m) matches Some(m2) && m2.pc == wadd32(m.pc, instr_len(rd16(m, m.pc)) as u32),
{
    reveal(spec_step);
    lemma_ea_pc_facts();
}

#[verifier::rlimit(100)]
#[verifier::spinoff_prover]
proof fn lemma_len_movem_group(m: Machine)
    requires
        spec_step(m) is Some,
        decode(rd16(m, m.pc)) == Opcode::MovemFrom || decode(rd16(m, m.pc)) == Opcode::MovemTo,
    ensures
        spec_step(m) matches Some(m2) && m2.pc == wadd32(m.pc, instr_len(rd16(m, m.pc)) as u32),
{
    reveal(spec_step);
    lemma_ea_pc_facts();
    let op = rd16(m, m.pc);
    let m1 = pc_plus(m, 2);
    let bits = rd16(m1, m1.pc);
    let mm1 = pc_plus(m1, 2);
    if decode(op) == Opcode::MovemFrom {
        lemma_movem_from_d_pc(mm1, bits, 0, mm1.a[fld0(op) as int]);
        let (m2, p2) = movem_from_d(mm1, bits, 0, mm1.a[fld0(op) as int]);
        lemma_movem_from_a_pc(m2, bits / 0x100, 0, p2);
    } else {
        lemma_movem_to_d_pc(mm1, bits, 0, mm1.a[fld0(op) as int]);
        let (m2, p2) = movem_to_d(mm1, bits, 0, mm1.a[fld0(op) as int]);
        lemma_movem_to_a_pc(m2, bits / 0x100, 0, p2);
    }
}

/// For every opcode the interpreter completes, and that does not transfer
/// control, the new program counter sits exactly `instr_len` bytes past the
/// old one: the disassembler and the interpreter agree on instruction
/// lengths. A conditional branch agrees on its fall-through path, and DBRA
/// on its loop-exit path.
#[verifier::rlimit(100)]
#[verifier::spinoff_prover]
pub proof fn lemma_disasm_length_agreement(m: Machine)
    requires
        spec_step(m) is Some,
    ensures
        ({
            let op = rd16(m, m.pc);
            let t = decode(op);
            &&& (!transfers_control(t) ==> (spec_step(m) matches Some(m2) && m2.pc == wadd32(
                m.pc,
                instr_len(op) as u32,
            )))
            &&& ((t == Opcode::Bcc && !crate::model::taken_bcc(m.sr)) ==> (spec_step(m)
                matches Some(m2) && m2.pc == wadd32(m.pc, instr_len(op) as u32)))
            &&& ((t == Opcode::Bcs && !crate::model::taken_bcs(m.sr)) ==> (spec_step(m)
                matches Some(m2) && m2.pc == wadd32(m.pc, instr_len(op) as u32)))
            &&& ((t == Opcode::Bne && !crate::model::taken_bne(m.sr)) ==> (spec_step(m)
                matches Some(m2) && m2.pc == wadd32(m.pc, instr_len(op) as u32)))
            &&& ((t == Opcode::Beq && !crate::model::taken_beq(m.sr)) ==> (spec_step(m)
                matches Some(m2) && m2.pc == wadd32(m.pc, instr_len(op) as u32)))
            &&& ((t == Opcode::Bpl && !crate::model::taken_bpl(m.sr)) ==> (spec_step(m)
                matches Some(m2) && m2.pc == wadd32(m.pc, instr_len(op) as u32)))
            &&& ((t == Opcode::Bmi && !crate::model::taken_bmi(m.sr)) ==> (spec_step(m)
                matches Some(m2) && m2.pc == wadd32(m.pc, instr_len(op) as u32)))
            &&& ((t == Opcode::Bge && !crate::model::taken_bge(m.sr)) ==> (spec_step(m)
                matches Some(m2) && m2.pc == wadd32(m.pc, instr_len(op) as u32)))
            &&& ((t == Opcode::Blt && !crate::model::taken_blt(m.sr)) ==> (spec_step(m)
                matches Some(m2) && m2.pc == wadd32(m.pc, instr_len(op) as u32)))
            &&& ((t == Opcode::Bgt && !crate::model::taken_bgt(m.sr)) ==> (spec_step(m)
                matches Some(m2) && m2.pc == wadd32(m.pc, instr_len(op) as u32)))
            &&& ((t == Opcode::Ble && !crate::model::taken_ble(m.sr)) ==> (spec_step(m)
                matches Some(m2) && m2.pc == wadd32(m.pc, instr_len(op) as u32)))
            &&& ((t == Opcode::Dbra && wsub16(low16(m.d[fld0(rd16(m, m.pc)) as int]), 1) == 0xffff)
                ==> (spec_step(m) matches Some(m2) && m2.pc == wadd32(m.pc, instr_len(op) as u32)))
        }),
{
    reveal(spec_step);
    let op = rd16(m, m.pc);
    let t = decode(op);
    if group_move(t) {
        lemma_len_move_group(m);
    } else if group_cmp(t) {
        lemma_len_cmp_group(m);
    } else if group_arith(t) {
        lemma_len_arith_group(m);
    } else if t == Opcode::MovemFrom || t == Opcode::MovemTo {
        lemma_len_movem_group(m);
    } else {
        lemma_ea_pc_facts();
    }
}


/// After a write through postincrement, restoring the address register and
/// reading through postincrement again yields the value; after a write
/// through predecrement, the register points at the stored value.
pub proof fn lemma_ea_roundtrip_postinc8(m: Machine, reg: u16, v: u8)
    requires
        machine_wf(m),
        reg < 8,
    ensures
        ea_write8(m, 3, reg, v) matches Some(m2) ==> (ea_read8(
            crate::model::with_a(m2, reg as int, m.a[reg as int]),
            3,
            reg,
            true,
        ) matches Some(p) && p.1 == v),
{
    lemma_endian_roundtrip8(m.mem, m.a[reg as int], v);
}

pub proof fn lemma_ea_roundtrip_predec16(m: Machine, reg: u16, v: u16)
    requires
        machine_wf(m),
        reg < 8,
    ensures
        ea_write16(m, 4, reg, v) matches Some(m2) ==> ea_read16(m2, 2, reg, true) == Some(
            (m2, v),
        ),
{
    lemma_endian_roundtrip16(m.mem, wsub32(m.a[reg as int], 2), v);
}

pub proof fn lemma_ea_roundtrip_predec32(m: Machine, reg: u16, v: u32)
    requires
        machine_wf(m),
        reg < 8,
    ensures
        ea_write32(m, 4, reg, v) matches Some(m2) ==> ea_read32(m2, 2, reg, true) == Some(
            (m2, v),
        ),
{
    lemma_endian_roundtrip32(m.mem, wsub32(m.a[reg as int], 4), v);
}

/// At the instruction level: a MOVE.B or MOVE.W into `Dn` keeps the
/// unaffected upper bits of `Dn` exactly as they were.
pub proof fn lemma_move_partial_width8(m: Machine, op: u16)
    requires
        machine_wf(m),
        fld6(op) == 0,
    ensures
        sem_move8(m, op) matches Some(m2) ==> m2.d[fld9(op) as int] / 0x100 == m.d[fld9(
            op,
        ) as int] / 0x100,
{
    assert forall|mm: Machine, mo: u16, rg: u16, ad: bool|
        #[trigger] ea_read8(mm, mo, rg, ad) matches Some(p) ==> p.0.d == mm.d by {};
    match ea_read8(m, fld3(op), fld0(op), true) {
        Some((m1, src)) => {
            lemma_set_low8_upper(m1.d[fld9(op) as int], src);
        },
        None => {},
    }
}

pub proof fn lemma_move_partial_width16(m: Machine, op: u16)
    requires
        machine_wf(m),
        fld6(op) == 0,
    ensures
        sem_move16(m, op) matches Some(m2) ==> m2.d[fld9(op) as int] / 0x10000 == m.d[fld9(
            op,
        ) as int] / 0x10000,
{
    assert forall|mm: Machine, mo: u16, rg: u16, ad: bool|
        #[trigger] ea_read16(mm, mo, rg, ad) matches Some(p) ==> p.0.d == mm.d by {};
    match ea_read16(m, fld3(op), fld0(op), true) {
        Some((m1, src)) => {
            lemma_set_low16_upper(m1.d[fld9(op) as int], src);
        },
        None => {},
    }
}

} // verus!
