//! The disassembler: the same fetch, the same table, the same
//! effective-address walk as the interpreter, producing the instruction's
//! byte length and a mnemonic rendering. The byte length is specified exactly
//! (`instr_len`); the text is best effort.

use vstd::prelude::*;
use vstd::string::StringExecFns;
use crate::bus::BusTrait;
use crate::model::mem_rd16;
use crate::opcode::{Opcode, decode, fld0, fld3, fld6, fld9};
use crate::util::{conv07to18, get_branch_offset};

verus! {

// ---------------------------------------------------------------------------
// Byte lengths of the extension words each effective-address form consumes.
// They depend only on the (mode, reg) pair, never on memory contents.

pub open spec fn src_len8(mode: u16, reg: u16) -> u32 {
    if mode == 5 {
        2
    } else if mode == 7 && reg == 1 {
        4
    } else if mode == 7 && reg == 4 {
        2
    } else {
        0
    }
}

pub open spec fn src_len16(mode: u16, reg: u16) -> u32 {
    if mode == 5 || mode == 6 {
        2
    } else if mode == 7 && reg == 1 {
        4
    } else if mode == 7 && reg == 4 {
        2
    } else {
        0
    }
}

pub open spec fn src_len32(mode: u16, reg: u16) -> u32 {
    if mode == 5 || mode == 6 {
        2
    } else if mode == 7 && (reg == 1 || reg == 4) {
        4
    } else {
        0
    }
}

pub open spec fn dst_len8(mode: u16, reg: u16) -> u32 {
    if mode == 5 || mode == 6 {
        2
    } else if mode == 7 && reg == 1 {
        4
    } else {
        0
    }
}

pub open spec fn dst_len16(mode: u16, reg: u16) -> u32 {
    if mode == 5 {
        2
    } else if mode == 7 && reg == 1 {
        4
    } else {
        0
    }
}

/// Extension bytes a branch consumes, from the low opcode byte.
pub open spec fn branch_ext_len(op: u16) -> u32 {
    if op % 0x100 == 0 {
        2
    } else if op % 0x100 == 0xff {
        4
    } else {
        0
    }
}

/// The total byte length of the instruction whose first word is `op`,
/// extension words and immediates included.
pub open spec fn instr_len(op: u16) -> int {
    match decode(op) {
        Opcode::Unknown => 2,
        Opcode::Nop => 2,
        Opcode::MoveByte => 2 + src_len8(fld3(op), fld0(op)) + dst_len8(fld6(op), fld9(op)),
        Opcode::MoveWord => 2 + src_len16(fld3(op), fld0(op)) + dst_len16(fld6(op), fld9(op)),
        Opcode::MoveLong => 2 + src_len32(fld3(op), fld0(op)) + dst_len16(fld6(op), fld9(op)),
        Opcode::Moveq => 2,
        Opcode::MovemFrom => 4,
        Opcode::MovemTo => 4,
        Opcode::MoveToSr => 2 + src_len16(fld3(op), fld0(op)),
        Opcode::MoveFromSr => 2 + dst_len16(fld3(op), fld0(op)),
        Opcode::LeaDirect => 6,
        Opcode::LeaOffset => 4,
        Opcode::LeaOffsetD => 4,
        Opcode::LeaOffsetPc => 4,
        Opcode::ClrByte => 2 + dst_len8(fld3(op), fld0(op)),
        Opcode::ClrWord => 2 + dst_len16(fld3(op), fld0(op)),
        Opcode::ClrLong => 2 + dst_len16(fld3(op), fld0(op)),
        Opcode::Swap => 2,
        Opcode::CmpByte => 2 + src_len8(fld3(op), fld0(op)),
        Opcode::CmpWord => 2 + src_len16(fld3(op), fld0(op)),
        Opcode::CmpLong => 2 + src_len32(fld3(op), fld0(op)),
        Opcode::CmpiByte => 4 + src_len8(fld3(op), fld0(op)),
        Opcode::CmpiWord => 4 + src_len16(fld3(op), fld0(op)),
        Opcode::CmpaLong => 2 + src_len32(fld3(op), fld0(op)),
        Opcode::CmpmByte => 2,
        Opcode::Cmp2Byte => 4 + src_len8(fld3(op), fld0(op)),
        Opcode::TstByte => 2 + src_len8(fld3(op), fld0(op)),
        Opcode::TstWord => 2 + src_len16(fld3(op), fld0(op)),
        Opcode::TstLong => 2 + src_len32(fld3(op), fld0(op)),
        Opcode::BtstIm => 4 + src_len16(fld3(op), fld0(op)),
        Opcode::BclrIm => 4 + dst_len16(fld3(op), fld0(op)),
        Opcode::Bset => 2 + dst_len8(fld3(op), fld0(op)),
        Opcode::BsetIm => 4 + dst_len16(fld3(op), fld0(op)),
        Opcode::AddByte => 2 + src_len8(fld3(op), fld0(op)),
        Opcode::AddWord => 2 + src_len16(fld3(op), fld0(op)),
        Opcode::AddLong => 2 + src_len32(fld3(op), fld0(op)),
        Opcode::AddiByte => 4 + dst_len8(fld3(op), fld0(op)),
        Opcode::AddiWord => 4 + dst_len16(fld3(op), fld0(op)),
        Opcode::AddaLong => 2 + src_len32(fld3(op), fld0(op)),
        Opcode::AddqByte => 2 + dst_len8(fld3(op), fld0(op)),
        Opcode::AddqWord => 2 + dst_len16(fld3(op), fld0(op)),
        Opcode::AddqLong => 2 + dst_len16(fld3(op), fld0(op)),
        Opcode::SubByte => 2 + src_len8(fld3(op), fld0(op)),
        Opcode::SubWord => 2 + src_len16(fld3(op), fld0(op)),
        Opcode::SubiByte => 4 + dst_len8(fld3(op), fld0(op)),
        Opcode::SubaLong => 2 + src_len32(fld3(op), fld0(op)),
        Opcode::SubqWord => 2 + dst_len16(fld3(op), fld0(op)),
        Opcode::SubqLong => 2 + dst_len16(fld3(op), fld0(op)),
        Opcode::MuluWord => 2 + src_len16(fld3(op), fld0(op)),
        Opcode::AndByte => 2 + src_len8(fld3(op), fld0(op)),
        Opcode::AndWord => 2 + src_len16(fld3(op), fld0(op)),
        Opcode::AndLong => 2 + src_len32(fld3(op), fld0(op)),
        Opcode::AndiWord => 4 + dst_len16(fld3(op), fld0(op)),
        Opcode::OrByte => 2 + src_len8(fld3(op), fld0(op)),
        Opcode::OrWord => 2 + src_len16(fld3(op), fld0(op)),
        Opcode::OriByte => 4 + dst_len8(fld3(op), fld0(op)),
        Opcode::OriWord => 4 + dst_len16(fld3(op), fld0(op)),
        Opcode::EorByte => 2 + dst_len8(fld3(op), fld0(op)),
        Opcode::EoriByte => 4 + dst_len8(fld3(op), fld0(op)),
        Opcode::EoriWord => 4 + dst_len16(fld3(op), fld0(op)),
        Opcode::AslImByte => 2,
        Opcode::AslImWord => 2,
        Opcode::AslImLong => 2,
        Opcode::LsrImByte => 2,
        Opcode::LsrImWord => 2,
        Opcode::LslImWord => 2,
        Opcode::RorImWord => 2,
        Opcode::RolWord => 2,
        Opcode::RolImByte => 2,
        Opcode::ExtWord => 2,
        Opcode::Bra => 2 + branch_ext_len(op),
        Opcode::Bcc => 2 + branch_ext_len(op),
        Opcode::Bcs => 2 + branch_ext_len(op),
        Opcode::Bne => 2 + branch_ext_len(op),
        Opcode::Beq => 2 + branch_ext_len(op),
        Opcode::Bpl => 2 + branch_ext_len(op),
        Opcode::Bmi => 2 + branch_ext_len(op),
        Opcode::Bge => 2 + branch_ext_len(op),
        Opcode::Blt => 2 + branch_ext_len(op),
        Opcode::Bgt => 2 + branch_ext_len(op),
        Opcode::Ble => 2 + branch_ext_len(op),
        Opcode::Dbra => 4,
        Opcode::Bsr => 2 + branch_ext_len(op),
        Opcode::JsrA => if op % 16 < 8 {
            2
        } else {
            4
        },
        Opcode::Rts => 2,
        Opcode::Rte => 2,
        Opcode::Trap => 2,
        Opcode::Reset => 2,
    }
}

// ---------------------------------------------------------------------------
// Text building.

fn hex_digit(v: u32) -> (r: String)
    requires
        v < 16,
{
    match v {
        0 => "0".to_owned(),
        1 => "1".to_owned(),
        2 => "2".to_owned(),
        3 => "3".to_owned(),
        4 => "4".to_owned(),
        5 => "5".to_owned(),
        6 => "6".to_owned(),
        7 => "7".to_owned(),
        8 => "8".to_owned(),
        9 => "9".to_owned(),
        10 => "a".to_owned(),
        11 => "b".to_owned(),
        12 => "c".to_owned(),
        13 => "d".to_owned(),
        14 => "e".to_owned(),
        _ => "f".to_owned(),
    }
}

/// Lower-case hexadecimal rendering, no prefix.
fn hex_str(v: u32) -> String
    decreases v,
{
    if v < 16 {
        hex_digit(v)
    } else {
        proof {
            assert(v / 16 < v);
        }
        let mut s = hex_str(v / 16);
        let d = hex_digit(v % 16);
        s.append(d.as_str());
        s
    }
}

/// `$n` for small values, `-$n` for the two's-complement negatives.
fn signed_hex8(x: u8) -> String {
    if x < 0x80 {
        let mut s = "$".to_owned();
        let h = hex_str(x as u32);
        s.append(h.as_str());
        s
    } else {
        let mut s = "-$".to_owned();
        let h = hex_str(0x100 - (x as u32));
        s.append(h.as_str());
        s
    }
}

fn signed_hex16(x: u16) -> String {
    if x < 0x8000 {
        let mut s = "$".to_owned();
        let h = hex_str(x as u32);
        s.append(h.as_str());
        s
    } else {
        let mut s = "-$".to_owned();
        let h = hex_str(0x10000 - (x as u32));
        s.append(h.as_str());
        s
    }
}

fn dreg(no: u16) -> String
    requires
        no < 8,
{
    let mut s = "D".to_owned();
    let h = hex_str(no as u32);
    s.append(h.as_str());
    s
}

fn areg(no: u16) -> String
    requires
        no < 8,
{
    let mut s = "A".to_owned();
    let h = hex_str(no as u32);
    s.append(h.as_str());
    s
}

fn aind(no: u16) -> String
    requires
        no < 8,
{
    let mut s = "(".to_owned();
    let r = areg(no);
    s.append(r.as_str());
    s.append(")");
    s
}

fn apostinc(no: u16) -> String
    requires
        no < 8,
{
    let mut s = aind(no);
    s.append("+");
    s
}

fn apredec(no: u16) -> String
    requires
        no < 8,
{
    let mut s = "-".to_owned();
    let r = aind(no);
    s.append(r.as_str());
    s
}

/// `mn` (already padded to its column), then `a`.
fn join1(mn: &str, a: String) -> String {
    let mut s = mn.to_owned();
    s.append(a.as_str());
    s
}

/// `mn` (already padded), then `a, b`.
fn join2(mn: &str, a: String, b: String) -> String {
    let mut s = mn.to_owned();
    s.append(a.as_str());
    s.append(", ");
    s.append(b.as_str());
    s
}

/// The brief-extension operand text: `(An,Xn.s)` or `(d,An,Xn.s)`.
fn brief_text(ext: u16, m: u16) -> String
    requires
        m < 8,
{
    let ofs = (ext % 0x100) as u8;
    let da = ext / 0x8000 == 1;
    let dr = (ext / 0x1000) % 8;
    let dl = (ext / 0x800) % 2 == 1;
    let idx = if da {
        areg(dr)
    } else {
        dreg(dr)
    };
    let mut s = "(".to_owned();
    if ofs != 0 {
        let o = signed_hex8(ofs);
        s.append(o.as_str());
        s.append(",");
    }
    let base = areg(m);
    s.append(base.as_str());
    s.append(",");
    s.append(idx.as_str());
    s.append(if dl {
        ".l"
    } else {
        ".w"
    });
    s.append(")");
    s
}

// ---------------------------------------------------------------------------
// Effective-address walkers: each yields the extension bytes consumed and the
// operand text.

fn read_source8<B: BusTrait>(bus: &B, adr: u32, src: u16, m: u16) -> (r: (u32, String))
    requires
        bus.wf(),
        src < 8,
        m < 8,
    ensures
        r.0 == src_len8(src, m),
{
    if src == 0 {
        (0, dreg(m))
    } else if src == 2 {
        (0, aind(m))
    } else if src == 3 {
        (0, apostinc(m))
    } else if src == 5 {
        let ofs = bus.read16(adr);
        let mut s = "(".to_owned();
        let o = signed_hex16(ofs);
        s.append(o.as_str());
        s.append(",");
        let a = areg(m);
        s.append(a.as_str());
        s.append(")");
        (2, s)
    } else if src == 7 && m == 1 {
        let d = bus.read32(adr);
        let mut s = "$".to_owned();
        let h = hex_str(d);
        s.append(h.as_str());
        s.append(".l");
        (4, s)
    } else if src == 7 && m == 4 {
        let value = bus.read16(adr);
        let mut s = "#$".to_owned();
        let h = hex_str((value % 0x100) as u32);
        s.append(h.as_str());
        (2, s)
    } else {
        (0, "UnhandledSrc".to_owned())
    }
}

fn read_source16<B: BusTrait>(bus: &B, adr: u32, src: u16, m: u16) -> (r: (u32, String))
    requires
        bus.wf(),
        src < 8,
        m < 8,
    ensures
        r.0 == src_len16(src, m),
{
    if src == 0 {
        (0, dreg(m))
    } else if src == 2 {
        (0, aind(m))
    } else if src == 3 {
        (0, apostinc(m))
    } else if src == 5 {
        let ofs = bus.read16(adr);
        let mut s = "(".to_owned();
        let o = signed_hex16(ofs);
        s.append(o.as_str());
        s.append(",");
        let a = areg(m);
        s.append(a.as_str());
        s.append(")");
        (2, s)
    } else if src == 6 {
        let ext = bus.read16(adr);
        if (ext / 0x100) % 2 == 1 {
            (2, "UnhandledSrc".to_owned())
        } else {
            (2, brief_text(ext, m))
        }
    } else if src == 7 && m == 1 {
        let d = bus.read32(adr);
        let mut s = "$".to_owned();
        let h = hex_str(d);
        s.append(h.as_str());
        s.append(".l");
        (4, s)
    } else if src == 7 && m == 4 {
        let value = bus.read16(adr);
        let mut s = "#$".to_owned();
        let h = hex_str(value as u32);
        s.append(h.as_str());
        (2, s)
    } else {
        (0, "UnhandledSrc".to_owned())
    }
}

fn read_source32<B: BusTrait>(bus: &B, adr: u32, src: u16, m: u16) -> (r: (u32, String))
    requires
        bus.wf(),
        src < 8,
        m < 8,
    ensures
        r.0 == src_len32(src, m),
{
    if src == 0 {
        (0, dreg(m))
    } else if src == 1 {
        (0, areg(m))
    } else if src == 2 {
        (0, aind(m))
    } else if src == 3 {
        (0, apostinc(m))
    } else if src == 5 {
        let ofs = bus.read16(adr);
        let mut s = "(".to_owned();
        let o = signed_hex16(ofs);
        s.append(o.as_str());
        s.append(",");
        let a = areg(m);
        s.append(a.as_str());
        s.append(")");
        (2, s)
    } else if src == 6 {
        let ext = bus.read16(adr);
        if (ext / 0x100) % 2 == 1 {
            (2, "UnhandledSrc".to_owned())
        } else {
            (2, brief_text(ext, m))
        }
    } else if src == 7 && m == 1 {
        let d = bus.read32(adr);
        let mut s = "$".to_owned();
        let h = hex_str(d);
        s.append(h.as_str());
        s.append(".l");
        (4, s)
    } else if src == 7 && m == 4 {
        let value = bus.read32(adr);
        let mut s = "#$".to_owned();
        let h = hex_str(value);
        s.append(h.as_str());
        (4, s)
    } else {
        (0, "UnhandledSrc".to_owned())
    }
}

fn write_destination8<B: BusTrait>(bus: &B, adr: u32, dst: u16, n: u16) -> (r: (u32, String))
    requires
        bus.wf(),
        dst < 8,
        n < 8,
    ensures
        r.0 == dst_len8(dst, n),
{
    if dst == 0 {
        (0, dreg(n))
    } else if dst == 2 {
        (0, aind(n))
    } else if dst == 3 {
        (0, apostinc(n))
    } else if dst == 5 {
        let ofs = bus.read16(adr);
        let mut s = "(".to_owned();
        let o = signed_hex16(ofs);
        s.append(o.as_str());
        s.append(",");
        let a = areg(n);
        s.append(a.as_str());
        s.append(")");
        (2, s)
    } else if dst == 6 {
        let ext = bus.read16(adr);
        if (ext / 0x100) % 2 == 1 {
            (2, "UnhandledDst".to_owned())
        } else {
            (2, brief_text(ext, n))
        }
    } else if dst == 7 && n == 1 {
        let d = bus.read32(adr);
        let mut s = "$".to_owned();
        let h = hex_str(d);
        s.append(h.as_str());
        s.append(".l");
        (4, s)
    } else {
        (0, "UnhandledDst".to_owned())
    }
}

fn write_destination16<B: BusTrait>(bus: &B, adr: u32, dst: u16, n: u16) -> (r: (u32, String))
    requires
        bus.wf(),
        dst < 8,
        n < 8,
    ensures
        r.0 == dst_len16(dst, n),
{
    if dst == 0 {
        (0, dreg(n))
    } else if dst == 1 {
        (0, areg(n))
    } else if dst == 2 {
        (0, aind(n))
    } else if dst == 3 {
        (0, apostinc(n))
    } else if dst == 4 {
        (0, apredec(n))
    } else if dst == 5 {
        let ofs = bus.read16(adr);
        let mut s = "(".to_owned();
        let o = signed_hex16(ofs);
        s.append(o.as_str());
        s.append(",");
        let a = areg(n);
        s.append(a.as_str());
        s.append(")");
        (2, s)
    } else if dst == 7 && n == 1 {
        let d = bus.read32(adr);
        let mut s = "$".to_owned();
        let h = hex_str(d);
        s.append(h.as_str());
        s.append(".l");
        (4, s)
    } else if dst == 7 && n == 4 {
        (0, "SR".to_owned())
    } else {
        (0, "UnhandledDst".to_owned())
    }
}

fn write_destination32<B: BusTrait>(bus: &B, adr: u32, dst: u16, n: u16) -> (r: (u32, String))
    requires
        bus.wf(),
        dst < 8,
        n < 8,
    ensures
        r.0 == dst_len16(dst, n),
{
    write_destination16(bus, adr, dst, n)
}

/// The collapsed register-list text of a MOVEM mask: contiguous runs joined
/// by `/`, bit 0 naming `D0`.
fn movem_regs(bits: u16) -> String {
    let mut out = String::new();
    let mut first = true;
    let mut g: usize = 0;
    while g < 2
        invariant
            g <= 2,
        decreases 2 - g,
    {
        let mut j: usize = 0;
        while j < 8
            invariant
                j <= 8,
                g < 2,
            decreases 8 - j,
        {
            let sh = g * 8 + j;
            if (bits >> (sh as u32)) % 2 == 1 {
                let mut k = j + 1;
                while k < 8
                    invariant
                        j < k <= 8,
                        g < 2,
                    decreases 8 - k,
                {
                    let sh2 = g * 8 + k;
                    if (bits >> (sh2 as u32)) % 2 == 0 {
                        break ;
                    }
                    k = k + 1;
                }
                if !first {
                    out.append("/");
                }
                first = false;
                let lo = if g == 0 {
                    dreg(j as u16)
                } else {
                    areg(j as u16)
                };
                out.append(lo.as_str());
                if k > j + 1 {
                    out.append("-");
                    let hi = if g == 0 {
                        dreg((k - 1) as u16)
                    } else {
                        areg((k - 1) as u16)
                    };
                    out.append(hi.as_str());
                }
                j = k;
            } else {
                j = j + 1;
            }
        }
        g = g + 1;
    }
    out
}

fn bcond_text<B: BusTrait>(bus: &B, adr: u32, op: u16, bname: &str) -> (r: (u32, String))
    requires
        bus.wf(),
    ensures
        r.0 == 2 + branch_ext_len(op),
{
    let (ofs, sz) = get_branch_offset(op, bus, adr);
    let jmp = adr.wrapping_add(ofs);
    let mut s = bname.to_owned();
    let h = hex_str(jmp);
    s.append(h.as_str());
    (2 + sz, s)
}

/// Disassembles the instruction at `adr`: its total byte length, extension
/// words and immediates included, and a mnemonic rendering. Unknown or
/// unimplemented encodings yield a placeholder text rather than a fault.
#[verifier::rlimit(100)]
pub fn disasm<B: BusTrait>(bus: &B, adr: u32) -> (r: (usize, String))
    requires
        bus.wf(),
    ensures
        r.0 == instr_len(mem_rd16(bus.mem(), adr)),
{
    let op = bus.read16(adr);
    let si = op % 8;
    let st = (op / 8) % 8;
    let dt = (op / 0x40) % 8;
    let di = (op / 0x200) % 8;
    match crate::opcode::classify(op) {
        Opcode::Unknown => (2, "**Unknown**".to_owned()),
        Opcode::Nop => (2, "nop".to_owned()),
        Opcode::MoveByte => {
            let (ssz, sstr) = read_source8(bus, adr.wrapping_add(2), st, si);
            let (dsz, dstr) = write_destination8(bus, adr.wrapping_add(2).wrapping_add(ssz), dt, di);
            let mn: &str = if dt == 1 {
                "movea.b "
            } else {
                "move.b  "
            };
            ((2 + ssz + dsz) as usize, join2(mn, sstr, dstr))
        },
        Opcode::MoveWord => {
            let (ssz, sstr) = read_source16(bus, adr.wrapping_add(2), st, si);
            let (dsz, dstr) = write_destination16(
                bus,
                adr.wrapping_add(2).wrapping_add(ssz),
                dt,
                di,
            );
            let mn: &str = if dt == 1 {
                "movea.w "
            } else {
                "move.w  "
            };
            ((2 + ssz + dsz) as usize, join2(mn, sstr, dstr))
        },
        Opcode::MoveLong => {
            let (ssz, sstr) = read_source32(bus, adr.wrapping_add(2), st, si);
            let (dsz, dstr) = write_destination32(
                bus,
                adr.wrapping_add(2).wrapping_add(ssz),
                dt,
                di,
            );
            let mn: &str = if dt == 1 {
                "movea.l "
            } else {
                "move.l  "
            };
            ((2 + ssz + dsz) as usize, join2(mn, sstr, dstr))
        },
        Opcode::Moveq => {
            let mut v = "#".to_owned();
            let h = signed_hex8((op % 0x100) as u8);
            v.append(h.as_str());
            (2, join2("moveq   ", v, dreg(di)))
        },
        Opcode::MovemFrom => {
            let bits = bus.read16(adr.wrapping_add(2));
            (4, join2("movem.l ", movem_regs(bits), apredec(si)))
        },
        Opcode::MovemTo => {
            let bits = bus.read16(adr.wrapping_add(2));
            (4, join2("movem.l ", apostinc(si), movem_regs(bits)))
        },
        Opcode::MoveToSr => {
            let (ssz, sstr) = read_source16(bus, adr.wrapping_add(2), st, si);
            ((2 + ssz) as usize, join2("move    ", sstr, "SR".to_owned()))
        },
        Opcode::MoveFromSr => {
            let (dsz, dstr) = write_destination16(bus, adr.wrapping_add(2), st, si);
            ((2 + dsz) as usize, join2("move    ", "SR".to_owned(), dstr))
        },
        Opcode::LeaDirect => {
            let value = bus.read32(adr.wrapping_add(2));
            let mut v = "$".to_owned();
            let h = hex_str(value);
            v.append(h.as_str());
            v.append(".l");
            (6, join2("lea     ", v, areg(di)))
        },
        Opcode::LeaOffset => {
            let ofs = bus.read16(adr.wrapping_add(2));
            let mut v = "(".to_owned();
            let o = signed_hex16(ofs);
            v.append(o.as_str());
            v.append(",");
            let a = areg(si);
            v.append(a.as_str());
            v.append(")");
            (4, join2("lea     ", v, areg(di)))
        },
        Opcode::LeaOffsetD => {
            let next = bus.read16(adr.wrapping_add(2));
            if next < 0x8000 && (next / 0x100) % 0x10 == 0 {
                let ii = (next / 0x1000) % 8;
                let ofs = (next % 0x100) as u8;
                let mut v = "(".to_owned();
                if ofs != 0 {
                    let o = signed_hex8(ofs);
                    v.append(o.as_str());
                    v.append(",");
                }
                let a = areg(si);
                v.append(a.as_str());
                v.append(",");
                let x = dreg(ii);
                v.append(x.as_str());
                v.append(".w)");
                (4, join2("lea     ", v, areg(di)))
            } else {
                (4, "**Not implemented**".to_owned())
            }
        },
        Opcode::LeaOffsetPc => {
            let ofs = bus.read16(adr.wrapping_add(2));
            let mut v = "(".to_owned();
            let o = signed_hex16(ofs);
            v.append(o.as_str());
            v.append(",PC)");
            (4, join2("lea     ", v, areg(di)))
        },
        Opcode::ClrByte => {
            let (dsz, dstr) = write_destination8(bus, adr.wrapping_add(2), st, si);
            ((2 + dsz) as usize, join1("clr.b   ", dstr))
        },
        Opcode::ClrWord => {
            let (dsz, dstr) = write_destination16(bus, adr.wrapping_add(2), st, si);
            ((2 + dsz) as usize, join1("clr.w   ", dstr))
        },
        Opcode::ClrLong => {
            let (dsz, dstr) = write_destination16(bus, adr.wrapping_add(2), st, si);
            ((2 + dsz) as usize, join1("clr.l   ", dstr))
        },
        Opcode::Swap => (2, join1("swap    ", dreg(si))),
        Opcode::CmpByte => {
            let (ssz, sstr) = read_source8(bus, adr.wrapping_add(2), st, si);
            ((2 + ssz) as usize, join2("cmp.b   ", sstr, dreg(di)))
        },
        Opcode::CmpWord => {
            let (ssz, sstr) = read_source16(bus, adr.wrapping_add(2), st, si);
            ((2 + ssz) as usize, join2("cmp.w   ", sstr, dreg(di)))
        },
        Opcode::CmpLong => {
            let (ssz, sstr) = read_source32(bus, adr.wrapping_add(2), st, si);
            ((2 + ssz) as usize, join2("cmp.l   ", sstr, dreg(di)))
        },
        Opcode::CmpiByte => {
            let val = bus.read16(adr.wrapping_add(2));
            let (dsz, dstr) = read_source8(bus, adr.wrapping_add(4), st, si);
            let mut v = "#".to_owned();
            let h = signed_hex8((val % 0x100) as u8);
            v.append(h.as_str());
            ((4 + dsz) as usize, join2("cmpi.b  ", v, dstr))
        },
        Opcode::CmpiWord => {
            let val = bus.read16(adr.wrapping_add(2));
            let (dsz, dstr) = read_source16(bus, adr.wrapping_add(4), st, si);
            let mut v = "#".to_owned();
            let h = signed_hex16(val);
            v.append(h.as_str());
            ((4 + dsz) as usize, join2("cmpi.w  ", v, dstr))
        },
        Opcode::CmpaLong => {
            let (ssz, sstr) = read_source32(bus, adr.wrapping_add(2), st, si);
            ((2 + ssz) as usize, join2("cmpa.l  ", sstr, areg(di)))
        },
        Opcode::CmpmByte => (2, join2("cmpm.b  ", apostinc(si), apostinc(di))),
        Opcode::Cmp2Byte => {
            let (ssz, sstr) = read_source8(bus, adr.wrapping_add(4), st, si);
            let word2 = bus.read16(adr.wrapping_add(2));
            let rr = (word2 / 0x1000) % 16;
            let rtxt = if rr < 8 {
                dreg(rr)
            } else {
                areg(rr - 8)
            };
            ((4 + ssz) as usize, join2("cmp2.b  ", sstr, rtxt))
        },
        Opcode::TstByte => {
            let (ssz, sstr) = read_source8(bus, adr.wrapping_add(2), st, si);
            ((2 + ssz) as usize, join1("tst.b   ", sstr))
        },
        Opcode::TstWord => {
            let (ssz, sstr) = read_source16(bus, adr.wrapping_add(2), st, si);
            ((2 + ssz) as usize, join1("tst.w   ", sstr))
        },
        Opcode::TstLong => {
            let (ssz, sstr) = read_source32(bus, adr.wrapping_add(2), st, si);
            ((2 + ssz) as usize, join1("tst.l   ", sstr))
        },
        Opcode::BtstIm => {
            let bit = bus.read16(adr.wrapping_add(2));
            let (ssz, sstr) = read_source16(bus, adr.wrapping_add(4), st, si);
            let mut v = "#$".to_owned();
            let h = hex_str(bit as u32);
            v.append(h.as_str());
            ((4 + ssz) as usize, join2("btst    ", v, sstr))
        },
        Opcode::BclrIm => {
            let bit = bus.read16(adr.wrapping_add(2));
            let (dsz, dstr) = write_destination16(bus, adr.wrapping_add(4), st, si);
            let mut v = "#$".to_owned();
            let h = hex_str(bit as u32);
            v.append(h.as_str());
            ((4 + dsz) as usize, join2("bclr    ", v, dstr))
        },
        Opcode::Bset => {
            let (dsz, dstr) = write_destination8(bus, adr.wrapping_add(2), st, si);
            ((2 + dsz) as usize, join2("bset    ", dreg(di), dstr))
        },
        Opcode::BsetIm => {
            let bit = bus.read16(adr.wrapping_add(2));
            let (dsz, dstr) = write_destination16(bus, adr.wrapping_add(4), st, si);
            let mut v = "#$".to_owned();
            let h = hex_str(bit as u32);
            v.append(h.as_str());
            ((4 + dsz) as usize, join2("bset    ", v, dstr))
        },
        Opcode::AddByte => {
            let (ssz, sstr) = read_source8(bus, adr.wrapping_add(2), st, si);
            ((2 + ssz) as usize, join2("add.b   ", sstr, dreg(di)))
        },
        Opcode::AddWord => {
            let (ssz, sstr) = read_source16(bus, adr.wrapping_add(2), st, si);
            ((2 + ssz) as usize, join2("add.w   ", sstr, dreg(di)))
        },
        Opcode::AddLong => {
            let (ssz, sstr) = read_source32(bus, adr.wrapping_add(2), st, si);
            ((2 + ssz) as usize, join2("add.l   ", sstr, dreg(di)))
        },
        Opcode::AddiByte => {
            let v = bus.read16(adr.wrapping_add(2));
            let (dsz, dstr) = write_destination8(bus, adr.wrapping_add(4), st, si);
            let mut t = "#$".to_owned();
            let h = hex_str((v % 0x100) as u32);
            t.append(h.as_str());
            ((4 + dsz) as usize, join2("addi.b  ", t, dstr))
        },
        Opcode::AddiWord => {
            let v = bus.read16(adr.wrapping_add(2));
            let (dsz, dstr) = write_destination16(bus, adr.wrapping_add(4), st, si);
            let mut t = "#$".to_owned();
            let h = hex_str(v as u32);
            t.append(h.as_str());
            ((4 + dsz) as usize, join2("addi.w  ", t, dstr))
        },
        Opcode::AddaLong => {
            let (ssz, sstr) = read_source32(bus, adr.wrapping_add(2), st, si);
            ((2 + ssz) as usize, join2("adda.l  ", sstr, areg(di)))
        },
        Opcode::AddqByte => {
            let v = conv07to18(op / 0x200);
            let (dsz, dstr) = write_destination8(bus, adr.wrapping_add(2), st, si);
            let mut t = "#".to_owned();
            let h = hex_str(v as u32);
            t.append(h.as_str());
            ((2 + dsz) as usize, join2("addq.b  ", t, dstr))
        },
        Opcode::AddqWord => {
            let v = conv07to18(op / 0x200);
            let (dsz, dstr) = write_destination16(bus, adr.wrapping_add(2), st, si);
            let mut t = "#".to_owned();
            let h = hex_str(v as u32);
            t.append(h.as_str());
            ((2 + dsz) as usize, join2("addq.w  ", t, dstr))
        },
        Opcode::AddqLong => {
            let v = conv07to18(op / 0x200);
            let (dsz, dstr) = write_destination32(bus, adr.wrapping_add(2), st, si);
            let mut t = "#".to_owned();
            let h = hex_str(v as u32);
            t.append(h.as_str());
            ((2 + dsz) as usize, join2("addq.l  ", t, dstr))
        },
        Opcode::SubByte => {
            let (ssz, sstr) = read_source8(bus, adr.wrapping_add(2), st, si);
            ((2 + ssz) as usize, join2("sub.b   ", sstr, dreg(di)))
        },
        Opcode::SubWord => {
            let (ssz, sstr) = read_source16(bus, adr.wrapping_add(2), st, si);
            ((2 + ssz) as usize, join2("sub.w   ", sstr, dreg(di)))
        },
        Opcode::SubiByte => {
            let v = bus.read16(adr.wrapping_add(2));
            let (dsz, dstr) = write_destination8(bus, adr.wrapping_add(4), st, si);
            let mut t = "#$".to_owned();
            let h = hex_str((v % 0x100) as u32);
            t.append(h.as_str());
            ((4 + dsz) as usize, join2("subi.b  ", t, dstr))
        },
        Opcode::SubaLong => {
            let (ssz, sstr) = read_source32(bus, adr.wrapping_add(2), st, si);
            ((2 + ssz) as usize, join2("suba.l  ", sstr, areg(di)))
        },
        Opcode::SubqWord => {
            let v = conv07to18(op / 0x200);
            let (dsz, dstr) = write_destination16(bus, adr.wrapping_add(2), st, si);
            let mut t = "#".to_owned();
            let h = hex_str(v as u32);
            t.append(h.as_str());
            ((2 + dsz) as usize, join2("subq.w  ", t, dstr))
        },
        Opcode::SubqLong => {
            let v = conv07to18(op / 0x200);
            let (dsz, dstr) = write_destination32(bus, adr.wrapping_add(2), st, si);
            let mut t = "#".to_owned();
            let h = hex_str(v as u32);
            t.append(h.as_str());
            ((2 + dsz) as usize, join2("subq.l  ", t, dstr))
        },
        Opcode::MuluWord => {
            let (ssz, sstr) = read_source16(bus, adr.wrapping_add(2), st, si);
            ((2 + ssz) as usize, join2("mulu.w  ", sstr, dreg(di)))
        },
        Opcode::AndByte => {
            let (ssz, sstr) = read_source8(bus, adr.wrapping_add(2), st, si);
            ((2 + ssz) as usize, join2("and.b   ", sstr, dreg(di)))
        },
        Opcode::AndWord => {
            let (ssz, sstr) = read_source16(bus, adr.wrapping_add(2), st, si);
            ((2 + ssz) as usize, join2("and.w   ", sstr, dreg(di)))
        },
        Opcode::AndLong => {
            let (ssz, sstr) = read_source32(bus, adr.wrapping_add(2), st, si);
            ((2 + ssz) as usize, join2("and.l   ", sstr, dreg(di)))
        },
        Opcode::AndiWord => {
            let v = bus.read16(adr.wrapping_add(2));
            let (dsz, dstr) = write_destination16(bus, adr.wrapping_add(4), st, si);
            let mut t = "#$".to_owned();
            let h = hex_str(v as u32);
            t.append(h.as_str());
            ((4 + dsz) as usize, join2("andi.w  ", t, dstr))
        },
        Opcode::OrByte => {
            let (ssz, sstr) = read_source8(bus, adr.wrapping_add(2), st, si);
            ((2 + ssz) as usize, join2("or.b    ", sstr, dreg(di)))
        },
        Opcode::OrWord => {
            let (ssz, sstr) = read_source16(bus, adr.wrapping_add(2), st, si);
            ((2 + ssz) as usize, join2("or.w    ", sstr, dreg(di)))
        },
        Opcode::OriByte => {
            let v = bus.read16(adr.wrapping_add(2));
            let (dsz, dstr) = write_destination8(bus, adr.wrapping_add(4), st, si);
            let mut t = "#$".to_owned();
            let h = hex_str((v % 0x100) as u32);
            t.append(h.as_str());
            ((4 + dsz) as usize, join2("ori.b   ", t, dstr))
        },
        Opcode::OriWord => {
            let v = bus.read16(adr.wrapping_add(2));
            let (dsz, dstr) = write_destination16(bus, adr.wrapping_add(4), st, si);
            let mut t = "#$".to_owned();
            let h = hex_str(v as u32);
            t.append(h.as_str());
            ((4 + dsz) as usize, join2("ori.w   ", t, dstr))
        },
        Opcode::EorByte => {
            let (dsz, dstr) = write_destination8(bus, adr.wrapping_add(2), st, si);
            ((2 + dsz) as usize, join2("eor.b   ", dreg(di), dstr))
        },
        Opcode::EoriByte => {
            let v = bus.read16(adr.wrapping_add(2));
            let (dsz, dstr) = write_destination8(bus, adr.wrapping_add(4), st, si);
            let mut t = "#$".to_owned();
            let h = hex_str((v % 0x100) as u32);
            t.append(h.as_str());
            ((4 + dsz) as usize, join2("eori.b  ", t, dstr))
        },
        Opcode::EoriWord => {
            let v = bus.read16(adr.wrapping_add(2));
            let (dsz, dstr) = write_destination16(bus, adr.wrapping_add(4), st, si);
            let mut t = "#$".to_owned();
            let h = hex_str(v as u32);
            t.append(h.as_str());
            ((4 + dsz) as usize, join2("eori.w  ", t, dstr))
        },
        Opcode::AslImByte => {
            let v = conv07to18(op / 0x200);
            let mut t = "#".to_owned();
            let h = hex_str(v as u32);
            t.append(h.as_str());
            (2, join2("asl.b   ", t, dreg(si)))
        },
        Opcode::AslImWord => {
            let v = conv07to18(op / 0x200);
            let mut t = "#".to_owned();
            let h = hex_str(v as u32);
            t.append(h.as_str());
            (2, join2("asl.w   ", t, dreg(si)))
        },
        Opcode::AslImLong => {
            let v = conv07to18(op / 0x200);
            let mut t = "#".to_owned();
            let h = hex_str(v as u32);
            t.append(h.as_str());
            (2, join2("asl.l   ", t, dreg(si)))
        },
        Opcode::LsrImByte => {
            let v = conv07to18(op / 0x200);
            let mut t = "#".to_owned();
            let h = hex_str(v as u32);
            t.append(h.as_str());
            (2, join2("lsr.b   ", t, dreg(si)))
        },
        Opcode::LsrImWord => {
            let v = conv07to18(op / 0x200);
            let mut t = "#".to_owned();
            let h = hex_str(v as u32);
            t.append(h.as_str());
            (2, join2("lsr.w   ", t, dreg(si)))
        },
        Opcode::LslImWord => {
            let v = conv07to18(op / 0x200);
            let mut t = "#".to_owned();
            let h = hex_str(v as u32);
            t.append(h.as_str());
            (2, join2("lsl.w   ", t, dreg(si)))
        },
        Opcode::RorImWord => {
            let v = conv07to18(op / 0x200);
            let mut t = "#".to_owned();
            let h = hex_str(v as u32);
            t.append(h.as_str());
            (2, join2("ror.w   ", t, dreg(si)))
        },
        Opcode::RolWord => (2, join2("rol.w   ", dreg(di), dreg(si))),
        Opcode::RolImByte => {
            let v = conv07to18(op / 0x200);
            let mut t = "#".to_owned();
            let h = hex_str(v as u32);
            t.append(h.as_str());
            (2, join2("rol.b   ", t, dreg(si)))
        },
        Opcode::ExtWord => (2, join1("ext.w   ", dreg(si))),
        Opcode::Bra => {
            let (sz, s) = bcond_text(bus, adr.wrapping_add(2), op, "bra     ");
            (sz as usize, s)
        },
        Opcode::Bcc => {
            let (sz, s) = bcond_text(bus, adr.wrapping_add(2), op, "bcc     ");
            (sz as usize, s)
        },
        Opcode::Bcs => {
            let (sz, s) = bcond_text(bus, adr.wrapping_add(2), op, "bcs     ");
            (sz as usize, s)
        },
        Opcode::Bne => {
            let (sz, s) = bcond_text(bus, adr.wrapping_add(2), op, "bne     ");
            (sz as usize, s)
        },
        Opcode::Beq => {
            let (sz, s) = bcond_text(bus, adr.wrapping_add(2), op, "beq     ");
            (sz as usize, s)
        },
        Opcode::Bpl => {
            let (sz, s) = bcond_text(bus, adr.wrapping_add(2), op, "bpl     ");
            (sz as usize, s)
        },
        Opcode::Bmi => {
            let (sz, s) = bcond_text(bus, adr.wrapping_add(2), op, "bmi     ");
            (sz as usize, s)
        },
        Opcode::Bge => {
            let (sz, s) = bcond_text(bus, adr.wrapping_add(2), op, "bge     ");
            (sz as usize, s)
        },
        Opcode::Blt => {
            let (sz, s) = bcond_text(bus, adr.wrapping_add(2), op, "blt     ");
            (sz as usize, s)
        },
        Opcode::Bgt => {
            let (sz, s) = bcond_text(bus, adr.wrapping_add(2), op, "bgt     ");
            (sz as usize, s)
        },
        Opcode::Ble => {
            let (sz, s) = bcond_text(bus, adr.wrapping_add(2), op, "ble     ");
            (sz as usize, s)
        },
        Opcode::Dbra => {
            let ofs = bus.read16(adr.wrapping_add(2));
            let jmp = adr.wrapping_add(2).wrapping_add(crate::arith::sign_extend16(ofs));
            let h = hex_str(jmp);
            (4, join2("dbra    ", dreg(si), h))
        },
        Opcode::Bsr => {
            let (sz, s) = bcond_text(bus, adr.wrapping_add(2), op, "bsr     ");
            (sz as usize, s)
        },
        Opcode::JsrA => {
            if op % 16 < 8 {
                (2, join1("jsr     ", aind(si)))
            } else {
                let offset = bus.read16(adr.wrapping_add(2));
                let mut t = "($".to_owned();
                let h = hex_str(offset as u32);
                t.append(h.as_str());
                t.append(",");
                let a = areg(si);
                t.append(a.as_str());
                t.append(")");
                (4, join1("jsr     ", t))
            }
        },
        Opcode::Rts => (2, "rts".to_owned()),
        Opcode::Rte => (2, "rte".to_owned()),
        Opcode::Trap => {
            let mut t = "#$".to_owned();
            let h = hex_str((op % 16) as u32);
            t.append(h.as_str());
            (2, join1("trap    ", t))
        },
        Opcode::Reset => (2, "reset".to_owned()),
    }
}

} // verus!
