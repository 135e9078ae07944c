//! Opcode classification. `decode` is the mathematical mapping from each
//! 16-bit first word to an operation tag, written as the mask rules of the
//! instruction set resolve; `classify` computes it, and `OpTable` tabulates
//! all 65 536 entries once at start-up.

use vstd::prelude::*;

verus! {

/// Operation tag: the instruction family and the operand size where the
/// encoding fixes it.
#[derive(Clone, Copy, Debug, PartialEq, Eq, Structural)]
pub enum Opcode {
    Unknown,
    Nop,
    MoveByte,
    MoveWord,
    MoveLong,
    Moveq,
    MovemFrom,
    MovemTo,
    MoveToSr,
    MoveFromSr,
    LeaDirect,
    LeaOffset,
    LeaOffsetD,
    LeaOffsetPc,
    ClrByte,
    ClrWord,
    ClrLong,
    Swap,
    CmpByte,
    CmpWord,
    CmpLong,
    CmpiByte,
    CmpiWord,
    CmpaLong,
    CmpmByte,
    Cmp2Byte,
    TstByte,
    TstWord,
    TstLong,
    BtstIm,
    BclrIm,
    Bset,
    BsetIm,
    AddByte,
    AddWord,
    AddLong,
    AddiByte,
    AddiWord,
    AddaLong,
    AddqByte,
    AddqWord,
    AddqLong,
    SubByte,
    SubWord,
    SubiByte,
    SubaLong,
    SubqWord,
    SubqLong,
    MuluWord,
    AndByte,
    AndWord,
    AndLong,
    AndiWord,
    OrByte,
    OrWord,
    OriByte,
    OriWord,
    EorByte,
    EoriByte,
    EoriWord,
    AslImByte,
    AslImWord,
    AslImLong,
    LsrImByte,
    LsrImWord,
    LslImWord,
    RorImWord,
    RolWord,
    RolImByte,
    ExtWord,
    Bra,
    Bcc,
    Bcs,
    Bne,
    Beq,
    Bpl,
    Bmi,
    Bge,
    Blt,
    Bgt,
    Ble,
    Dbra,
    Bsr,
    JsrA,
    Rts,
    Rte,
    Trap,
    Reset,
}

// Opcode word fields, by place value: bits 0-2 and 3-5 form an
// effective-address descriptor, bits 6-8 a second descriptor or size field,
// bits 9-11 a register number.
pub open spec fn fld0(op: u16) -> u16 {
    op % 8
}

pub open spec fn fld3(op: u16) -> u16 {
    (op / 8) % 8
}

pub open spec fn fld6(op: u16) -> u16 {
    (op / 0x40) % 8
}

pub open spec fn fld9(op: u16) -> u16 {
    (op / 0x200) % 8
}

/// The tag of a 16-bit opcode word.
pub open spec fn decode(op: u16) -> Opcode {
    match op / 0x1000 {
        0x0 => {
            if op / 8 == 0x1d {
                Opcode::Cmp2Byte
            } else if fld6(op) == 7 {
                Opcode::Bset
            } else {
                match op / 0x40 {
                    0x00 => Opcode::OriByte,
                    0x01 => Opcode::OriWord,
                    0x09 => Opcode::AndiWord,
                    0x10 => Opcode::SubiByte,
                    0x18 => Opcode::AddiByte,
                    0x19 => Opcode::AddiWord,
                    0x20 => Opcode::BtstIm,
                    0x22 => Opcode::BclrIm,
                    0x23 => Opcode::BsetIm,
                    0x28 => Opcode::EoriByte,
                    0x29 => Opcode::EoriWord,
                    0x30 => Opcode::CmpiByte,
                    0x31 => Opcode::CmpiWord,
                    _ => Opcode::Unknown,
                }
            }
        },
        0x1 => Opcode::MoveByte,
        0x2 => Opcode::MoveLong,
        0x3 => Opcode::MoveWord,
        0x4 => {
            if op == 0x4e70 {
                Opcode::Reset
            } else if op == 0x4e71 {
                Opcode::Nop
            } else if op == 0x4e73 {
                Opcode::Rte
            } else if op == 0x4e75 {
                Opcode::Rts
            } else if op / 0x40 == 0x103 {
                Opcode::MoveFromSr
            } else if op / 0x40 == 0x108 {
                Opcode::ClrByte
            } else if op / 0x40 == 0x109 {
                Opcode::ClrWord
            } else if op / 0x40 == 0x10a {
                Opcode::ClrLong
            } else if op / 0x40 == 0x11b {
                Opcode::MoveToSr
            } else if op / 0x40 == 0x128 {
                Opcode::TstByte
            } else if op / 0x40 == 0x129 {
                Opcode::TstWord
            } else if op / 0x40 == 0x12a {
                Opcode::TstLong
            } else if op / 8 == 0x908 {
                Opcode::Swap
            } else if op / 8 == 0x910 {
                Opcode::ExtWord
            } else if op / 8 == 0x91c {
                Opcode::MovemFrom
            } else if op / 8 == 0x99b {
                Opcode::MovemTo
            } else if op / 0x10 == 0x4e4 {
                Opcode::Trap
            } else if op / 0x10 == 0x4e9 {
                Opcode::JsrA
            } else if (op / 8) % 0x40 == 0x3d {
                Opcode::LeaOffset
            } else if (op / 8) % 0x40 == 0x3e {
                Opcode::LeaOffsetD
            } else if op % 0x200 == 0x1f9 {
                Opcode::LeaDirect
            } else if op % 0x200 == 0x1fa {
                Opcode::LeaOffsetPc
            } else {
                Opcode::Unknown
            }
        },
        0x5 => {
            if op / 8 == 0xa39 {
                Opcode::Dbra
            } else {
                let lo9 = op % 0x200;
                if lo9 < 0x3a {
                    Opcode::AddqByte
                } else if 0x40 <= lo9 && lo9 < 0x7a {
                    Opcode::AddqWord
                } else if 0x80 <= lo9 && lo9 < 0xba {
                    Opcode::AddqLong
                } else if 0x140 <= lo9 && lo9 < 0x17a {
                    Opcode::SubqWord
                } else if 0x180 <= lo9 && lo9 < 0x1ba {
                    Opcode::SubqLong
                } else {
                    Opcode::Unknown
                }
            }
        },
        0x6 => {
            match (op / 0x100) % 0x10 {
                0x0 => Opcode::Bra,
                0x1 => Opcode::Bsr,
                0x4 => Opcode::Bcc,
                0x5 => Opcode::Bcs,
                0x6 => Opcode::Bne,
                0x7 => Opcode::Beq,
                0xa => Opcode::Bpl,
                0xb => Opcode::Bmi,
                0xc => Opcode::Bge,
                0xd => Opcode::Blt,
                0xe => Opcode::Bgt,
                0xf => Opcode::Ble,
                _ => Opcode::Unknown,
            }
        },
        0x7 => {
            if (op / 0x100) % 2 == 0 {
                Opcode::Moveq
            } else {
                Opcode::Unknown
            }
        },
        0x8 => {
            match fld6(op) {
                0 => Opcode::OrByte,
                1 => Opcode::OrWord,
                _ => Opcode::Unknown,
            }
        },
        0x9 => {
            match fld6(op) {
                0 => Opcode::SubByte,
                1 => Opcode::SubWord,
                7 => Opcode::SubaLong,
                _ => Opcode::Unknown,
            }
        },
        0xb => {
            match fld6(op) {
                0 => Opcode::CmpByte,
                1 => Opcode::CmpWord,
                2 => Opcode::CmpLong,
                4 => if fld3(op) == 1 {
                    Opcode::CmpmByte
                } else {
                    Opcode::EorByte
                },
                7 => Opcode::CmpaLong,
                _ => Opcode::Unknown,
            }
        },
        0xc => {
            match fld6(op) {
                0 => Opcode::AndByte,
                1 => Opcode::AndWord,
                2 => Opcode::AndLong,
                3 => Opcode::MuluWord,
                _ => Opcode::Unknown,
            }
        },
        0xd => {
            match fld6(op) {
                0 => Opcode::AddByte,
                1 => Opcode::AddWord,
                2 => Opcode::AddLong,
                7 => Opcode::AddaLong,
                _ => Opcode::Unknown,
            }
        },
        0xe => {
            match (op / 8) % 0x40 {
                0x01 => Opcode::LsrImByte,
                0x09 => Opcode::LsrImWord,
                0x0b => Opcode::RorImWord,
                0x20 => Opcode::AslImByte,
                0x23 => Opcode::RolImByte,
                0x28 => Opcode::AslImWord,
                0x29 => Opcode::LslImWord,
                0x2f => Opcode::RolWord,
                0x30 => Opcode::AslImLong,
                _ => Opcode::Unknown,
            }
        },
        _ => Opcode::Unknown,
    }
}

/// Computes the tag of an opcode word.
pub fn classify(op: u16) -> (t: Opcode)
    ensures
        t == decode(op),
{
    match op / 0x1000 {
        0x0 => {
            if op / 8 == 0x1d {
                Opcode::Cmp2Byte
            } else if (op / 0x40) % 8 == 7 {
                Opcode::Bset
            } else {
                match op / 0x40 {
                    0x00 => Opcode::OriByte,
                    0x01 => Opcode::OriWord,
                    0x09 => Opcode::AndiWord,
                    0x10 => Opcode::SubiByte,
                    0x18 => Opcode::AddiByte,
                    0x19 => Opcode::AddiWord,
                    0x20 => Opcode::BtstIm,
                    0x22 => Opcode::BclrIm,
                    0x23 => Opcode::BsetIm,
                    0x28 => Opcode::EoriByte,
                    0x29 => Opcode::EoriWord,
                    0x30 => Opcode::CmpiByte,
                    0x31 => Opcode::CmpiWord,
                    _ => Opcode::Unknown,
                }
            }
        },
        0x1 => Opcode::MoveByte,
        0x2 => Opcode::MoveLong,
        0x3 => Opcode::MoveWord,
        0x4 => {
            if op == 0x4e70 {
                Opcode::Reset
            } else if op == 0x4e71 {
                Opcode::Nop
            } else if op == 0x4e73 {
                Opcode::Rte
            } else if op == 0x4e75 {
                Opcode::Rts
            } else if op / 0x40 == 0x103 {
                Opcode::MoveFromSr
            } else if op / 0x40 == 0x108 {
                Opcode::ClrByte
            } else if op / 0x40 == 0x109 {
                Opcode::ClrWord
            } else if op / 0x40 == 0x10a {
                Opcode::ClrLong
            } else if op / 0x40 == 0x11b {
                Opcode::MoveToSr
            } else if op / 0x40 == 0x128 {
                Opcode::TstByte
            } else if op / 0x40 == 0x129 {
                Opcode::TstWord
            } else if op / 0x40 == 0x12a {
                Opcode::TstLong
            } else if op / 8 == 0x908 {
                Opcode::Swap
            } else if op / 8 == 0x910 {
                Opcode::ExtWord
            } else if op / 8 == 0x91c {
                Opcode::MovemFrom
            } else if op / 8 == 0x99b {
                Opcode::MovemTo
            } else if op / 0x10 == 0x4e4 {
                Opcode::Trap
            } else if op / 0x10 == 0x4e9 {
                Opcode::JsrA
            } else if (op / 8) % 0x40 == 0x3d {
                Opcode::LeaOffset
            } else if (op / 8) % 0x40 == 0x3e {
                Opcode::LeaOffsetD
            } else if op % 0x200 == 0x1f9 {
                Opcode::LeaDirect
            } else if op % 0x200 == 0x1fa {
                Opcode::LeaOffsetPc
            } else {
                Opcode::Unknown
            }
        },
        0x5 => {
            if op / 8 == 0xa39 {
                Opcode::Dbra
            } else {
                let lo9 = op % 0x200;
                if lo9 < 0x3a {
                    Opcode::AddqByte
                } else if 0x40 <= lo9 && lo9 < 0x7a {
                    Opcode::AddqWord
                } else if 0x80 <= lo9 && lo9 < 0xba {
                    Opcode::AddqLong
                } else if 0x140 <= lo9 && lo9 < 0x17a {
                    Opcode::SubqWord
                } else if 0x180 <= lo9 && lo9 < 0x1ba {
                    Opcode::SubqLong
                } else {
                    Opcode::Unknown
                }
            }
        },
        0x6 => {
            match (op / 0x100) % 0x10 {
                0x0 => Opcode::Bra,
                0x1 => Opcode::Bsr,
                0x4 => Opcode::Bcc,
                0x5 => Opcode::Bcs,
                0x6 => Opcode::Bne,
                0x7 => Opcode::Beq,
                0xa => Opcode::Bpl,
                0xb => Opcode::Bmi,
                0xc => Opcode::Bge,
                0xd => Opcode::Blt,
                0xe => Opcode::Bgt,
                0xf => Opcode::Ble,
                _ => Opcode::Unknown,
            }
        },
        0x7 => {
            if (op / 0x100) % 2 == 0 {
                Opcode::Moveq
            } else {
                Opcode::Unknown
            }
        },
        0x8 => {
            match (op / 0x40) % 8 {
                0 => Opcode::OrByte,
                1 => Opcode::OrWord,
                _ => Opcode::Unknown,
            }
        },
        0x9 => {
            match (op / 0x40) % 8 {
                0 => Opcode::SubByte,
                1 => Opcode::SubWord,
                7 => Opcode::SubaLong,
                _ => Opcode::Unknown,
            }
        },
        0xb => {
            match (op / 0x40) % 8 {
                0 => Opcode::CmpByte,
                1 => Opcode::CmpWord,
                2 => Opcode::CmpLong,
                4 => if (op / 8) % 8 == 1 {
                    Opcode::CmpmByte
                } else {
                    Opcode::EorByte
                },
                7 => Opcode::CmpaLong,
                _ => Opcode::Unknown,
            }
        },
        0xc => {
            match (op / 0x40) % 8 {
                0 => Opcode::AndByte,
                1 => Opcode::AndWord,
                2 => Opcode::AndLong,
                3 => Opcode::MuluWord,
                _ => Opcode::Unknown,
            }
        },
        0xd => {
            match (op / 0x40) % 8 {
                0 => Opcode::AddByte,
                1 => Opcode::AddWord,
                2 => Opcode::AddLong,
                7 => Opcode::AddaLong,
                _ => Opcode::Unknown,
            }
        },
        0xe => {
            match (op / 8) % 0x40 {
                0x01 => Opcode::LsrImByte,
                0x09 => Opcode::LsrImWord,
                0x0b => Opcode::RorImWord,
                0x20 => Opcode::AslImByte,
                0x23 => Opcode::RolImByte,
                0x28 => Opcode::AslImWord,
                0x29 => Opcode::LslImWord,
                0x2f => Opcode::RolWord,
                0x30 => Opcode::AslImLong,
                _ => Opcode::Unknown,
            }
        },
        _ => Opcode::Unknown,
    }
}

/// The instruction table: one tag for each of the 65 536 first-word values,
/// built once and never mutated.
pub struct OpTable {
    pub table: Vec<Opcode>,
}

impl OpTable {
    /// Every entry present and equal to the mathematical decoding.
    pub open spec fn wf(&self) -> bool {
        self.table.len() == 0x10000 && forall|j: int|
            0 <= j < 0x10000 ==> self.table[j] == decode(j as u16)
    }

    pub fn new() -> (r: OpTable)
        ensures
            r.wf(),
    {
        let mut table: Vec<Opcode> = Vec::new();
        let mut i: usize = 0;
        while i < 0x10000
            invariant
                table.len() == i,
                i <= 0x10000,
                forall|j: int| 0 <= j < i ==> table[j] == decode(j as u16),
            decreases 0x10000 - i,
        {
            table.push(classify(i as u16));
            i = i + 1;
        }
        OpTable { table }
    }

    pub fn lookup(&self, op: u16) -> (t: Opcode)
        requires
            self.wf(),
        ensures
            t == decode(op),
    {
        self.table[op as usize]
    }
}

} // verus!
