//! Word-level arithmetic of the machine: wrapping addition, byte and word
//! extraction and insertion, sign extension, and sign tests, each as a spec
//! function together with a verified executable counterpart.

use vstd::prelude::*;
use vstd::wrapping::u8_specs;
use vstd::wrapping::u16_specs;
use vstd::wrapping::u32_specs;

verus! {

// ---------------------------------------------------------------------------
// Wrapping arithmetic (two's complement, as the processor computes).

pub open spec fn wadd32(a: u32, b: u32) -> u32 {
    u32_specs::wrapping_add(a, b)
}

pub open spec fn wsub32(a: u32, b: u32) -> u32 {
    u32_specs::wrapping_sub(a, b)
}

pub open spec fn wadd16(a: u16, b: u16) -> u16 {
    u16_specs::wrapping_add(a, b)
}

pub open spec fn wadd8(a: u8, b: u8) -> u8 {
    u8_specs::wrapping_add(a, b)
}

pub open spec fn wsub8(a: u8, b: u8) -> u8 {
    u8_specs::wrapping_sub(a, b)
}

pub open spec fn wsub16(a: u16, b: u16) -> u16 {
    u16_specs::wrapping_sub(a, b)
}

// ---------------------------------------------------------------------------
// Byte and word extraction, by place value.

/// Low byte of a 32-bit value.
pub open spec fn low8(x: u32) -> u8 {
    (x % 0x100) as u8
}

/// Low 16-bit word of a 32-bit value.
pub open spec fn low16(x: u32) -> u16 {
    (x % 0x10000) as u16
}

/// Low byte of a 16-bit word.
pub open spec fn low8_of16(x: u16) -> u8 {
    (x % 0x100) as u8
}

/// High byte of a 16-bit word.
pub open spec fn hi8_of16(x: u16) -> u8 {
    (x / 0x100) as u8
}

/// Byte `3` (most significant) of a 32-bit value.
pub open spec fn byte3(x: u32) -> u8 {
    (x / 0x1000000) as u8
}

/// Byte `2` of a 32-bit value.
pub open spec fn byte2(x: u32) -> u8 {
    ((x / 0x10000) % 0x100) as u8
}

/// Byte `1` of a 32-bit value.
pub open spec fn byte1(x: u32) -> u8 {
    ((x / 0x100) % 0x100) as u8
}

/// Big-endian composition of two bytes into a word.
pub open spec fn join16(hi: u8, lo: u8) -> u16 {
    (hi * 0x100 + lo) as u16
}

/// Big-endian composition of four bytes into a long.
pub open spec fn join32(b3: u8, b2: u8, b1: u8, b0: u8) -> u32 {
    (b3 * 0x1000000 + b2 * 0x10000 + b1 * 0x100 + b0) as u32
}

// ---------------------------------------------------------------------------
// Insertion: replace the low part of a register, preserving the rest.

/// Replace the low byte of `x` with `b`, keeping the upper 24 bits.
pub open spec fn set_low8(x: u32, b: u8) -> u32 {
    ((x - x % 0x100) + b) as u32
}

/// Replace the low word of `x` with `w`, keeping the upper 16 bits.
pub open spec fn set_low16(x: u32, w: u16) -> u32 {
    ((x - x % 0x10000) + w) as u32
}

// ---------------------------------------------------------------------------
// Sign extension and sign tests.

pub open spec fn sext8to32(b: u8) -> u32 {
    if b < 0x80 {
        b as u32
    } else {
        (0xffffff00 + b) as u32
    }
}

pub open spec fn sext16to32(w: u16) -> u32 {
    if w < 0x8000 {
        w as u32
    } else {
        (0xffff0000 + w) as u32
    }
}

pub open spec fn sext8to16(b: u8) -> u16 {
    if b < 0x80 {
        b as u16
    } else {
        (0xff00 + b) as u16
    }
}

pub open spec fn neg8(x: u8) -> bool {
    x >= 0x80
}

pub open spec fn neg16(x: u16) -> bool {
    x >= 0x8000
}

pub open spec fn neg32(x: u32) -> bool {
    x >= 0x80000000
}

/// A 32-bit address reduced to the 24 bits the bus decodes.
pub open spec fn mask24(a: u32) -> u32 {
    a % 0x1000000
}

// ---------------------------------------------------------------------------
// Executable counterparts.

pub fn take8(x: u32) -> (r: u8)
    ensures
        r == low8(x),
{
    (x % 0x100) as u8
}

pub fn take16(x: u32) -> (r: u16)
    ensures
        r == low16(x),
{
    (x % 0x10000) as u16
}

pub fn take8of16(x: u16) -> (r: u8)
    ensures
        r == low8_of16(x),
{
    (x % 0x100) as u8
}

pub fn split16(x: u16) -> (r: (u8, u8))
    ensures
        r.0 == hi8_of16(x),
        r.1 == low8_of16(x),
{
    ((x / 0x100) as u8, (x % 0x100) as u8)
}

pub fn split32(x: u32) -> (r: (u8, u8, u8, u8))
    ensures
        r.0 == byte3(x),
        r.1 == byte2(x),
        r.2 == byte1(x),
        r.3 == low8(x),
{
    (
        (x / 0x1000000) as u8,
        ((x / 0x10000) % 0x100) as u8,
        ((x / 0x100) % 0x100) as u8,
        (x % 0x100) as u8,
    )
}

pub fn glue16(hi: u8, lo: u8) -> (r: u16)
    ensures
        r == join16(hi, lo),
{
    (hi as u16) * 0x100 + (lo as u16)
}

pub fn glue32(b3: u8, b2: u8, b1: u8, b0: u8) -> (r: u32)
    ensures
        r == join32(b3, b2, b1, b0),
{
    (b3 as u32) * 0x1000000 + (b2 as u32) * 0x10000 + (b1 as u32) * 0x100 + (b0 as u32)
}

/// Replaces the low byte of `x` with `b`, leaving the upper 24 bits as they were.
pub fn replace_byte(x: u32, b: u8) -> (r: u32)
    ensures
        r == set_low8(x, b),
{
    (x - x % 0x100) + (b as u32)
}

/// Replaces the low word of `x` with `w`, leaving the upper 16 bits as they were.
pub fn replace_word(x: u32, w: u16) -> (r: u32)
    ensures
        r == set_low16(x, w),
{
    (x - x % 0x10000) + (w as u32)
}

pub fn sign_extend8(b: u8) -> (r: u32)
    ensures
        r == sext8to32(b),
{
    if b < 0x80 {
        b as u32
    } else {
        0xffffff00 + (b as u32)
    }
}

pub fn sign_extend16(w: u16) -> (r: u32)
    ensures
        r == sext16to32(w),
{
    if w < 0x8000 {
        w as u32
    } else {
        0xffff0000 + (w as u32)
    }
}

pub fn sign_extend8to16(b: u8) -> (r: u16)
    ensures
        r == sext8to16(b),
{
    if b < 0x80 {
        b as u16
    } else {
        0xff00 + (b as u16)
    }
}

// ---------------------------------------------------------------------------
// Laws of the byte model.

/// Splitting a word into bytes and joining them again is the identity.
pub proof fn lemma_join_split16(x: u16)
    ensures
        join16(hi8_of16(x), low8_of16(x)) == x,
{
}

/// Splitting a long into bytes and joining them again is the identity.
pub proof fn lemma_join_split32(x: u32)
    ensures
        join32(byte3(x), byte2(x), byte1(x), low8(x)) == x,
{
    assert(x / 0x1000000 * 0x1000000 + (x / 0x10000 % 0x100) * 0x10000 + (x / 0x100 % 0x100)
        * 0x100 + x % 0x100 == x) by (nonlinear_arith);
}

/// Replacing the low byte keeps the upper 24 bits.
pub proof fn lemma_set_low8_upper(x: u32, b: u8)
    ensures
        set_low8(x, b) / 0x100 == x / 0x100,
        low8(set_low8(x, b)) == b,
{
    assert(((x - x % 0x100) + b) / 0x100 == x / 0x100 && ((x - x % 0x100) + b) % 0x100 == b)
        by (nonlinear_arith);
}

/// Replacing the low word keeps the upper 16 bits.
pub proof fn lemma_set_low16_upper(x: u32, w: u16)
    ensures
        set_low16(x, w) / 0x10000 == x / 0x10000,
        low16(set_low16(x, w)) == w,
{
    assert(((x - x % 0x10000) + w) / 0x10000 == x / 0x10000 && ((x - x % 0x10000) + w) % 0x10000
        == w) by (nonlinear_arith);
}

} // verus!
