//! Instruction-execution core of a Sharp LR35902 CPU emulator: a memory unit
//! mapping the 16-bit address space onto banked regions with echo aliasing, a
//! register file with paired 16-bit views and a flag register, and a
//! fetch-decode-execute engine with per-instruction cycle costs.

pub mod cpu;
pub mod gameboy;
pub mod isa;
pub mod mmu;
pub mod opcodes;

use vstd::prelude::*;

verus! {

/// Errors raised at the core's load-time boundaries.  `SizeMismatch` is
/// reported when a cartridge bank image is not exactly one bank's worth of
/// bytes; `EncodingError` when the game-title bytes are not valid text.
#[derive(Clone, Copy, PartialEq, Eq, Structural, Debug)]
pub enum GbError {
    SizeMismatch,
    EncodingError,
}

/// 16-bit addition, wrapping modulo 2^16.
pub open spec fn wrap_add16(a: u16, b: u16) -> u16 {
    (((a as int) + (b as int)) % 0x10000) as u16
}

/// 16-bit subtraction, wrapping modulo 2^16.
pub open spec fn wrap_sub16(a: u16, b: u16) -> u16 {
    (((a as int) + 0x10000 - (b as int)) % 0x10000) as u16
}

/// 8-bit increment, wrapping at the byte boundary.
pub open spec fn wrap_inc8(v: u8) -> u8 {
    if v == 0xFF {
        0
    } else {
        (v + 1) as u8
    }
}

/// 8-bit decrement, wrapping at the byte boundary.
pub open spec fn wrap_dec8(v: u8) -> u8 {
    if v == 0 {
        0xFF
    } else {
        (v - 1) as u8
    }
}

/// 8-bit addition, wrapping modulo 2^8.
pub open spec fn wrap_add8(a: u8, b: u8) -> u8 {
    (((a as int) + (b as int)) % 0x100) as u8
}

/// The high byte of a 16-bit value.
pub open spec fn hi_byte(v: u16) -> u8 {
    (v / 256) as u8
}

/// The low byte of a 16-bit value.
pub open spec fn lo_byte(v: u16) -> u8 {
    (v % 256) as u8
}

/// The 16-bit value formed from a high and a low byte.
pub open spec fn word_of(hi: u8, lo: u8) -> u16 {
    ((hi as int) * 256 + (lo as int)) as u16
}

/// Splitting a word into bytes and recombining them is the identity, and
/// combining two bytes recovers each byte: the register-pair view of two
/// 8-bit registers loses no information.
pub proof fn lemma_word_bytes(hi: u8, lo: u8, v: u16)
    ensures
        word_of(hi_byte(v), lo_byte(v)) == v,
        hi_byte(word_of(hi, lo)) == hi,
        lo_byte(word_of(hi, lo)) == lo,
{
}

pub fn wadd16(a: u16, b: u16) -> (r: u16)
    ensures
        r == wrap_add16(a, b),
{
    let s: u32 = (a as u32) + (b as u32);
    if s >= 0x10000 {
        (s - 0x10000) as u16
    } else {
        s as u16
    }
}

pub fn wsub16(a: u16, b: u16) -> (r: u16)
    ensures
        r == wrap_sub16(a, b),
{
    let s: u32 = (a as u32) + 0x10000 - (b as u32);
    if s >= 0x10000 {
        (s - 0x10000) as u16
    } else {
        s as u16
    }
}

pub fn winc8(v: u8) -> (r: u8)
    ensures
        r == wrap_inc8(v),
{
    if v == 0xFF {
        0
    } else {
        v + 1
    }
}

pub fn wdec8(v: u8) -> (r: u8)
    ensures
        r == wrap_dec8(v),
{
    if v == 0 {
        0xFF
    } else {
        v - 1
    }
}

pub fn wadd8(a: u8, b: u8) -> (r: u8)
    ensures
        r == wrap_add8(a, b),
{
    let s: u16 = (a as u16) + (b as u16);
    if s >= 0x100 {
        (s - 0x100) as u8
    } else {
        s as u8
    }
}

} // verus!
