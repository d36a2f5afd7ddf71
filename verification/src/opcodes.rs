//! Per-instruction effects.  Each operation mutates the register file and/or
//! the memory unit, advances the program counter by the instruction length
//! (or redirects it, for control transfer), and returns its cycle cost as a
//! pair of machine cycles and clock cycles.
//!
//! Function naming:
//! {operation}_{"mem" for an address}_{register/address}_{incr/decr}...

use vstd::prelude::*;

use crate::hi_byte;
use crate::lo_byte;
use crate::mmu::MMU;
use crate::mmu::mem_write;
use crate::wadd16;
use crate::wrap_add16;
use crate::wrap_sub16;

verus! {

///// 8 bit loads /////
/// Loads the immediate value `n` into register `r`.
pub fn ld_r_n(pc: &mut u16, r: &mut u8, n: u8) -> (c: (u8, u8))
    ensures
        *final(r) == n,
        *final(pc) == wrap_add16(*old(pc), 2),
        c == (2u8, 8u8),
{
    *r = n;
    *pc = wadd16(*pc, 2);
    (2, 8)
}

/// Loads the value in register `r2` into register `r1`.
pub fn ld_r1_r2(pc: &mut u16, r1: &mut u8, r2: u8) -> (c: (u8, u8))
    ensures
        *final(r1) == r2,
        *final(pc) == wrap_add16(*old(pc), 1),
        c == (1u8, 4u8),
{
    *r1 = r2;
    *pc = wadd16(*pc, 1);
    (1, 4)
}

/// Loads the immediate value `n` into the byte addressed by `rr`.
pub fn ld_mem_rr_n(pc: &mut u16, mmu: &mut MMU, rr: u16, n: u8) -> (c: (u8, u8))
    requires
        old(mmu).wf(),
    ensures
        final(mmu).wf(),
        final(mmu)@ == mem_write(old(mmu)@, rr, n),
        *final(pc) == wrap_add16(*old(pc), 2),
        c == (3u8, 12u8),
{
    mmu.write(rr, n);
    *pc = wadd16(*pc, 2);
    (3, 12)
}

/// Loads the value in register `r` into the byte addressed by `rr`.
pub fn ld_mem_rr_r(pc: &mut u16, mmu: &mut MMU, rr: u16, r: u8) -> (c: (u8, u8))
    requires
        old(mmu).wf(),
    ensures
        final(mmu).wf(),
        final(mmu)@ == mem_write(old(mmu)@, rr, r),
        *final(pc) == wrap_add16(*old(pc), 1),
        c == (2u8, 8u8),
{
    mmu.write(rr, r);
    *pc = wadd16(*pc, 1);
    (2, 8)
}

/// Loads a register into itself: no effect on the register file, but the
/// program counter still advances and the cycles are still consumed.
pub fn ld_r1_r1(pc: &mut u16, r1: &mut u8) -> (c: (u8, u8))
    ensures
        *final(r1) == *old(r1),
        *final(pc) == wrap_add16(*old(pc), 1),
        c == (1u8, 4u8),
{
    *pc = wadd16(*pc, 1);
    (1, 4)
}

/// Loads the byte addressed by `rr` into register `r`.
pub fn ld_r_mem_rr(pc: &mut u16, mmu: &mut MMU, rr: u16, r: &mut u8) -> (c: (u8, u8))
    requires
        old(mmu).wf(),
    ensures
        *final(mmu) == *old(mmu),
        *final(r) == old(mmu)@[rr],
        *final(pc) == wrap_add16(*old(pc), 1),
        c == (2u8, 8u8),
{
    *r = mmu.read(rr);
    *pc = wadd16(*pc, 1);
    (2, 8)
}

/// Loads the value in register `r` into the byte addressed by the immediate
/// word `nn`.
pub fn ld_mem_nn_r(pc: &mut u16, mmu: &mut MMU, nn: u16, r: u8) -> (c: (u8, u8))
    requires
        old(mmu).wf(),
    ensures
        final(mmu).wf(),
        final(mmu)@ == mem_write(old(mmu)@, nn, r),
        *final(pc) == wrap_add16(*old(pc), 3),
        c == (4u8, 16u8),
{
    mmu.write(nn, r);
    *pc = wadd16(*pc, 3);
    (4, 16)
}

/// Loads the byte addressed by the immediate word `nn` into register `r`.
pub fn ld_r_mem_nn(pc: &mut u16, mmu: &mut MMU, nn: u16, r: &mut u8) -> (c: (u8, u8))
    requires
        old(mmu).wf(),
    ensures
        *final(mmu) == *old(mmu),
        *final(r) == old(mmu)@[nn],
        *final(pc) == wrap_add16(*old(pc), 3),
        c == (4u8, 16u8),
{
    *r = mmu.read(nn);
    *pc = wadd16(*pc, 3);
    (4, 16)
}

/// Loads the byte at address `0xFF00 + r2` into register `r1`.
pub fn ld_r1_mem_r2(pc: &mut u16, mmu: &mut MMU, r1: &mut u8, r2: u8) -> (c: (u8, u8))
    requires
        old(mmu).wf(),
    ensures
        *final(mmu) == *old(mmu),
        *final(r1) == old(mmu)@[(0xFF00 + (r2 as u16)) as u16],
        *final(pc) == wrap_add16(*old(pc), 1),
        c == (2u8, 8u8),
{
    *r1 = mmu.read(0xFF00 + (r2 as u16));
    *pc = wadd16(*pc, 1);
    (2, 8)
}

/// Loads the value in register `r2` into the byte at address `0xFF00 + r1`.
pub fn ld_mem_r1_r2(pc: &mut u16, mmu: &mut MMU, r1: u8, r2: u8) -> (c: (u8, u8))
    requires
        old(mmu).wf(),
    ensures
        final(mmu).wf(),
        final(mmu)@ == mem_write(old(mmu)@, (0xFF00 + (r1 as u16)) as u16, r2),
        *final(pc) == wrap_add16(*old(pc), 1),
        c == (2u8, 8u8),
{
    mmu.write(0xFF00 + (r1 as u16), r2);
    *pc = wadd16(*pc, 1);
    (2, 8)
}

/// Stores register `r` at the address in `rr`, then increments `rr`; the
/// store happens before the pointer mutates.
pub fn ld_mem_rr_inc_r(pc: &mut u16, mmu: &mut MMU, rr: &mut u16, r: u8) -> (c: (u8, u8))
    requires
        old(mmu).wf(),
    ensures
        final(mmu).wf(),
        final(mmu)@ == mem_write(old(mmu)@, *old(rr), r),
        *final(rr) == wrap_add16(*old(rr), 1),
        *final(pc) == wrap_add16(*old(pc), 1),
        c == (2u8, 8u8),
{
    mmu.write(*rr, r);
    *rr = wadd16(*rr, 1);
    *pc = wadd16(*pc, 1);
    (2, 8)
}

/// Loads the byte at the address in `rr` into register `r`, then increments
/// `rr`; the load happens before the pointer mutates.
pub fn ld_r_mem_rr_inc(pc: &mut u16, mmu: &mut MMU, rr: &mut u16, r: &mut u8) -> (c: (u8, u8))
    requires
        old(mmu).wf(),
    ensures
        *final(mmu) == *old(mmu),
        *final(r) == old(mmu)@[*old(rr)],
        *final(rr) == wrap_add16(*old(rr), 1),
        *final(pc) == wrap_add16(*old(pc), 1),
        c == (2u8, 8u8),
{
    *r = mmu.read(*rr);
    *rr = wadd16(*rr, 1);
    *pc = wadd16(*pc, 1);
    (2, 8)
}

/// Stores register `r` at the address in `rr`, then decrements `rr`; the
/// store happens before the pointer mutates.
pub fn ld_mem_rr_dec_r(pc: &mut u16, mmu: &mut MMU, rr: &mut u16, r: u8) -> (c: (u8, u8))
    requires
        old(mmu).wf(),
    ensures
        final(mmu).wf(),
        final(mmu)@ == mem_write(old(mmu)@, *old(rr), r),
        *final(rr) == wrap_sub16(*old(rr), 1),
        *final(pc) == wrap_add16(*old(pc), 1),
        c == (2u8, 8u8),
{
    mmu.write(*rr, r);
    *rr = crate::wsub16(*rr, 1);
    *pc = wadd16(*pc, 1);
    (2, 8)
}

/// Loads the byte at the address in `rr` into register `r`, then decrements
/// `rr`; the load happens before the pointer mutates.
pub fn ld_r_mem_rr_dec(pc: &mut u16, mmu: &mut MMU, rr: &mut u16, r: &mut u8) -> (c: (u8, u8))
    requires
        old(mmu).wf(),
    ensures
        *final(mmu) == *old(mmu),
        *final(r) == old(mmu)@[*old(rr)],
        *final(rr) == wrap_sub16(*old(rr), 1),
        *final(pc) == wrap_add16(*old(pc), 1),
        c == (2u8, 8u8),
{
    *r = mmu.read(*rr);
    *rr = crate::wsub16(*rr, 1);
    *pc = wadd16(*pc, 1);
    (2, 8)
}

/// Loads the value in register `r` into the byte addressed by `n` (the
/// caller passes the full `0xFF00 + immediate` address).
pub fn ld_mem_n_r(pc: &mut u16, mmu: &mut MMU, n: u16, r: u8) -> (c: (u8, u8))
    requires
        old(mmu).wf(),
    ensures
        final(mmu).wf(),
        final(mmu)@ == mem_write(old(mmu)@, n, r),
        *final(pc) == wrap_add16(*old(pc), 2),
        c == (3u8, 12u8),
{
    mmu.write(n, r);
    *pc = wadd16(*pc, 2);
    (3, 12)
}

/// Loads the byte at address `0xFF00 + n` into register `r`.
pub fn ld_r_mem_n(pc: &mut u16, mmu: &mut MMU, n: u8, r: &mut u8) -> (c: (u8, u8))
    requires
        old(mmu).wf(),
    ensures
        *final(mmu) == *old(mmu),
        *final(r) == old(mmu)@[(0xFF00 + (n as u16)) as u16],
        *final(pc) == wrap_add16(*old(pc), 2),
        c == (3u8, 12u8),
{
    *r = mmu.read(0xFF00 + (n as u16));
    *pc = wadd16(*pc, 2);
    (3, 12)
}

///// 16 bit loads /////
/// Loads the immediate word `nn` into the register pair (`r1`, `r2`), high
/// byte into `r1`.
pub fn ld_rr_nn(pc: &mut u16, r1: &mut u8, r2: &mut u8, nn: u16) -> (c: (u8, u8))
    ensures
        *final(r1) == hi_byte(nn),
        *final(r2) == lo_byte(nn),
        *final(pc) == wrap_add16(*old(pc), 3),
        c == (3u8, 12u8),
{
    *r1 = (nn / 256) as u8;
    *r2 = (nn % 256) as u8;
    *pc = wadd16(*pc, 3);
    (3, 12)
}

/// Stores the stack pointer at the immediate address, little-endian: the
/// low byte at `nn` and the high byte at the next address.
pub fn ld_mem_nn_sp(pc: &mut u16, mmu: &mut MMU, nn: u16, sp: u16) -> (c: (u8, u8))
    requires
        old(mmu).wf(),
    ensures
        final(mmu).wf(),
        final(mmu)@ == mem_write(
            mem_write(old(mmu)@, nn, lo_byte(sp)),
            wrap_add16(nn, 1),
            hi_byte(sp),
        ),
        *final(pc) == wrap_add16(*old(pc), 3),
        c == (5u8, 20u8),
{
    mmu.write(nn, (sp % 256) as u8);
    mmu.write(wadd16(nn, 1), (sp / 256) as u8);
    *pc = wadd16(*pc, 3);
    (5, 20)
}

/// Loads the immediate word `nn` into the stack pointer.
pub fn ld_sp_nn(pc: &mut u16, sp: &mut u16, nn: u16) -> (c: (u8, u8))
    ensures
        *final(sp) == nn,
        *final(pc) == wrap_add16(*old(pc), 3),
        c == (3u8, 12u8),
{
    *sp = nn;
    *pc = wadd16(*pc, 3);
    (3, 12)
}

/// Pops the register pair (`r1`, `r2`) off the stack: the low register from
/// the stack-pointer address, then the high register from one above; the
/// stack pointer rises by two and no memory is mutated.
pub fn pop_rr(pc: &mut u16, mmu: &mut MMU, sp: &mut u16, r1: &mut u8, r2: &mut u8) -> (c: (
    u8,
    u8,
))
    requires
        old(mmu).wf(),
    ensures
        *final(mmu) == *old(mmu),
        *final(r2) == old(mmu)@[*old(sp)],
        *final(r1) == old(mmu)@[wrap_add16(*old(sp), 1)],
        *final(sp) == wrap_add16(*old(sp), 2),
        *final(pc) == wrap_add16(*old(pc), 1),
        c == (3u8, 12u8),
{
    *r2 = mmu.pop(sp);
    *r1 = mmu.pop(sp);
    *pc = wadd16(*pc, 1);
    (3, 12)
}

/// Pushes the register pair (`r1`, `r2`) onto the stack, high register
/// first, so the high byte ends up at the higher address; the stack pointer
/// drops by two.
pub fn push_rr(pc: &mut u16, mmu: &mut MMU, sp: &mut u16, r1: u8, r2: u8) -> (c: (u8, u8))
    requires
        old(mmu).wf(),
    ensures
        final(mmu).wf(),
        final(mmu)@ == mem_write(
            mem_write(old(mmu)@, wrap_sub16(*old(sp), 1), r1),
            wrap_sub16(*old(sp), 2),
            r2,
        ),
        *final(sp) == wrap_sub16(*old(sp), 2),
        *final(pc) == wrap_add16(*old(pc), 1),
        c == (4u8, 16u8),
{
    mmu.push(sp, r1);
    mmu.push(sp, r2);
    *pc = wadd16(*pc, 1);
    (4, 16)
}

/// The half-carry test of the stack-pointer-plus-immediate adjustment: the
/// addition carries out of the low nibble.
pub open spec fn spn_half_carry(sp: u16, n: u8) -> bool {
    (sp as int) % 16 + (n as int) % 16 > 15
}

/// The carry test of the stack-pointer-plus-immediate adjustment: the
/// addition overflows the full 16-bit width.
pub open spec fn spn_carry(sp: u16, n: u8) -> bool {
    (sp as int) + (n as int) > 0xFFFF
}

/// The flag register after the stack-pointer-plus-immediate adjustment:
/// Z and N cleared, H and C recomputed from the addition, lower nibble zero.
pub open spec fn spn_flags(sp: u16, n: u8) -> u8 {
    ((if spn_half_carry(sp, n) {
        0x20int
    } else {
        0int
    }) + (if spn_carry(sp, n) {
        0x10int
    } else {
        0int
    })) as u8
}

/// Loads `sp + n` (wrapping) into the register pair (`r1`, `r2`) and
/// recomputes all four flags: Z and N cleared, H from the low-nibble carry,
/// C from the 16-bit carry-out.
pub fn ld_rr_spn(pc: &mut u16, r1: &mut u8, r2: &mut u8, sp: u16, n: u8, f: &mut u8) -> (c: (
    u8,
    u8,
))
    ensures
        *final(r1) == hi_byte(wrap_add16(sp, n as u16)),
        *final(r2) == lo_byte(wrap_add16(sp, n as u16)),
        *final(f) == spn_flags(sp, n),
        *final(pc) == wrap_add16(*old(pc), 2),
        c == (3u8, 12u8),
{
    let sum: u32 = (sp as u32) + (n as u32);
    let value: u16 = if sum >= 0x10000 {
        (sum - 0x10000) as u16
    } else {
        sum as u16
    };
    *r1 = (value / 256) as u8;
    *r2 = (value % 256) as u8;
    let mut flags: u8 = 0;
    proof {
        assert(sp & 0x0F == sp % 16) by (bit_vector);
        let nw = n as u16;
        assert(nw & 0x0F == nw % 16) by (bit_vector);
        assert((n as u16) % 16 == (n as int) % 16);
    }
    // half-carry out of the low nibble
    if (sp & 0x0F) + ((n as u16) & 0x0F) > 0x0F {
        flags = flags + 0x20;
    }
    // carry out of the full 16-bit width
    if sum > 0xFFFF {
        flags = flags + 0x10;
    }
    *f = flags;
    *pc = wadd16(*pc, 2);
    (3, 12)
}

/// Loads the value in the register pair HL into the stack pointer.
pub fn ld_sp_hl(pc: &mut u16, sp: &mut u16, hl: u16) -> (c: (u8, u8))
    ensures
        *final(sp) == hl,
        *final(pc) == wrap_add16(*old(pc), 1),
        c == (2u8, 8u8),
{
    *sp = hl;
    *pc = wadd16(*pc, 1);
    (2, 8)
}

///// 8 bit ALU /////
/// Exclusive-ORs the accumulator with itself: the accumulator becomes zero
/// and the flag register becomes exactly 0b1000_0000 (Z set, N/H/C clear,
/// lower nibble zero), from any starting value.
pub fn xor_a(pc: &mut u16, a: &mut u8, f: &mut u8) -> (c: (u8, u8))
    ensures
        *final(a) == 0,
        *final(f) == 0x80,
        *final(pc) == wrap_add16(*old(pc), 1),
        c == (1u8, 4u8),
{
    let result = *a ^ *a;
    proof {
        let av = *a;
        assert(av ^ av == 0) by (bit_vector);
    }
    *a = result;
    *f = 0x80;
    *pc = wadd16(*pc, 1);
    (1, 4)
}

///// jumps /////
/// Unconditional absolute jump: sets the program counter to `addr`
/// wholesale, whatever it held before.
pub fn jp_nn(pc: &mut u16, addr: u16) -> (c: (u8, u8))
    ensures
        *final(pc) == addr,
        c == (3u8, 12u8),
{
    *pc = addr;
    (3, 12)
}

///// restarts /////
/// Restart: pushes the current program counter, high byte then low byte,
/// and jumps to the fixed vector 0x0038; the stack pointer drops by two.
pub fn rst_38(pc: &mut u16, sp: &mut u16, mmu: &mut MMU) -> (c: (u8, u8))
    requires
        old(mmu).wf(),
    ensures
        final(mmu).wf(),
        final(mmu)@ == mem_write(
            mem_write(old(mmu)@, wrap_sub16(*old(sp), 1), hi_byte(*old(pc))),
            wrap_sub16(*old(sp), 2),
            lo_byte(*old(pc)),
        ),
        *final(sp) == wrap_sub16(*old(sp), 2),
        *final(pc) == 0x0038,
        c == (8u8, 32u8),
{
    let hi = (*pc / 256) as u8;
    let lo = (*pc % 256) as u8;
    mmu.push(sp, hi);
    mmu.push(sp, lo);
    *pc = 0x0038;
    (8, 32)
}

///// misc /////
/// No-operation: advances the program counter by one, nothing else.
pub fn nop(pc: &mut u16) -> (c: (u8, u8))
    ensures
        *final(pc) == wrap_add16(*old(pc), 1),
        c == (1u8, 4u8),
{
    *pc = wadd16(*pc, 1);
    (1, 4)
}

} // verus!
