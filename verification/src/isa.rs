//! The instruction table and the specification of one fetch-decode-execute
//! step.  `decode` is the static mapping from opcode byte to operation
//! descriptor; `instr_step` gives each descriptor's exact effect on the
//! CPU-visible state and memory, together with its cycle cost.  New opcodes
//! are added by extending the table, not by special-casing the engine.

use vstd::prelude::*;

use crate::cpu::CPU;
use crate::cpu::Reg;
use crate::cpu::Registers;
use crate::cpu::fetch8;
use crate::cpu::fetch16;
use crate::cpu::pair_of;
use crate::cpu::pair_set_spec;
use crate::cpu::reg_upd;
use crate::cpu::reg_val;
use crate::hi_byte;
use crate::lo_byte;
use crate::mmu::mem_write;
use crate::opcodes::spn_flags;
use crate::wrap_add16;
use crate::wrap_sub16;

verus! {

/// Names for the 16-bit register pairs.
#[derive(Clone, Copy, PartialEq, Eq, Structural, Debug)]
pub enum Pair {
    BC,
    DE,
    HL,
    AF,
}

/// The register holding the high byte of a pair.
pub open spec fn pair_hi(p: Pair) -> Reg {
    match p {
        Pair::BC => Reg::B,
        Pair::DE => Reg::D,
        Pair::HL => Reg::H,
        Pair::AF => Reg::A,
    }
}

/// The register holding the low byte of a pair.
pub open spec fn pair_lo(p: Pair) -> Reg {
    match p {
        Pair::BC => Reg::C,
        Pair::DE => Reg::E,
        Pair::HL => Reg::L,
        Pair::AF => Reg::F,
    }
}

/// Operation descriptors: one constructor per addressing-mode family, with
/// the registers it touches as operands.  `Unknown` stands for every opcode
/// absent from the table.
#[derive(Clone, Copy, PartialEq, Eq, Structural, Debug)]
pub enum Instr {
    /// No effect beyond advancing PC.
    Nop,
    /// `r <- n`: immediate byte into a register.
    LdRN(Reg),
    /// `r1 <- r2`: register-to-register move (including a move to self).
    LdRR(Reg, Reg),
    /// `(HL) <- n`: immediate byte into the byte addressed by HL.
    LdMemHlN,
    /// `(rr) <- A`: accumulator into the byte addressed by BC or DE.
    LdMemPairA(Pair),
    /// `(HL) <- r`: register into the byte addressed by HL.
    LdMemHlR(Reg),
    /// `A <- (rr)`: byte addressed by BC or DE into the accumulator.
    LdAMemPair(Pair),
    /// `r <- (HL)`: byte addressed by HL into a register.
    LdRMemHl(Reg),
    /// `(nn) <- A`: accumulator into the byte at the immediate address.
    LdMemNnA,
    /// `A <- (nn)`: byte at the immediate address into the accumulator.
    LdAMemNn,
    /// `(0xFF00 + r1) <- r2`: a register into the high page, addressed by
    /// another register.
    LdMemHiRR(Reg, Reg),
    /// `r1 <- (0xFF00 + r2)`: a high-page byte, addressed by one register,
    /// into another.
    LdRMemHiR(Reg, Reg),
    /// `(HL) <- A; HL <- HL+1`: store, then increment the pointer.
    LdiMemHlA,
    /// `A <- (HL); HL <- HL+1`: load, then increment the pointer.
    LdiAMemHl,
    /// `(HL) <- A; HL <- HL-1`: store, then decrement the pointer.
    LddMemHlA,
    /// `A <- (HL); HL <- HL-1`: load, then decrement the pointer.
    LddAMemHl,
    /// `(0xFF00+n) <- A`.
    LdMemNA,
    /// `A <- (0xFF00+n)`.
    LdAMemN,
    /// `rr <- nn`: immediate word into a register pair.
    LdPairNn(Pair),
    /// `(nn) <- SP`: stack pointer stored at the immediate address.
    LdMemNnSp,
    /// `SP <- nn`: immediate word into the stack pointer.
    LdSpNn,
    /// Pop a register pair off the stack.
    Pop(Pair),
    /// Push a register pair onto the stack.
    Push(Pair),
    /// `HL <- SP + n`, recomputing all four flags.
    LdHlSpN,
    /// `SP <- HL`.
    LdSpHl,
    /// Exclusive-OR the accumulator with itself.
    XorA,
    /// Unconditional absolute jump to the immediate word.
    JpNn,
    /// Restart: call the fixed vector 0x0038.
    Rst38,
    /// Any opcode absent from the table: advance PC by one, nothing else.
    Unknown,
}

/// The instruction table: the operation descriptor of each opcode byte.
pub open spec fn decode(op: u8) -> Instr {
    match op {
        0x00 => Instr::Nop,
        0x01 => Instr::LdPairNn(Pair::BC),
        0x02 => Instr::LdMemPairA(Pair::BC),
        0x06 => Instr::LdRN(Reg::B),
        0x08 => Instr::LdMemNnSp,
        0x0A => Instr::LdAMemPair(Pair::BC),
        0x0E => Instr::LdRN(Reg::C),
        0x11 => Instr::LdPairNn(Pair::DE),
        0x12 => Instr::LdMemPairA(Pair::DE),
        0x16 => Instr::LdRN(Reg::D),
        0x1A => Instr::LdAMemPair(Pair::DE),
        0x1E => Instr::LdRN(Reg::E),
        0x21 => Instr::LdPairNn(Pair::HL),
        0x22 => Instr::LdiMemHlA,
        0x26 => Instr::LdRN(Reg::H),
        0x2A => Instr::LdiAMemHl,
        0x2E => Instr::LdRN(Reg::L),
        0x31 => Instr::LdSpNn,
        0x32 => Instr::LddMemHlA,
        0x36 => Instr::LdMemHlN,
        0x3A => Instr::LddAMemHl,
        0x40 => Instr::LdRR(Reg::B, Reg::B),
        0x41 => Instr::LdRR(Reg::B, Reg::C),
        0x42 => Instr::LdRR(Reg::B, Reg::D),
        0x43 => Instr::LdRR(Reg::B, Reg::E),
        0x44 => Instr::LdRR(Reg::B, Reg::H),
        0x45 => Instr::LdRR(Reg::B, Reg::L),
        0x46 => Instr::LdRMemHl(Reg::B),
        0x47 => Instr::LdRR(Reg::B, Reg::A),
        0x48 => Instr::LdRR(Reg::C, Reg::B),
        0x49 => Instr::LdRR(Reg::C, Reg::C),
        0x4A => Instr::LdRR(Reg::C, Reg::D),
        0x4B => Instr::LdRR(Reg::C, Reg::E),
        0x4C => Instr::LdRR(Reg::C, Reg::H),
        0x4D => Instr::LdRR(Reg::C, Reg::L),
        0x4E => Instr::LdRMemHl(Reg::C),
        0x4F => Instr::LdRR(Reg::C, Reg::A),
        0x50 => Instr::LdRR(Reg::D, Reg::B),
        0x51 => Instr::LdRR(Reg::D, Reg::C),
        0x52 => Instr::LdRR(Reg::D, Reg::D),
        0x53 => Instr::LdRR(Reg::D, Reg::E),
        0x54 => Instr::LdRR(Reg::D, Reg::H),
        0x55 => Instr::LdRR(Reg::D, Reg::L),
        0x56 => Instr::LdRMemHl(Reg::D),
        0x57 => Instr::LdRR(Reg::D, Reg::A),
        0x58 => Instr::LdRR(Reg::E, Reg::B),
        0x59 => Instr::LdRR(Reg::E, Reg::C),
        0x5A => Instr::LdRR(Reg::E, Reg::D),
        0x5B => Instr::LdRR(Reg::E, Reg::E),
        0x5C => Instr::LdRR(Reg::E, Reg::H),
        0x5D => Instr::LdRR(Reg::E, Reg::L),
        0x5E => Instr::LdRMemHl(Reg::E),
        0x5F => Instr::LdRR(Reg::E, Reg::A),
        0x60 => Instr::LdRR(Reg::H, Reg::B),
        0x61 => Instr::LdRR(Reg::H, Reg::C),
        0x62 => Instr::LdRR(Reg::H, Reg::D),
        0x63 => Instr::LdRR(Reg::H, Reg::E),
        0x64 => Instr::LdRR(Reg::H, Reg::H),
        0x65 => Instr::LdRR(Reg::H, Reg::L),
        0x66 => Instr::LdRMemHl(Reg::H),
        0x67 => Instr::LdRR(Reg::H, Reg::A),
        0x68 => Instr::LdRR(Reg::L, Reg::B),
        0x69 => Instr::LdRR(Reg::L, Reg::C),
        0x6A => Instr::LdRR(Reg::L, Reg::D),
        0x6B => Instr::LdRR(Reg::L, Reg::E),
        0x6C => Instr::LdRR(Reg::L, Reg::H),
        0x6D => Instr::LdRR(Reg::L, Reg::L),
        0x6E => Instr::LdRMemHl(Reg::L),
        0x6F => Instr::LdRR(Reg::L, Reg::A),
        0x70 => Instr::LdMemHlR(Reg::B),
        0x71 => Instr::LdMemHlR(Reg::C),
        0x72 => Instr::LdMemHlR(Reg::D),
        0x73 => Instr::LdMemHlR(Reg::E),
        0x74 => Instr::LdMemHlR(Reg::H),
        0x75 => Instr::LdMemHlR(Reg::L),
        0x77 => Instr::LdMemHlR(Reg::A),
        0x78 => Instr::LdRR(Reg::A, Reg::B),
        0x79 => Instr::LdRR(Reg::A, Reg::C),
        0x7A => Instr::LdRR(Reg::A, Reg::D),
        0x7B => Instr::LdRR(Reg::A, Reg::E),
        0x7C => Instr::LdRR(Reg::A, Reg::H),
        0x7D => Instr::LdRR(Reg::A, Reg::L),
        0x7E => Instr::LdRMemHl(Reg::A),
        0x7F => Instr::LdRR(Reg::A, Reg::A),
        0xAF => Instr::XorA,
        0xC1 => Instr::Pop(Pair::BC),
        0xC3 => Instr::JpNn,
        0xC5 => Instr::Push(Pair::BC),
        0xD1 => Instr::Pop(Pair::DE),
        0xD5 => Instr::Push(Pair::DE),
        0xE0 => Instr::LdMemNA,
        0xE1 => Instr::Pop(Pair::HL),
        0xE2 => Instr::LdMemHiRR(Reg::C, Reg::A),
        0xE5 => Instr::Push(Pair::HL),
        0xEA => Instr::LdMemNnA,
        0xF0 => Instr::LdAMemN,
        0xF1 => Instr::Pop(Pair::AF),
        0xF2 => Instr::LdRMemHiR(Reg::C, Reg::A),
        0xF5 => Instr::Push(Pair::AF),
        0xF8 => Instr::LdHlSpN,
        0xF9 => Instr::LdSpHl,
        0xFA => Instr::LdAMemNn,
        0xFF => Instr::Rst38,
        _ => Instr::Unknown,
    }
}

/// The exact effect of one operation descriptor on the CPU state and the
/// memory, and its cycle cost.  Operand fetches read past the opcode without
/// advancing PC; PC advancement is part of the effect itself.  The clock is
/// left for the caller to accumulate.
pub open spec fn instr_step(i: Instr, cpu: CPU, mem: Map<u16, u8>) -> (CPU, Map<u16, u8>, (
    u8,
    u8,
)) {
    let rg = cpu.registers;
    let pc = cpu.pc;
    let sp = cpu.sp;
    let n = fetch8(mem, pc);
    let nn = fetch16(mem, pc);
    let hl = pair_of(rg, Reg::H, Reg::L);
    match i {
        Instr::Nop => (CPU { pc: wrap_add16(pc, 1), ..cpu }, mem, (1u8, 4u8)),
        Instr::LdRN(r) => (
            CPU { registers: reg_upd(rg, r, n), pc: wrap_add16(pc, 2), ..cpu },
            mem,
            (2u8, 8u8),
        ),
        Instr::LdRR(r1, r2) => (
            CPU { registers: reg_upd(rg, r1, reg_val(rg, r2)), pc: wrap_add16(pc, 1), ..cpu },
            mem,
            (1u8, 4u8),
        ),
        Instr::LdMemHlN => (
            CPU { pc: wrap_add16(pc, 2), ..cpu },
            mem_write(mem, hl, n),
            (3u8, 12u8),
        ),
        Instr::LdMemPairA(p) => (
            CPU { pc: wrap_add16(pc, 1), ..cpu },
            mem_write(mem, pair_of(rg, pair_hi(p), pair_lo(p)), rg.a),
            (2u8, 8u8),
        ),
        Instr::LdMemHlR(r) => (
            CPU { pc: wrap_add16(pc, 1), ..cpu },
            mem_write(mem, hl, reg_val(rg, r)),
            (2u8, 8u8),
        ),
        Instr::LdAMemPair(p) => (
            CPU {
                registers: reg_upd(rg, Reg::A, mem[pair_of(rg, pair_hi(p), pair_lo(p))]),
                pc: wrap_add16(pc, 1),
                ..cpu
            },
            mem,
            (2u8, 8u8),
        ),
        Instr::LdRMemHl(r) => (
            CPU { registers: reg_upd(rg, r, mem[hl]), pc: wrap_add16(pc, 1), ..cpu },
            mem,
            (2u8, 8u8),
        ),
        Instr::LdMemNnA => (
            CPU { pc: wrap_add16(pc, 3), ..cpu },
            mem_write(mem, nn, rg.a),
            (4u8, 16u8),
        ),
        Instr::LdAMemNn => (
            CPU { registers: reg_upd(rg, Reg::A, mem[nn]), pc: wrap_add16(pc, 3), ..cpu },
            mem,
            (4u8, 16u8),
        ),
        Instr::LdMemHiRR(r1, r2) => (
            CPU { pc: wrap_add16(pc, 1), ..cpu },
            mem_write(mem, (0xFF00 + reg_val(rg, r1) as int) as u16, reg_val(rg, r2)),
            (2u8, 8u8),
        ),
        Instr::LdRMemHiR(r1, r2) => (
            CPU {
                registers: reg_upd(rg, r1, mem[(0xFF00 + reg_val(rg, r2) as int) as u16]),
                pc: wrap_add16(pc, 1),
                ..cpu
            },
            mem,
            (2u8, 8u8),
        ),
        Instr::LdiMemHlA => (
            CPU {
                registers: pair_set_spec(rg, Reg::H, Reg::L, wrap_add16(hl, 1)),
                pc: wrap_add16(pc, 1),
                ..cpu
            },
            mem_write(mem, hl, rg.a),
            (2u8, 8u8),
        ),
        Instr::LdiAMemHl => (
            CPU {
                registers: pair_set_spec(
                    reg_upd(rg, Reg::A, mem[hl]),
                    Reg::H,
                    Reg::L,
                    wrap_add16(hl, 1),
                ),
                pc: wrap_add16(pc, 1),
                ..cpu
            },
            mem,
            (2u8, 8u8),
        ),
        Instr::LddMemHlA => (
            CPU {
                registers: pair_set_spec(rg, Reg::H, Reg::L, wrap_sub16(hl, 1)),
                pc: wrap_add16(pc, 1),
                ..cpu
            },
            mem_write(mem, hl, rg.a),
            (2u8, 8u8),
        ),
        Instr::LddAMemHl => (
            CPU {
                registers: pair_set_spec(
                    reg_upd(rg, Reg::A, mem[hl]),
                    Reg::H,
                    Reg::L,
                    wrap_sub16(hl, 1),
                ),
                pc: wrap_add16(pc, 1),
                ..cpu
            },
            mem,
            (2u8, 8u8),
        ),
        Instr::LdMemNA => (
            CPU { pc: wrap_add16(pc, 2), ..cpu },
            mem_write(mem, (0xFF00 + n as int) as u16, rg.a),
            (3u8, 12u8),
        ),
        Instr::LdAMemN => (
            CPU {
                registers: reg_upd(rg, Reg::A, mem[(0xFF00 + n as int) as u16]),
                pc: wrap_add16(pc, 2),
                ..cpu
            },
            mem,
            (3u8, 12u8),
        ),
        Instr::LdPairNn(p) => (
            CPU {
                registers: pair_set_spec(rg, pair_hi(p), pair_lo(p), nn),
                pc: wrap_add16(pc, 3),
                ..cpu
            },
            mem,
            (3u8, 12u8),
        ),
        Instr::LdMemNnSp => (
            CPU { pc: wrap_add16(pc, 3), ..cpu },
            mem_write(mem_write(mem, nn, lo_byte(sp)), wrap_add16(nn, 1), hi_byte(sp)),
            (5u8, 20u8),
        ),
        Instr::LdSpNn => (CPU { sp: nn, pc: wrap_add16(pc, 3), ..cpu }, mem, (3u8, 12u8)),
        Instr::Pop(p) => (
            CPU {
                registers: reg_upd(
                    reg_upd(rg, pair_hi(p), mem[wrap_add16(sp, 1)]),
                    pair_lo(p),
                    mem[sp],
                ),
                sp: wrap_add16(sp, 2),
                pc: wrap_add16(pc, 1),
                ..cpu
            },
            mem,
            (3u8, 12u8),
        ),
        Instr::Push(p) => (
            CPU { sp: wrap_sub16(sp, 2), pc: wrap_add16(pc, 1), ..cpu },
            mem_write(
                mem_write(mem, wrap_sub16(sp, 1), reg_val(rg, pair_hi(p))),
                wrap_sub16(sp, 2),
                reg_val(rg, pair_lo(p)),
            ),
            (4u8, 16u8),
        ),
        Instr::LdHlSpN => (
            CPU {
                registers: Registers {
                    h: hi_byte(wrap_add16(sp, n as u16)),
                    l: lo_byte(wrap_add16(sp, n as u16)),
                    f: spn_flags(sp, n),
                    ..rg
                },
                pc: wrap_add16(pc, 2),
                ..cpu
            },
            mem,
            (3u8, 12u8),
        ),
        Instr::LdSpHl => (CPU { sp: hl, pc: wrap_add16(pc, 1), ..cpu }, mem, (2u8, 8u8)),
        Instr::XorA => (
            CPU { registers: Registers { a: 0, f: 0x80, ..rg }, pc: wrap_add16(pc, 1), ..cpu },
            mem,
            (1u8, 4u8),
        ),
        Instr::JpNn => (CPU { pc: nn, ..cpu }, mem, (3u8, 12u8)),
        Instr::Rst38 => (
            CPU { sp: wrap_sub16(sp, 2), pc: 0x0038, ..cpu },
            mem_write(
                mem_write(mem, wrap_sub16(sp, 1), hi_byte(pc)),
                wrap_sub16(sp, 2),
                lo_byte(pc),
            ),
            (8u8, 32u8),
        ),
        Instr::Unknown => (CPU { pc: wrap_add16(pc, 1), ..cpu }, mem, (0u8, 0u8)),
    }
}

/// One full fetch-decode-execute step from a given CPU state over a given
/// memory: decode the opcode at PC and apply its effect.
pub open spec fn cpu_step(cpu: CPU, mem: Map<u16, u8>) -> (CPU, Map<u16, u8>, (u8, u8)) {
    instr_step(decode(mem[cpu.pc]), cpu, mem)
}

/// No entry of the instruction table moves a value into the flag register
/// through a plain register destination: flags change only through the
/// dedicated flag semantics of each instruction.
pub open spec fn instr_wf(i: Instr) -> bool {
    match i {
        Instr::LdRN(r) => r != Reg::F,
        Instr::LdRR(r1, r2) => r1 != Reg::F && r2 != Reg::F,
        Instr::LdRMemHl(r) => r != Reg::F,
        Instr::LdMemHlR(r) => r != Reg::F,
        Instr::LdRMemHiR(r1, r2) => r1 != Reg::F && r2 != Reg::F,
        Instr::LdMemHiRR(r1, r2) => r1 != Reg::F && r2 != Reg::F,
        _ => true,
    }
}

pub proof fn lemma_decode_wf(op: u8)
    ensures
        instr_wf(decode(op)),
{
}

/// An opcode absent from the instruction table advances PC by exactly one,
/// consumes no modeled cycles, and changes no register and no memory: a
/// recoverability policy, not a crash.
pub proof fn lemma_unknown_opcode(cpu: CPU, mem: Map<u16, u8>)
    requires
        decode(mem[cpu.pc]) is Unknown,
    ensures
        cpu_step(cpu, mem) == (CPU { pc: wrap_add16(cpu.pc, 1), ..cpu }, mem, (0u8, 0u8)),
{
}

/// The flag-register invariant: bits 3-0 of F are never set by any
/// operation.  If F has a zero lower nibble before a step, it has a zero
/// lower nibble after it, whatever the opcode.
pub proof fn lemma_flag_nibble_invariant(cpu: CPU, mem: Map<u16, u8>)
    requires
        cpu.registers.f & 0x0F == 0,
    ensures
        cpu_step(cpu, mem).0.registers.f & 0x0F == 0,
{
    let op = mem[cpu.pc];
    lemma_decode_wf(op);
    assert(forall|x: u8| ((x & 0xF0) & 0x0F) == 0) by (bit_vector);
    assert(0x80u8 & 0x0F == 0) by (bit_vector);
    assert(0x30u8 & 0x0F == 0 && 0x20u8 & 0x0F == 0 && 0x10u8 & 0x0F == 0 && 0x00u8 & 0x0F == 0)
        by (bit_vector);
}

} // verus!
