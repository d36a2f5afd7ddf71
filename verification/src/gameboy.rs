//! The assembled core: one CPU and one memory unit, exclusively owned,
//! stepped one instruction at a time by the driving loop.

use vstd::prelude::*;

use std::io::Write;

use crate::GbError;
use crate::cpu::CPU;
use crate::cpu::Clock;
use crate::cpu::power_on_cpu;
use crate::isa::cpu_step;
use crate::mmu::MMU;
use crate::mmu::io_defaults;
use crate::mmu::rom_loaded;
use crate::mmu::title_bytes;
use crate::mmu::trim_trailing_zeros;
use crate::mmu::utf8_decoding;
use crate::wrap_add8;

verus! {

/// An emulator session: CPU state and memory, created once at power-on and
/// mutated only through `step`, `power_on` and `load_game`.
pub struct Gameboy {
    pub cpu: CPU,
    pub mmu: MMU,
}

impl Gameboy {
    /// The session is usable while its memory regions keep their documented
    /// sizes; every operation preserves this.
    pub open spec fn wf(self) -> bool {
        self.mmu.wf()
    }

    pub fn new() -> (r: Gameboy)
        ensures
            r.wf(),
            r.cpu == power_on_cpu(),
            forall|a: u16| r.mmu@[a] == 0u8,
    {
        Default::default()
    }

    /// Installs a cartridge image: two bank buffers of exactly 16384 bytes
    /// each.  On a size mismatch the load aborts with no partial state.
    pub fn load_game(&mut self, bank_0: Vec<u8>, bank_1: Vec<u8>) -> (r: Result<(), GbError>)
        requires
            old(self).wf(),
        ensures
            final(self).wf(),
            r is Ok <==> (bank_0@.len() == 0x4000 && bank_1@.len() == 0x4000),
            r is Ok ==> final(self).mmu@ == rom_loaded(old(self).mmu@, bank_0@, bank_1@)
                && final(self).cpu == old(self).cpu,
            r is Err ==> *final(self) == *old(self) && r->Err_0 == GbError::SizeMismatch,
    {
        self.mmu.load_game(bank_0, bank_1)
    }

    /// Returns the cartridge title from the loaded ROM, trailing zero bytes
    /// trimmed; fails with `EncodingError` when the bytes are not valid
    /// text.
    pub fn get_game_title(&self) -> (r: Result<String, GbError>)
        requires
            self.wf(),
        ensures
            ({
                let trimmed = trim_trailing_zeros(title_bytes(self.mmu@));
                &&& r is Ok <==> utf8_decoding(trimmed) is Some
                &&& r is Ok ==> r->Ok_0@ == utf8_decoding(trimmed)->0
                &&& r is Err ==> r->Err_0 == GbError::EncodingError
            }),
    {
        self.mmu.get_game_title()
    }

    /// The bring-up sequence: writes the documented power-on values into the
    /// I/O register block before the first instruction executes.
    pub fn power_on(&mut self)
        requires
            old(self).wf(),
        ensures
            final(self).wf(),
            final(self).mmu@ == io_defaults(old(self).mmu@),
            final(self).cpu == old(self).cpu,
    {
        self.mmu.init_io();
    }

    /// Executes exactly one instruction, accumulates its cost into the
    /// running clock, and returns the machine and clock cycles consumed.
    pub fn step(&mut self) -> (c: (u8, u8))
        requires
            old(self).wf(),
        ensures
            final(self).wf(),
            ({
                let s = cpu_step(old(self).cpu, old(self).mmu@);
                &&& final(self).cpu == (CPU {
                    clock: Clock {
                        m: wrap_add8(old(self).cpu.clock.m, s.2.0),
                        t: wrap_add8(old(self).cpu.clock.t, s.2.1),
                    },
                    ..s.0
                })
                &&& final(self).mmu@ == s.1
                &&& c == s.2
            }),
    {
        let c = self.cpu.execute(&mut self.mmu);
        self.cpu.clock.m = crate::wadd8(self.cpu.clock.m, c.0);
        self.cpu.clock.t = crate::wadd8(self.cpu.clock.t, c.1);
        c
    }

    /// Reports the register state on standard output.
    pub fn print_registers(&self) {
        write_registers_line(&self.cpu);
    }
}

impl Default for Gameboy {
    fn default() -> (r: Gameboy)
        ensures
            r.wf(),
            r.cpu == power_on_cpu(),
            forall|a: u16| r.mmu@[a] == 0u8,
    {
        Gameboy { cpu: CPU::new(), mmu: MMU::new() }
    }
}

/// Relies on std's stdout and the writeln macro, for the diagnostic register
/// dump only; no register or memory state depends on it.
#[verifier::external_body]
fn write_registers_line(cpu: &CPU) {
    let _ = writeln!(
        std::io::stdout(),
        "a: {:#04x} b: {:#04x} c: {:#04x} d: {:#04x} e: {:#04x} f: {:#04x} h: {:#04x} l: {:#04x} pc: {:#06x} sp: {:#06x}",
        cpu.registers.a,
        cpu.registers.b,
        cpu.registers.c,
        cpu.registers.d,
        cpu.registers.e,
        cpu.registers.f,
        cpu.registers.h,
        cpu.registers.l,
        cpu.pc,
        cpu.sp,
    );
}

} // verus!
