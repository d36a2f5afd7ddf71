//! Memory unit: owns all byte-addressable storage and maps the flat 16-bit
//! address space onto disjoint physical regions, with the echo range
//! 0xE000-0xFDFF aliasing work RAM at 0xC000-0xDDFF.
//!
//! Memory layout:
//!   0x0000-0x3FFF  16 KiB ROM bank 0 (fixed)
//!   0x4000-0x7FFF  16 KiB ROM bank N (switchable; single bank here)
//!   0x8000-0x9FFF   8 KiB video RAM
//!   0xA000-0xBFFF   8 KiB external RAM
//!   0xC000-0xDFFF   8 KiB work RAM
//!   0xE000-0xFDFF         echo of work RAM 0xC000-0xDDFF
//!   0xFE00-0xFF7F         OAM and I/O registers, kept as plain storage
//!   0xFF80-0xFFFF         high RAM, with the interrupt-enable byte at 0xFFFF
//!
//! The unused sub-range 0xFEA0-0xFEFF is not distinguished: it reads as
//! whatever the OAM/I-O region currently stores.

use vstd::prelude::*;

use crate::GbError;
use crate::wrap_add16;
use crate::wrap_inc8;
use crate::wrap_dec8;
use crate::wrap_sub16;
use crate::wadd16;
use crate::winc8;
use crate::wdec8;
use crate::wsub16;

verus! {

/// The distinct physical regions behind the address space.
#[derive(Clone, Copy, PartialEq, Eq, Structural, Debug)]
pub enum Region {
    RomBank0,
    RomBankN,
    Vram,
    Eram,
    Wram,
    Io,
    Zram,
}

/// Folds an echo address onto the work-RAM byte it aliases; every other
/// address stands for itself.
pub open spec fn canonical_addr(addr: u16) -> u16 {
    if 0xE000 <= addr && addr < 0xFE00 {
        (addr - 0x2000) as u16
    } else {
        addr
    }
}

/// The region that stores the byte addressed by `addr`.
pub open spec fn region_of(addr: u16) -> Region {
    let a = canonical_addr(addr);
    if a < 0x4000 {
        Region::RomBank0
    } else if a < 0x8000 {
        Region::RomBankN
    } else if a < 0xA000 {
        Region::Vram
    } else if a < 0xC000 {
        Region::Eram
    } else if a < 0xE000 {
        Region::Wram
    } else if a < 0xFF80 {
        Region::Io
    } else {
        Region::Zram
    }
}

/// The number of bytes each region stores.
pub open spec fn region_len(r: Region) -> int {
    match r {
        Region::RomBank0 => 0x4000,
        Region::RomBankN => 0x4000,
        Region::Vram => 0x2000,
        Region::Eram => 0x2000,
        Region::Wram => 0x2000,
        Region::Io => 0x180,
        Region::Zram => 0x80,
    }
}

/// The in-region offset of `addr`: its canonical address minus the base of
/// its region.
pub open spec fn offset_of(addr: u16) -> int {
    let a = canonical_addr(addr) as int;
    match region_of(addr) {
        Region::RomBank0 => a,
        Region::RomBankN => a - 0x4000,
        Region::Vram => a - 0x8000,
        Region::Eram => a - 0xA000,
        Region::Wram => a - 0xC000,
        Region::Io => a - 0xFE00,
        Region::Zram => a - 0xFF80,
    }
}

/// Every 16-bit address resolves to exactly one region and one in-bounds
/// offset: `region_of` and `offset_of` are total functions, and the offset
/// always lies within the region it names.
pub proof fn lemma_address_coverage(addr: u16)
    ensures
        0 <= offset_of(addr) < region_len(region_of(addr)),
{
}

/// Round trip: after storing `data` at `addr`, reading `addr` returns
/// `data`, and every address that does not alias the same cell keeps its
/// byte, in every region.
pub proof fn lemma_write_read_round_trip(m: Map<u16, u8>, addr: u16, data: u8)
    ensures
        mem_write(m, addr, data)[addr] == data,
        forall|b: u16|
            canonical_addr(b) != canonical_addr(addr) ==> mem_write(m, addr, data)[b] == m[b],
{
}

/// Pushing two bytes and popping them back returns the same two bytes and
/// restores the original stack pointer, whatever the memory held before.
pub proof fn lemma_stack_round_trip(m: Map<u16, u8>, sp: u16, hi: u8, lo: u8)
    ensures
        ({
            let (m1, sp1) = push_byte(m, sp, hi);
            let (m2, sp2) = push_byte(m1, sp1, lo);
            let (first, sp3) = pop_byte(m2, sp2);
            let (second, sp4) = pop_byte(m2, sp3);
            &&& first == lo
            &&& second == hi
            &&& sp4 == sp
        }),
{
}

/// Two addresses reach the same stored byte exactly when they fold to the
/// same canonical address.
pub proof fn lemma_same_cell(a: u16, b: u16)
    ensures
        (region_of(a) == region_of(b) && offset_of(a) == offset_of(b)) <==> canonical_addr(a)
            == canonical_addr(b),
{
}

/// The memory contents after storing `data` at `addr`: the byte changes at
/// `addr` and at every address aliasing the same cell, and nowhere else.
pub open spec fn mem_write(m: Map<u16, u8>, addr: u16, data: u8) -> Map<u16, u8> {
    Map::total(
        |a: u16|
            if canonical_addr(a) == canonical_addr(addr) {
                data
            } else {
                m[a]
            },
    )
}

/// The stack discipline over the memory model: a push decrements the stack
/// pointer by one, then stores the byte at the new address.
pub open spec fn push_byte(m: Map<u16, u8>, sp: u16, data: u8) -> (Map<u16, u8>, u16) {
    (mem_write(m, wrap_sub16(sp, 1), data), wrap_sub16(sp, 1))
}

/// A pop reads the byte at the stack pointer, then increments the pointer by
/// one; it mutates no memory.
pub open spec fn pop_byte(m: Map<u16, u8>, sp: u16) -> (u8, u16) {
    (m[sp], wrap_add16(sp, 1))
}

/// Writing a byte through an echo address and through the work-RAM address it
/// aliases is the same operation, and both addresses always read the same
/// byte.
pub proof fn lemma_echo_aliasing(m: Map<u16, u8>, addr: u16, data: u8)
    requires
        0xE000 <= addr < 0xFE00,
    ensures
        mem_write(m, addr, data) == mem_write(m, (addr - 0x2000) as u16, data),
        mem_write(m, addr, data)[addr] == data,
        mem_write(m, addr, data)[(addr - 0x2000) as u16] == data,
{
    assert(mem_write(m, addr, data) =~= mem_write(m, (addr - 0x2000) as u16, data));
}

/// The memory unit.  All cross-component access goes through `read`, `write`
/// and the other byte-level operations; no other component holds references
/// into the regions.
pub struct MMU {
    rom_bank_0: Vec<u8>,
    rom_bank_nn: Vec<u8>,
    vram: Vec<u8>,
    eram: Vec<u8>,
    wram: Vec<u8>,
    io: Vec<u8>,
    zram: Vec<u8>,
}

impl View for MMU {
    type V = Map<u16, u8>;

    /// The memory unit viewed as a total map from addresses to bytes; echo
    /// addresses map to the same byte as the work-RAM cell they alias.
    closed spec fn view(&self) -> Map<u16, u8> {
        Map::total(|a: u16| self.byte_at(a))
    }
}

impl MMU {
    /// The byte stored at `addr`, resolved through the region decode.
    closed spec fn byte_at(self, addr: u16) -> u8 {
        let a = canonical_addr(addr) as int;
        if a < 0x4000 {
            self.rom_bank_0@[a]
        } else if a < 0x8000 {
            self.rom_bank_nn@[a - 0x4000]
        } else if a < 0xA000 {
            self.vram@[a - 0x8000]
        } else if a < 0xC000 {
            self.eram@[a - 0xA000]
        } else if a < 0xE000 {
            self.wram@[a - 0xC000]
        } else if a < 0xFF80 {
            self.io@[a - 0xFE00]
        } else {
            self.zram@[a - 0xFF80]
        }
    }

    /// Each region holds exactly its documented number of bytes.
    pub closed spec fn wf(self) -> bool {
        &&& self.rom_bank_0@.len() == 0x4000
        &&& self.rom_bank_nn@.len() == 0x4000
        &&& self.vram@.len() == 0x2000
        &&& self.eram@.len() == 0x2000
        &&& self.wram@.len() == 0x2000
        &&& self.io@.len() == 0x180
        &&& self.zram@.len() == 0x80
    }

    pub fn new() -> (r: MMU)
        ensures
            r.wf(),
            forall|a: u16| r@[a] == 0u8,
    {
        Default::default()
    }

    /// Stores `data` at `address`; the new contents are `mem_write` of the
    /// old.  Writes into the ROM regions are mechanically permitted (the
    /// loader uses them); the CPU must not rely on them on real hardware.
    pub fn write(&mut self, address: u16, data: u8)
        requires
            old(self).wf(),
        ensures
            final(self).wf(),
            final(self)@ == mem_write(old(self)@, address, data),
    {
        let a: u16 = if address >= 0xE000 && address < 0xFE00 {
            address - 0x2000
        } else {
            address
        };
        if a < 0x4000 {
            self.rom_bank_0.set(a as usize, data);
        } else if a < 0x8000 {
            self.rom_bank_nn.set((a - 0x4000) as usize, data);
        } else if a < 0xA000 {
            self.vram.set((a - 0x8000) as usize, data);
        } else if a < 0xC000 {
            self.eram.set((a - 0xA000) as usize, data);
        } else if a < 0xE000 {
            self.wram.set((a - 0xC000) as usize, data);
        } else if a < 0xFF80 {
            self.io.set((a - 0xFE00) as usize, data);
        } else {
            self.zram.set((a - 0xFF80) as usize, data);
        }
        proof {
            assert(self@ =~= mem_write(old(self)@, address, data));
        }
    }

    /// Returns the byte stored at `address`; every address is valid.
    pub fn read(&mut self, address: u16) -> (r: u8)
        requires
            old(self).wf(),
        ensures
            *final(self) == *old(self),
            r == old(self)@[address],
    {
        let a: u16 = if address >= 0xE000 && address < 0xFE00 {
            address - 0x2000
        } else {
            address
        };
        if a < 0x4000 {
            self.rom_bank_0[a as usize]
        } else if a < 0x8000 {
            self.rom_bank_nn[(a - 0x4000) as usize]
        } else if a < 0xA000 {
            self.vram[(a - 0x8000) as usize]
        } else if a < 0xC000 {
            self.eram[(a - 0xA000) as usize]
        } else if a < 0xE000 {
            self.wram[(a - 0xC000) as usize]
        } else if a < 0xFF80 {
            self.io[(a - 0xFE00) as usize]
        } else {
            self.zram[(a - 0xFF80) as usize]
        }
    }

    /// Read-modify-write by +1, wrapping at the 8-bit boundary.
    pub fn incr(&mut self, address: u16)
        requires
            old(self).wf(),
        ensures
            final(self).wf(),
            final(self)@ == mem_write(old(self)@, address, wrap_inc8(old(self)@[address])),
    {
        let v = self.read(address);
        self.write(address, winc8(v));
    }

    /// Read-modify-write by -1, wrapping at the 8-bit boundary.
    pub fn decr(&mut self, address: u16)
        requires
            old(self).wf(),
        ensures
            final(self).wf(),
            final(self)@ == mem_write(old(self)@, address, wrap_dec8(old(self)@[address])),
    {
        let v = self.read(address);
        self.write(address, wdec8(v));
    }

    /// Decrements the stack pointer by one, then stores `data` at the new
    /// stack-pointer address.
    pub fn push(&mut self, sp: &mut u16, data: u8)
        requires
            old(self).wf(),
        ensures
            final(self).wf(),
            (final(self)@, *final(sp)) == push_byte(old(self)@, *old(sp), data),
    {
        *sp = wsub16(*sp, 1);
        self.write(*sp, data);
    }

    /// Reads the byte at the stack-pointer address, then increments the
    /// pointer by one.  Popping mutates no memory.
    pub fn pop(&mut self, sp: &mut u16) -> (r: u8)
        requires
            old(self).wf(),
        ensures
            *final(self) == *old(self),
            (r, *final(sp)) == pop_byte(old(self)@, *old(sp)),
    {
        let val = self.read(*sp);
        *sp = wadd16(*sp, 1);
        val
    }

    /// Replaces the two ROM banks wholesale.  Each image must be exactly one
    /// bank's worth of bytes; otherwise the load aborts with `SizeMismatch`
    /// and no partial state is written.
    pub fn load_game(&mut self, bank_0: Vec<u8>, bank_1: Vec<u8>) -> (r: Result<(), GbError>)
        requires
            old(self).wf(),
        ensures
            final(self).wf(),
            r is Ok <==> (bank_0@.len() == 0x4000 && bank_1@.len() == 0x4000),
            r is Ok ==> final(self)@ == rom_loaded(old(self)@, bank_0@, bank_1@),
            r is Err ==> *final(self) == *old(self) && r->Err_0 == GbError::SizeMismatch,
    {
        if bank_0.len() != 0x4000 || bank_1.len() != 0x4000 {
            return Err(GbError::SizeMismatch);
        }
        self.rom_bank_0 = bank_0;
        self.rom_bank_nn = bank_1;
        proof {
            assert(self@ =~= rom_loaded(old(self)@, self.rom_bank_0@, self.rom_bank_nn@));
        }
        Ok(())
    }

    /// Returns the cartridge title: the sixteen bytes at ROM offsets
    /// 0x134..0x144 with trailing zero bytes trimmed, decoded as text.
    /// Fails with `EncodingError` when the trimmed bytes are not valid text.
    pub fn get_game_title(&self) -> (r: Result<String, GbError>)
        requires
            self.wf(),
        ensures
            ({
                let trimmed = trim_trailing_zeros(title_bytes(self@));
                &&& r is Ok <==> utf8_decoding(trimmed) is Some
                &&& r is Ok ==> r->Ok_0@ == utf8_decoding(trimmed)->0
                &&& r is Err ==> r->Err_0 == GbError::EncodingError
                &&& (forall|i: int| 0 <= i < trimmed.len() ==> trimmed[i] < 0x80) ==> (r is Ok
                    && r->Ok_0@.len() == trimmed.len() && (forall|i: int|
                    0 <= i < trimmed.len() ==> r->Ok_0@[i] as u32 == trimmed[i] as u32))
            }),
    {
        let mut buffer: Vec<u8> = Vec::new();
        let mut i: usize = 0;
        while i < 16
            invariant
                self.wf(),
                i <= 16,
                buffer@.len() == i,
                forall|j: int| 0 <= j < i ==> buffer@[j] == title_bytes(self@)[j],
            decreases 16 - i,
        {
            buffer.push(self.rom_bank_0[0x134 + i]);
            i = i + 1;
        }
        proof {
            assert(buffer@ =~= title_bytes(self@));
        }
        while buffer.len() > 0 && buffer[buffer.len() - 1] == 0
            invariant
                trim_trailing_zeros(buffer@) == trim_trailing_zeros(title_bytes(self@)),
            decreases buffer.len(),
        {
            let _ = buffer.pop();
        }
        match decode_utf8(buffer) {
            Some(title) => Ok(title),
            None => Err(GbError::EncodingError),
        }
    }

    /// Writes the documented power-on values into the I/O register block;
    /// the referenced peripherals themselves are out of scope.
    pub fn init_io(&mut self)
        requires
            old(self).wf(),
        ensures
            final(self).wf(),
            final(self)@ == io_defaults(old(self)@),
    {
        self.write(0xFF10, 0x80);
        self.write(0xFF11, 0xBF);
        self.write(0xFF12, 0xF3);
        self.write(0xFF14, 0xBF);
        self.write(0xFF16, 0x3F);
        self.write(0xFF19, 0xBF);
        self.write(0xFF1A, 0x7F);
        self.write(0xFF1B, 0xFF);
        self.write(0xFF1C, 0x9F);
        self.write(0xFF1E, 0xBF);
        self.write(0xFF20, 0xFF);
        self.write(0xFF23, 0xBF);
        self.write(0xFF24, 0x77);
        self.write(0xFF25, 0xF3);
        self.write(0xFF26, 0xF1);
        self.write(0xFF40, 0x91);
        self.write(0xFF47, 0xFC);
        self.write(0xFF48, 0xFF);
        self.write(0xFF49, 0xFF);
    }
}

/// The memory contents after the power-on I/O initialization: the documented
/// sound, LCD-control and palette registers take their fixed values, applied
/// in order; everything else keeps its bytes.
pub open spec fn io_defaults(m: Map<u16, u8>) -> Map<u16, u8> {
    let m = mem_write(m, 0xFF10, 0x80);
    let m = mem_write(m, 0xFF11, 0xBF);
    let m = mem_write(m, 0xFF12, 0xF3);
    let m = mem_write(m, 0xFF14, 0xBF);
    let m = mem_write(m, 0xFF16, 0x3F);
    let m = mem_write(m, 0xFF19, 0xBF);
    let m = mem_write(m, 0xFF1A, 0x7F);
    let m = mem_write(m, 0xFF1B, 0xFF);
    let m = mem_write(m, 0xFF1C, 0x9F);
    let m = mem_write(m, 0xFF1E, 0xBF);
    let m = mem_write(m, 0xFF20, 0xFF);
    let m = mem_write(m, 0xFF23, 0xBF);
    let m = mem_write(m, 0xFF24, 0x77);
    let m = mem_write(m, 0xFF25, 0xF3);
    let m = mem_write(m, 0xFF26, 0xF1);
    let m = mem_write(m, 0xFF40, 0x91);
    let m = mem_write(m, 0xFF47, 0xFC);
    let m = mem_write(m, 0xFF48, 0xFF);
    let m = mem_write(m, 0xFF49, 0xFF);
    m
}

/// The memory contents after a cartridge image is loaded: the two ROM banks
/// are replaced wholesale and every other region keeps its bytes.
pub open spec fn rom_loaded(m: Map<u16, u8>, bank_0: Seq<u8>, bank_1: Seq<u8>) -> Map<u16, u8> {
    Map::total(
        |a: u16|
            if a < 0x4000 {
                bank_0[a as int]
            } else if a < 0x8000 {
                bank_1[a - 0x4000]
            } else {
                m[a]
            },
    )
}

/// The sixteen bytes of the cartridge title field, at ROM offsets
/// 0x134..0x144.
pub open spec fn title_bytes(m: Map<u16, u8>) -> Seq<u8> {
    Seq::new(16, |i: int| m[(0x134 + i) as u16])
}

/// `s` with every trailing zero byte removed.
pub open spec fn trim_trailing_zeros(s: Seq<u8>) -> Seq<u8>
    decreases s.len(),
{
    if s.len() > 0 && s.last() == 0 {
        trim_trailing_zeros(s.drop_last())
    } else {
        s
    }
}

/// What `String::from_utf8` makes of a byte sequence: the decoded characters
/// where the bytes are valid UTF-8, nothing otherwise.  The result depends on
/// the bytes alone.
pub uninterp spec fn utf8_decoding(bytes: Seq<u8>) -> Option<Seq<char>>;

/// Relies on std's String::from_utf8: it returns Ok exactly when the bytes
/// are valid UTF-8; bytes below 0x80 are ASCII and decode to the characters
/// with the same code points.
#[verifier::external_body]
fn decode_utf8(bytes: Vec<u8>) -> (r: Option<String>)
    ensures
        r is Some <==> utf8_decoding(bytes@) is Some,
        r is Some ==> r->0@ == utf8_decoding(bytes@)->0,
        (forall|i: int| 0 <= i < bytes@.len() ==> bytes@[i] < 0x80) ==> (r is Some && r->0@.len()
            == bytes@.len() && (forall|i: int|
            0 <= i < bytes@.len() ==> r->0@[i] as u32 == bytes@[i] as u32)),
{
    match String::from_utf8(bytes) {
        Ok(s) => Some(s),
        Err(_) => None,
    }
}

impl Default for MMU {
    /// A freshly powered-on memory unit: every region zero-filled.
    fn default() -> (r: MMU)
        ensures
            r.wf(),
            forall|a: u16| r@[a] == 0u8,
    {
        let r = MMU {
            rom_bank_0: zero_vec(0x4000),
            rom_bank_nn: zero_vec(0x4000),
            vram: zero_vec(0x2000),
            eram: zero_vec(0x2000),
            wram: zero_vec(0x2000),
            io: zero_vec(0x180),
            zram: zero_vec(0x80),
        };
        r
    }
}

/// A vector of `n` zero bytes.
fn zero_vec(n: usize) -> (r: Vec<u8>)
    ensures
        r@.len() == n,
        forall|i: int| 0 <= i < n ==> r@[i] == 0u8,
{
    let mut v: Vec<u8> = Vec::new();
    let mut i: usize = 0;
    while i < n
        invariant
            i <= n,
            v@.len() == i,
            forall|j: int| 0 <= j < i ==> v@[j] == 0u8,
        decreases n - i,
    {
        v.push(0);
        i = i + 1;
    }
    v
}

} // verus!
