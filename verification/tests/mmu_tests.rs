use gbcore::GbError;
use gbcore::mmu::MMU;

#[test]
fn test_write_then_read_representative_addresses() {
    let mut mmu = MMU::new();
    let addresses: [u16; 15] = [
        0x0000, 0x3FFF, 0x4000, 0x7FFF, 0x8000, 0x9FFF, 0xA000, 0xBFFF, 0xC000, 0xDFFF, 0xFE00,
        0xFF7F, 0xFF80, 0xFFFE, 0xFFFF,
    ];
    for (i, &addr) in addresses.iter().enumerate() {
        let value = (i as u8) ^ 0xA5;
        mmu.write(addr, value);
        assert_eq!(mmu.read(addr), value);
    }
}

#[test]
fn test_every_address_resolves_and_round_trips() {
    let mut mmu = MMU::new();
    let mut addr: u32 = 0;
    while addr <= 0xFFFF {
        let a = addr as u16;
        mmu.write(a, 0xAB);
        assert_eq!(mmu.read(a), 0xAB);
        addr += 1;
    }
}

#[test]
fn test_echo_aliasing_both_directions() {
    let mut mmu = MMU::new();
    mmu.write(0xC010, 0x12);
    assert_eq!(mmu.read(0xE010), 0x12);
    mmu.write(0xE010, 0x34);
    assert_eq!(mmu.read(0xC010), 0x34);
    // boundaries of the documented echo range
    mmu.write(0xC000, 0x56);
    assert_eq!(mmu.read(0xE000), 0x56);
    mmu.write(0xFDFF, 0x78);
    assert_eq!(mmu.read(0xDDFF), 0x78);
}

#[test]
fn test_work_ram_beyond_echo_is_not_aliased() {
    let mut mmu = MMU::new();
    // 0xDE00-0xDFFF has no echo twin; writing near the end of work RAM
    // must leave the OAM/I-O region alone
    mmu.write(0xDFFF, 0x9C);
    assert_eq!(mmu.read(0xDFFF), 0x9C);
    assert_eq!(mmu.read(0xFE00), 0x00);
    assert_eq!(mmu.read(0xFDFF), 0x00);
}

#[test]
fn test_incr_decr_wrap_at_byte_boundary() {
    let mut mmu = MMU::new();
    mmu.write(0xC123, 0xFF);
    mmu.incr(0xC123);
    assert_eq!(mmu.read(0xC123), 0x00);
    mmu.decr(0xC123);
    assert_eq!(mmu.read(0xC123), 0xFF);
    mmu.write(0x8000, 5);
    mmu.incr(0x8000);
    assert_eq!(mmu.read(0x8000), 6);
    mmu.write(0xA000, 0x00);
    mmu.decr(0xA000);
    assert_eq!(mmu.read(0xA000), 0xFF);
}

#[test]
fn test_stack_push_pop_round_trip() {
    let mut mmu = MMU::new();
    let mut sp: u16 = 0xFFFE;
    mmu.push(&mut sp, 0x12);
    assert_eq!(sp, 0xFFFD);
    mmu.push(&mut sp, 0x34);
    assert_eq!(sp, 0xFFFC);
    assert_eq!(mmu.read(0xFFFD), 0x12);
    assert_eq!(mmu.read(0xFFFC), 0x34);
    let low = mmu.pop(&mut sp);
    let high = mmu.pop(&mut sp);
    assert_eq!(low, 0x34);
    assert_eq!(high, 0x12);
    assert_eq!(sp, 0xFFFE);
    // popping must not mutate unrelated memory
    assert_eq!(mmu.read(0xFFFC), 0x34);
    assert_eq!(mmu.read(0xFFFD), 0x12);
}

#[test]
fn test_load_game_size_mismatch() {
    let mut mmu = MMU::new();
    let short_bank = vec![0u8; 100];
    let full_bank = vec![0u8; 16384];
    assert_eq!(mmu.load_game(short_bank, full_bank.clone()), Err(GbError::SizeMismatch));
    assert_eq!(mmu.load_game(full_bank.clone(), vec![0u8; 16385]), Err(GbError::SizeMismatch));
    assert_eq!(mmu.load_game(full_bank.clone(), full_bank), Ok(()));
}

#[test]
fn test_load_game_replaces_rom_banks() {
    let mut mmu = MMU::new();
    mmu.write(0xC000, 0x55);
    let mut bank_0 = vec![0u8; 16384];
    bank_0[0] = 0x11;
    bank_0[16383] = 0x22;
    let mut bank_1 = vec![0u8; 16384];
    bank_1[0] = 0x33;
    bank_1[16383] = 0x44;
    assert_eq!(mmu.load_game(bank_0, bank_1), Ok(()));
    assert_eq!(mmu.read(0x0000), 0x11);
    assert_eq!(mmu.read(0x3FFF), 0x22);
    assert_eq!(mmu.read(0x4000), 0x33);
    assert_eq!(mmu.read(0x7FFF), 0x44);
    // everything outside the ROM banks keeps its bytes
    assert_eq!(mmu.read(0xC000), 0x55);
}

#[test]
fn test_game_title_ascii() {
    let mut mmu = MMU::new();
    let mut bank_0 = vec![0u8; 16384];
    let title = b"TETRIS";
    bank_0[0x134..0x134 + title.len()].copy_from_slice(title);
    assert_eq!(mmu.load_game(bank_0, vec![0u8; 16384]), Ok(()));
    assert_eq!(mmu.get_game_title(), Ok(String::from("TETRIS")));
}

#[test]
fn test_game_title_full_sixteen_bytes() {
    let mut mmu = MMU::new();
    let mut bank_0 = vec![0u8; 16384];
    let title = b"ABCDEFGHIJKLMNOP";
    bank_0[0x134..0x144].copy_from_slice(title);
    assert_eq!(mmu.load_game(bank_0, vec![0u8; 16384]), Ok(()));
    assert_eq!(mmu.get_game_title(), Ok(String::from("ABCDEFGHIJKLMNOP")));
}

#[test]
fn test_game_title_non_ascii_utf8() {
    let mut mmu = MMU::new();
    let mut bank_0 = vec![0u8; 16384];
    // "POKéMON" with an accented e: a two-byte UTF-8 sequence that must
    // decode to a single character, not pass through byte for byte
    let title = "POK\u{e9}MON".as_bytes();
    bank_0[0x134..0x134 + title.len()].copy_from_slice(title);
    assert_eq!(mmu.load_game(bank_0, vec![0u8; 16384]), Ok(()));
    let decoded = mmu.get_game_title().unwrap();
    assert_eq!(decoded, "POK\u{e9}MON");
    assert_eq!(decoded.chars().count(), 7);
    assert_eq!(decoded.len(), 8);
}

#[test]
fn test_game_title_invalid_encoding() {
    let mut mmu = MMU::new();
    let mut bank_0 = vec![0u8; 16384];
    bank_0[0x134] = 0xC3;
    bank_0[0x135] = 0x28;
    assert_eq!(mmu.load_game(bank_0, vec![0u8; 16384]), Ok(()));
    assert_eq!(mmu.get_game_title(), Err(GbError::EncodingError));
}

#[test]
fn test_game_title_all_zero_is_empty() {
    let mmu = MMU::new();
    assert_eq!(mmu.get_game_title(), Ok(String::new()));
}

#[test]
fn test_init_io_documented_values() {
    let mut mmu = MMU::new();
    mmu.init_io();
    let expected: [(u16, u8); 19] = [
        (0xFF10, 0x80),
        (0xFF11, 0xBF),
        (0xFF12, 0xF3),
        (0xFF14, 0xBF),
        (0xFF16, 0x3F),
        (0xFF19, 0xBF),
        (0xFF1A, 0x7F),
        (0xFF1B, 0xFF),
        (0xFF1C, 0x9F),
        (0xFF1E, 0xBF),
        (0xFF20, 0xFF),
        (0xFF23, 0xBF),
        (0xFF24, 0x77),
        (0xFF25, 0xF3),
        (0xFF26, 0xF1),
        (0xFF40, 0x91),
        (0xFF47, 0xFC),
        (0xFF48, 0xFF),
        (0xFF49, 0xFF),
    ];
    for &(addr, value) in expected.iter() {
        assert_eq!(mmu.read(addr), value);
    }
    // a register the bring-up sequence does not touch stays zero
    assert_eq!(mmu.read(0xFF00), 0x00);
}
