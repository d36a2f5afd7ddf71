use gbcore::mmu::MMU;
use gbcore::opcodes;

#[test]
fn test_xor_a_zeroes_accumulator_and_sets_z_only() {
    let starts: [u8; 4] = [0x00, 0x01, 0x5A, 0xFF];
    for &start in starts.iter() {
        let mut pc: u16 = 0x0100;
        let mut a: u8 = start;
        let mut f: u8 = 0xFF;
        let cost = opcodes::xor_a(&mut pc, &mut a, &mut f);
        assert_eq!(a, 0x00);
        assert_eq!(f, 0b1000_0000);
        assert_eq!(pc, 0x0101);
        assert_eq!(cost, (1, 4));
    }
}

#[test]
fn test_ld_r_n_and_moves() {
    let mut pc: u16 = 0x0200;
    let mut b: u8 = 0;
    assert_eq!(opcodes::ld_r_n(&mut pc, &mut b, 0x42), (2, 8));
    assert_eq!(b, 0x42);
    assert_eq!(pc, 0x0202);
    let mut c: u8 = 1;
    assert_eq!(opcodes::ld_r1_r2(&mut pc, &mut c, b), (1, 4));
    assert_eq!(c, 0x42);
    assert_eq!(pc, 0x0203);
    assert_eq!(opcodes::ld_r1_r1(&mut pc, &mut c), (1, 4));
    assert_eq!(c, 0x42);
    assert_eq!(pc, 0x0204);
}

#[test]
fn test_ld_rr_spn_half_carry_boundary() {
    // adding 0x0F and 0x01 carries out of the low nibble and sets H
    let mut pc: u16 = 0x0100;
    let mut h: u8 = 0;
    let mut l: u8 = 0;
    let mut f: u8 = 0xB0;
    let cost = opcodes::ld_rr_spn(&mut pc, &mut h, &mut l, 0x000F, 0x01, &mut f);
    assert_eq!((h, l), (0x00, 0x10));
    assert_ne!(f & 0b0010_0000, 0);
    assert_eq!(f, 0b0010_0000);
    assert_eq!(pc, 0x0102);
    assert_eq!(cost, (3, 12));

    // adding 0x0E and 0x01 stays within the low nibble and clears H
    let mut f2: u8 = 0xB0;
    let mut h2: u8 = 0;
    let mut l2: u8 = 0;
    let mut pc2: u16 = 0x0100;
    opcodes::ld_rr_spn(&mut pc2, &mut h2, &mut l2, 0x000E, 0x01, &mut f2);
    assert_eq!((h2, l2), (0x00, 0x0F));
    assert_eq!(f2 & 0b0010_0000, 0);
    assert_eq!(f2, 0x00);
}

#[test]
fn test_ld_rr_spn_carry_and_wraparound() {
    let mut pc: u16 = 0x0100;
    let mut h: u8 = 0;
    let mut l: u8 = 0;
    let mut f: u8 = 0;
    opcodes::ld_rr_spn(&mut pc, &mut h, &mut l, 0xFFFF, 0x02, &mut f);
    // 0xFFFF + 0x02 wraps to 0x0001 with both H and C set
    assert_eq!((h, l), (0x00, 0x01));
    assert_eq!(f, 0b0011_0000);
    assert_eq!(f & 0x0F, 0);
}

#[test]
fn test_push_pop_register_pair_round_trip() {
    let mut mmu = MMU::new();
    let mut pc: u16 = 0x0100;
    let mut sp: u16 = 0xFFFE;
    let cost = opcodes::push_rr(&mut pc, &mut mmu, &mut sp, 0x12, 0x34);
    assert_eq!(cost, (4, 16));
    assert_eq!(sp, 0xFFFC);
    // the high byte ends up at the higher address
    assert_eq!(mmu.read(0xFFFD), 0x12);
    assert_eq!(mmu.read(0xFFFC), 0x34);
    let mut r1: u8 = 0;
    let mut r2: u8 = 0;
    let cost2 = opcodes::pop_rr(&mut pc, &mut mmu, &mut sp, &mut r1, &mut r2);
    assert_eq!(cost2, (3, 12));
    assert_eq!((r1, r2), (0x12, 0x34));
    assert_eq!(sp, 0xFFFE);
}

#[test]
fn test_jp_nn_sets_pc_wholesale() {
    let priors: [u16; 3] = [0x0000, 0x0100, 0xFFFF];
    for &prior in priors.iter() {
        let mut pc: u16 = prior;
        let cost = opcodes::jp_nn(&mut pc, 0x0200);
        assert_eq!(pc, 0x0200);
        assert_eq!(cost, (3, 12));
    }
}

#[test]
fn test_rst_38_pushes_pc_and_jumps_to_vector() {
    let mut mmu = MMU::new();
    let mut pc: u16 = 0x1234;
    let mut sp: u16 = 0xFFFE;
    let cost = opcodes::rst_38(&mut pc, &mut sp, &mut mmu);
    assert_eq!(cost, (8, 32));
    // high byte 0x12 pushed first, then low byte 0x34
    assert_eq!(sp, 0xFFFC);
    assert_eq!(mmu.read(0xFFFD), 0x12);
    assert_eq!(mmu.read(0xFFFC), 0x34);
    assert_eq!(pc, 0x0038);
}

#[test]
fn test_auto_increment_and_decrement_forms() {
    let mut mmu = MMU::new();
    let mut pc: u16 = 0x0100;
    let mut hl: u16 = 0xC000;
    opcodes::ld_mem_rr_inc_r(&mut pc, &mut mmu, &mut hl, 0x77);
    assert_eq!(mmu.read(0xC000), 0x77);
    assert_eq!(hl, 0xC001);
    let mut a: u8 = 0;
    mmu.write(0xC001, 0x55);
    opcodes::ld_r_mem_rr_inc(&mut pc, &mut mmu, &mut hl, &mut a);
    assert_eq!(a, 0x55);
    assert_eq!(hl, 0xC002);
    opcodes::ld_mem_rr_dec_r(&mut pc, &mut mmu, &mut hl, 0x99);
    assert_eq!(mmu.read(0xC002), 0x99);
    assert_eq!(hl, 0xC001);
    let mut a2: u8 = 0;
    opcodes::ld_r_mem_rr_dec(&mut pc, &mut mmu, &mut hl, &mut a2);
    assert_eq!(a2, 0x55);
    assert_eq!(hl, 0xC000);
}

#[test]
fn test_ld_mem_nn_sp_layout() {
    let mut mmu = MMU::new();
    let mut pc: u16 = 0x0100;
    let cost = opcodes::ld_mem_nn_sp(&mut pc, &mut mmu, 0xC100, 0xABCD);
    assert_eq!(cost, (5, 20));
    // the stack pointer lands little-endian at consecutive bytes
    assert_eq!(mmu.read(0xC100), 0xCD);
    assert_eq!(mmu.read(0xC101), 0xAB);
    assert_eq!(pc, 0x0103);
}

#[test]
fn test_high_page_loads_and_stores() {
    let mut mmu = MMU::new();
    let mut pc: u16 = 0x0100;
    opcodes::ld_mem_n_r(&mut pc, &mut mmu, 0xFF00 + 0x47, 0xE4);
    assert_eq!(mmu.read(0xFF47), 0xE4);
    assert_eq!(pc, 0x0102);
    let mut a: u8 = 0;
    opcodes::ld_r_mem_n(&mut pc, &mut mmu, 0x47, &mut a);
    assert_eq!(a, 0xE4);
    let mut r1: u8 = 0;
    opcodes::ld_r1_mem_r2(&mut pc, &mut mmu, &mut r1, 0x47);
    assert_eq!(r1, 0xE4);
    opcodes::ld_mem_r1_r2(&mut pc, &mut mmu, 0x80, 0x3C);
    assert_eq!(mmu.read(0xFF80), 0x3C);
}

#[test]
fn test_sixteen_bit_loads() {
    let mut pc: u16 = 0x0100;
    let mut r1: u8 = 0;
    let mut r2: u8 = 0;
    assert_eq!(opcodes::ld_rr_nn(&mut pc, &mut r1, &mut r2, 0xBEEF), (3, 12));
    assert_eq!((r1, r2), (0xBE, 0xEF));
    assert_eq!(pc, 0x0103);
    let mut sp: u16 = 0;
    assert_eq!(opcodes::ld_sp_nn(&mut pc, &mut sp, 0xD000), (3, 12));
    assert_eq!(sp, 0xD000);
    assert_eq!(opcodes::ld_sp_hl(&mut pc, &mut sp, 0x8123), (2, 8));
    assert_eq!(sp, 0x8123);
}

#[test]
fn test_nop_advances_pc_only() {
    let mut pc: u16 = 0xFFFF;
    assert_eq!(opcodes::nop(&mut pc), (1, 4));
    // the program counter wraps modulo 2^16
    assert_eq!(pc, 0x0000);
}
