use gbcore::cpu::CPU;
use gbcore::cpu::Flag;
use gbcore::cpu::Reg;
use gbcore::cpu::Registers;
use gbcore::cpu::get_address;
use gbcore::cpu::get_n;
use gbcore::cpu::get_nn;
use gbcore::mmu::MMU;

#[test]
fn test_power_on_defaults() {
    let cpu = CPU::new();
    assert_eq!(cpu.registers.a, 0x01);
    assert_eq!(cpu.registers.f, 0xB0);
    assert_eq!(cpu.registers.b, 0x00);
    assert_eq!(cpu.registers.c, 0x13);
    assert_eq!(cpu.registers.d, 0x00);
    assert_eq!(cpu.registers.e, 0xD8);
    assert_eq!(cpu.registers.h, 0x01);
    assert_eq!(cpu.registers.l, 0x4D);
    assert_eq!(cpu.pc, 0x0100);
    assert_eq!(cpu.sp, 0xFFFE);
    assert_eq!(cpu.clock.m, 0);
    assert_eq!(cpu.clock.t, 0);
}

#[test]
fn test_pair_get_combines_high_byte_first() {
    let mut regs = Registers::default();
    regs.b = 0x12;
    regs.c = 0x34;
    assert_eq!(regs.pair_get(Reg::B, Reg::C), 0x1234);
    assert_eq!(regs.pair_get(Reg::B, Reg::C), ((regs.b as u16) << 8) | (regs.c as u16));
}

#[test]
fn test_pair_round_trip_all_plain_pairs() {
    let values: [u16; 5] = [0x0000, 0x0001, 0x1234, 0xABCD, 0xFFFF];
    for &v in values.iter() {
        let mut regs = Registers::default();
        regs.pair_set(Reg::B, Reg::C, v);
        assert_eq!(regs.pair_get(Reg::B, Reg::C), v);
        regs.pair_set(Reg::D, Reg::E, v);
        assert_eq!(regs.pair_get(Reg::D, Reg::E), v);
        regs.pair_set(Reg::H, Reg::L, v);
        assert_eq!(regs.pair_get(Reg::H, Reg::L), v);
    }
}

#[test]
fn test_pair_set_af_masks_flag_nibble() {
    let mut regs = Registers::default();
    regs.pair_set(Reg::A, Reg::F, 0x12FF);
    assert_eq!(regs.a, 0x12);
    assert_eq!(regs.f, 0xF0);
    assert_eq!(regs.pair_get(Reg::A, Reg::F), 0x12F0);
    // a value with a zero lower nibble round-trips exactly
    regs.pair_set(Reg::A, Reg::F, 0xBEE0);
    assert_eq!(regs.pair_get(Reg::A, Reg::F), 0xBEE0);
}

#[test]
fn test_pair_set_splits_value() {
    let mut regs = Registers::default();
    regs.pair_set(Reg::H, Reg::L, 0xC001);
    assert_eq!(regs.h, 0xC0);
    assert_eq!(regs.l, 0x01);
}

#[test]
fn test_flag_set_and_test() {
    let mut regs = Registers::default();
    regs.f = 0x00;
    regs.flag_set(Flag::Z, true);
    assert!(regs.flag_test(Flag::Z));
    assert_eq!(regs.f, 0x80);
    regs.flag_set(Flag::C, true);
    assert!(regs.flag_test(Flag::C));
    assert_eq!(regs.f, 0x90);
    regs.flag_set(Flag::Z, false);
    assert!(!regs.flag_test(Flag::Z));
    assert_eq!(regs.f, 0x10);
    regs.flag_set(Flag::N, true);
    regs.flag_set(Flag::H, true);
    assert!(regs.flag_test(Flag::N));
    assert!(regs.flag_test(Flag::H));
}

#[test]
fn test_flag_write_forces_lower_nibble_zero() {
    let mut regs = Registers::default();
    regs.f = 0xAF;
    regs.flag_set(Flag::N, true);
    assert_eq!(regs.f & 0x0F, 0);
    assert_eq!(regs.f, 0xE0);
    let mut other = Registers::default();
    other.reg_set(Reg::F, 0xFF);
    assert_eq!(other.f, 0xF0);
}

#[test]
fn test_get_address() {
    assert_eq!(get_address(0x12, 0x34), 0x1234);
    assert_eq!(get_address(0x00, 0x00), 0x0000);
    assert_eq!(get_address(0xFF, 0xFF), 0xFFFF);
}

#[test]
fn test_operand_fetch_is_little_endian_and_leaves_pc() {
    let mut mmu = MMU::new();
    mmu.write(0xC001, 0xCD);
    mmu.write(0xC002, 0xAB);
    assert_eq!(get_n(0xC000, &mut mmu), 0xCD);
    assert_eq!(get_nn(0xC000, &mut mmu), 0xABCD);
}

#[test]
fn test_operand_fetch_wraps_at_address_space_end() {
    let mut mmu = MMU::new();
    mmu.write(0xFFFF, 0x11);
    mmu.write(0x0000, 0x22);
    mmu.write(0x0001, 0x33);
    assert_eq!(get_n(0xFFFE, &mut mmu), 0x11);
    assert_eq!(get_nn(0xFFFE, &mut mmu), 0x2211);
    assert_eq!(get_nn(0xFFFF, &mut mmu), 0x3322);
}
