use chlorosis_core::Address;
use chlorosis_core::Byte;
use chlorosis_core::CentralProcessor;
use chlorosis_core::Register;
use chlorosis_core::SignedByte;

#[test]
fn arith_test_carry_add_byte() {
    let mut cpu = CentralProcessor::new();
    cpu.check_carry_add_byte(Byte(0x80), Byte(0x80));
    assert!(cpu.c_flag);
    cpu.check_carry_add_byte(Byte(0x0F), Byte(0x70));
    assert!(!cpu.c_flag);
}

#[test]
fn mod_test_carry_add_byte() {
    let mut cpu = CentralProcessor::new();
    cpu.check_carry_add_byte(Byte(0x80), Byte(0x80));
    assert!(cpu.c_flag);
    cpu.check_carry_add_byte(Byte(0x0F), Byte(0x70));
    assert!(!cpu.c_flag);
}

#[test]
fn test_half_carry_add_byte() {
    let mut cpu = CentralProcessor::new();
    cpu.check_half_carry_add_byte(Byte(0x08), Byte(0x08));
    assert!(cpu.h_flag);
    cpu.check_half_carry_add_byte(Byte(0x04), Byte(0x10));
    assert!(!cpu.h_flag);
    cpu.check_half_carry_add_byte(Byte(0x08), Byte(0x01));
    assert!(!cpu.h_flag);
}

#[test]
fn test_swap() {
    let mut cpu = CentralProcessor::new();
    assert_eq!(cpu.swap(Byte(0b1010_0101)), Byte(0b0101_1010));
    assert_eq!(cpu.swap(Byte(0b0000_1111)), Byte(0b1111_0000));
}

#[test]
fn test_register_combining() {
    let mut cpu = CentralProcessor::new();
    cpu.b = Byte(0xFA);
    cpu.c = Byte(0xCE);
    let addr = cpu.read_bc();
    assert_eq!(addr, Address(0xFACE));
}

#[test]
fn new_is_the_reset_state() {
    let cpu = CentralProcessor::new();
    assert_eq!(cpu.pc, Address(0x0100));
    assert_eq!(cpu.sp, Address(0xFFFE));
    assert_eq!(cpu.read_af(), Address(0x0000));
    assert_eq!(cpu.read_bc(), Address(0x0000));
    assert_eq!(cpu.read_de(), Address(0x0000));
    assert_eq!(cpu.read_hl(), Address(0x0000));
    assert!(!cpu.interupt_master_enable);
    assert_eq!(cpu.cost, 0);
    assert_eq!(cpu, CentralProcessor::default());
}

#[test]
fn half_carry_sub_byte_compares_low_nibbles() {
    let mut cpu = CentralProcessor::new();
    cpu.check_half_carry_sub_byte(Byte(0x01), Byte(0x00));
    assert!(!cpu.h_flag);
    cpu.check_half_carry_sub_byte(Byte(0x10), Byte(0x01));
    assert!(cpu.h_flag);
    cpu.check_half_carry_sub_byte(Byte(0x08), Byte(0x01));
    assert!(!cpu.h_flag);
    cpu.check_half_carry_sub_byte(Byte(0x02), Byte(0x10));
    assert!(!cpu.h_flag);
}

#[test]
fn carry_sub_byte_is_a_borrow() {
    let mut cpu = CentralProcessor::new();
    cpu.check_carry_sub_byte(Byte(0x10), Byte(0x01));
    assert!(!cpu.c_flag);
    cpu.check_carry_sub_byte(Byte(0x01), Byte(0x10));
    assert!(cpu.c_flag);
    cpu.check_carry_sub_byte(Byte(0x42), Byte(0x42));
    assert!(!cpu.c_flag);
    cpu.check_carry_sub_byte(Byte(0x00), Byte(0xFF));
    assert!(cpu.c_flag);
}

#[test]
fn carry_and_half_carry_on_addresses() {
    let mut cpu = CentralProcessor::new();
    cpu.check_carry_add_address(Address(0x8000), Address(0x8000));
    assert!(cpu.c_flag);
    cpu.check_carry_add_address(Address(0x7FFF), Address(0x8000));
    assert!(!cpu.c_flag);
    cpu.check_half_carry_add_address(Address(0x0FFF), Address(0x0001));
    assert!(cpu.h_flag);
    cpu.check_half_carry_add_address(Address(0x1000), Address(0x1000));
    assert!(!cpu.h_flag);
    cpu.check_carry_sub_address(Address(0x0001), Address(0x0002));
    assert!(cpu.c_flag);
    cpu.check_carry_sub_address(Address(0x0002), Address(0x0002));
    assert!(!cpu.c_flag);
}

#[test]
fn signed_offset_flags_use_the_low_octet() {
    let mut cpu = CentralProcessor::new();
    cpu.check_carry_signed_address(Address(0x12F0), SignedByte(0x10));
    assert!(cpu.c_flag);
    cpu.check_carry_signed_address(Address(0x12F0), SignedByte(0x0F));
    assert!(!cpu.c_flag);
    // -1 has the bit pattern 0xFF
    cpu.check_carry_signed_address(Address(0x1201), SignedByte(-1));
    assert!(cpu.c_flag);
    cpu.check_carry_signed_address(Address(0x1200), SignedByte(-1));
    assert!(!cpu.c_flag);
    cpu.check_half_carry_signed_address(Address(0x120F), SignedByte(0x01));
    assert!(cpu.h_flag);
    cpu.check_half_carry_signed_address(Address(0x1200), SignedByte(-1));
    assert!(!cpu.h_flag);
}

#[test]
fn add_sets_all_four_flags() {
    let mut cpu = CentralProcessor::new();
    cpu.a = Byte(0x3A);
    cpu.add(Byte(0xC6));
    assert_eq!(cpu.a, Byte(0x00));
    assert!(cpu.z_flag && !cpu.n_flag && cpu.h_flag && cpu.c_flag);
    cpu.a = Byte(0x3C);
    cpu.add(Byte(0x12));
    assert_eq!(cpu.a, Byte(0x4E));
    assert!(!cpu.z_flag && !cpu.n_flag && !cpu.h_flag && !cpu.c_flag);
}

#[test]
fn adc_takes_the_carry_in() {
    let mut cpu = CentralProcessor::new();
    cpu.a = Byte(0xE1);
    cpu.c_flag = true;
    cpu.adc(Byte(0x0F));
    assert_eq!(cpu.a, Byte(0xF1));
    assert!(!cpu.z_flag && !cpu.n_flag && cpu.h_flag && !cpu.c_flag);
    cpu.a = Byte(0x00);
    cpu.c_flag = true;
    cpu.adc(Byte(0xFF));
    assert_eq!(cpu.a, Byte(0x00));
    assert!(cpu.z_flag && cpu.h_flag && cpu.c_flag);
}

#[test]
fn sub_and_sbc_borrow() {
    let mut cpu = CentralProcessor::new();
    cpu.a = Byte(0x3E);
    cpu.sub(Byte(0x3E));
    assert_eq!(cpu.a, Byte(0x00));
    assert!(cpu.z_flag && cpu.n_flag && !cpu.h_flag && !cpu.c_flag);
    cpu.a = Byte(0x3E);
    cpu.sub(Byte(0x0F));
    assert_eq!(cpu.a, Byte(0x2F));
    assert!(!cpu.z_flag && cpu.n_flag && cpu.h_flag && !cpu.c_flag);
    cpu.a = Byte(0x3E);
    cpu.sub(Byte(0x40));
    assert_eq!(cpu.a, Byte(0xFE));
    assert!(!cpu.z_flag && cpu.n_flag && !cpu.h_flag && cpu.c_flag);
    cpu.a = Byte(0x3B);
    cpu.c_flag = true;
    cpu.sbc(Byte(0x2A));
    assert_eq!(cpu.a, Byte(0x10));
    assert!(!cpu.z_flag && cpu.n_flag && !cpu.h_flag && !cpu.c_flag);
    cpu.a = Byte(0x00);
    cpu.c_flag = true;
    cpu.sbc(Byte(0xFF));
    assert_eq!(cpu.a, Byte(0x00));
    assert!(cpu.z_flag && cpu.n_flag && cpu.h_flag && cpu.c_flag);
}

#[test]
fn cp_keeps_the_accumulator() {
    let mut cpu = CentralProcessor::new();
    cpu.a = Byte(0x3C);
    cpu.cp(Byte(0x2F));
    assert_eq!(cpu.a, Byte(0x3C));
    assert!(!cpu.z_flag && cpu.n_flag && cpu.h_flag && !cpu.c_flag);
    cpu.cp(Byte(0x3C));
    assert!(cpu.z_flag);
    cpu.cp(Byte(0x40));
    assert!(cpu.c_flag);
}

#[test]
fn logic_operations() {
    let mut cpu = CentralProcessor::new();
    cpu.a = Byte(0x5A);
    cpu.c_flag = true;
    cpu.and(Byte(0x3F));
    assert_eq!(cpu.a, Byte(0x1A));
    assert!(!cpu.z_flag && !cpu.n_flag && cpu.h_flag && !cpu.c_flag);
    cpu.or(Byte(0x05));
    assert_eq!(cpu.a, Byte(0x1F));
    assert!(!cpu.z_flag && !cpu.h_flag);
    cpu.xor(Byte(0x1F));
    assert_eq!(cpu.a, Byte(0x00));
    assert!(cpu.z_flag && !cpu.n_flag && !cpu.h_flag && !cpu.c_flag);
}

#[test]
fn zero_flag_follows_the_result() {
    for a in [0x00u8, 0x01, 0x0F, 0x10, 0x7F, 0x80, 0xFF] {
        for v in [0x00u8, 0x01, 0x0F, 0x80, 0xF0, 0xFF] {
            let mut cpu = CentralProcessor::new();
            cpu.a = Byte(a);
            cpu.add(Byte(v));
            assert_eq!(cpu.z_flag, cpu.a == Byte(0));
            cpu.a = Byte(a);
            cpu.sub(Byte(v));
            assert_eq!(cpu.z_flag, cpu.a == Byte(0));
            cpu.a = Byte(a);
            cpu.and(Byte(v));
            assert_eq!(cpu.z_flag, cpu.a == Byte(0));
            cpu.a = Byte(a);
            cpu.cp(Byte(v));
            assert_eq!(cpu.z_flag, a == v);
        }
    }
}

#[test]
fn rotates_and_shifts() {
    let mut cpu = CentralProcessor::new();
    assert_eq!(cpu.rlc(Byte(0x85)), Byte(0x0B));
    assert!(cpu.c_flag && !cpu.z_flag);
    assert_eq!(cpu.rrc(Byte(0x01)), Byte(0x80));
    assert!(cpu.c_flag);
    cpu.c_flag = false;
    assert_eq!(cpu.rl(Byte(0x80)), Byte(0x00));
    assert!(cpu.c_flag && cpu.z_flag);
    assert_eq!(cpu.rl(Byte(0x11)), Byte(0x23));
    assert!(!cpu.c_flag);
    cpu.c_flag = true;
    assert_eq!(cpu.rr(Byte(0x8A)), Byte(0xC5));
    assert!(!cpu.c_flag);
    assert_eq!(cpu.sla(Byte(0xFF)), Byte(0xFE));
    assert!(cpu.c_flag);
    assert_eq!(cpu.sra(Byte(0x8A)), Byte(0xC5));
    assert!(!cpu.c_flag);
    assert_eq!(cpu.sra(Byte(0x01)), Byte(0x00));
    assert!(cpu.c_flag && cpu.z_flag);
    assert_eq!(cpu.srl(Byte(0xFF)), Byte(0x7F));
    assert!(cpu.c_flag);
}

#[test]
fn rotating_left_undoes_rotating_right() {
    let mut cpu = CentralProcessor::new();
    for v in 0..=255u8 {
        let right = cpu.rrc(Byte(v));
        assert_eq!(cpu.rlc(right), Byte(v));
        let swapped = cpu.swap(Byte(v));
        assert_eq!(cpu.swap(swapped), Byte(v));
    }
}

#[test]
fn bit_test_sets_zero_for_a_clear_bit() {
    let mut cpu = CentralProcessor::new();
    cpu.c_flag = true;
    for n in 0..8u8 {
        for v in [0x00u8, 0x5A, 0xA5, 0xFF] {
            cpu.bit(n, Byte(v | (1 << n)));
            assert!(!cpu.z_flag && !cpu.n_flag && cpu.h_flag && cpu.c_flag);
            cpu.bit(n, Byte(v & !(1 << n)));
            assert!(cpu.z_flag && !cpu.n_flag && cpu.h_flag && cpu.c_flag);
        }
    }
}

#[test]
fn flags_register_round_trip() {
    let mut cpu = CentralProcessor::new();
    cpu.write_f(Byte(0xFF));
    assert!(cpu.z_flag && cpu.n_flag && cpu.h_flag && cpu.c_flag);
    assert_eq!(cpu.read_f(), Byte(0xF0));
    cpu.write_f(Byte(0x90));
    assert!(cpu.z_flag && !cpu.n_flag && !cpu.h_flag && cpu.c_flag);
    assert_eq!(cpu.read_f(), Byte(0x90));
    cpu.write_af(Address(0x12AF));
    assert_eq!(cpu.a, Byte(0x12));
    assert_eq!(cpu.read_af(), Address(0x12A0));
}

#[test]
fn pair_writes_split_the_value() {
    let mut cpu = CentralProcessor::new();
    cpu.write_bc(Address(0x1234));
    cpu.write_de(Address(0x5678));
    cpu.write_hl(Address(0x9ABC));
    assert_eq!((cpu.b, cpu.c), (Byte(0x12), Byte(0x34)));
    assert_eq!((cpu.d, cpu.e), (Byte(0x56), Byte(0x78)));
    assert_eq!((cpu.h, cpu.l), (Byte(0x9A), Byte(0xBC)));
    assert_eq!(cpu.read_de(), Address(0x5678));
    assert_eq!(cpu.read_hl(), Address(0x9ABC));
}

#[test]
fn registers_by_name() {
    let mut cpu = CentralProcessor::new();
    let all = [
        Register::A,
        Register::B,
        Register::C,
        Register::D,
        Register::E,
        Register::H,
        Register::L,
    ];
    for (i, r) in all.iter().enumerate() {
        cpu.write_register(*r, Byte(i as u8 + 1));
    }
    for (i, r) in all.iter().enumerate() {
        assert_eq!(cpu.read_register(*r), Byte(i as u8 + 1));
    }
    assert_eq!(cpu.a, Byte(1));
    assert_eq!(cpu.l, Byte(7));
}

#[test]
fn clear_flags_and_check_zero() {
    let mut cpu = CentralProcessor::new();
    cpu.write_f(Byte(0xF0));
    cpu.clear_flags();
    assert_eq!(cpu.read_f(), Byte(0x00));
    cpu.check_zero(Byte(0));
    assert!(cpu.z_flag);
    cpu.check_zero(Byte(1));
    assert!(!cpu.z_flag);
}
