use chlorosis_core::cpu::fetch::decode;
use chlorosis_core::cpu::fetch::decode_extended;
use chlorosis_core::cpu::fetch::operand_count;
use chlorosis_core::cpu::opcodes::Alu;
use chlorosis_core::cpu::opcodes::Condition;
use chlorosis_core::cpu::opcodes::Indirect;
use chlorosis_core::cpu::opcodes::Operand;
use chlorosis_core::cpu::opcodes::Pair;
use chlorosis_core::cpu::opcodes::Shift;
use chlorosis_core::cpu::opcodes::StackPair;
use chlorosis_core::Address;
use chlorosis_core::Byte;
use chlorosis_core::CentralProcessor;
use chlorosis_core::Device;
use chlorosis_core::Fault;
use chlorosis_core::MemoryMap;
use chlorosis_core::Opcode;
use chlorosis_core::Register;
use chlorosis_core::SignedByte;

#[test]
fn test_stack_push() {
    let mut cpu = CentralProcessor::new();
    cpu.sp = Address(0xFFFE);
    let mut mmap = MemoryMap::new();

    cpu.push_address(&mut mmap, Address(0x1234)).unwrap();
    cpu.push_address(&mut mmap, Address(0x5678)).unwrap();
    cpu.push_address(&mut mmap, Address(0x9ABC)).unwrap();

    assert_eq!(cpu.pop_address(&mut mmap).unwrap(), Address(0x9ABC));
    assert_eq!(cpu.pop_address(&mut mmap).unwrap(), Address(0x5678));
    assert_eq!(cpu.pop_address(&mut mmap).unwrap(), Address(0x1234));
}

/// A machine whose program starts at the reset vector.
fn machine(program: &[u8]) -> (CentralProcessor, MemoryMap) {
    let mut mmap = MemoryMap::new();
    for (i, b) in program.iter().enumerate() {
        mmap.rom[0x100 + i] = Byte(*b);
    }
    (CentralProcessor::new(), mmap)
}

/// Runs one instruction to its end and reports the ticks it took.
fn run_instruction(cpu: &mut CentralProcessor, mmap: &mut MemoryMap) -> u32 {
    cpu.cycle(mmap).unwrap();
    let mut ticks = 1;
    while cpu.cost != 0 {
        cpu.cycle(mmap).unwrap();
        ticks += 1;
    }
    ticks
}

#[test]
fn push_grows_downward_high_byte_first() {
    let mut cpu = CentralProcessor::new();
    let mut mmap = MemoryMap::new();
    cpu.push_address(&mut mmap, Address(0x1234)).unwrap();
    assert_eq!(cpu.sp, Address(0xFFFC));
    assert_eq!(mmap.read(Address(0xFFFD)).unwrap(), Byte(0x12));
    assert_eq!(mmap.read(Address(0xFFFC)).unwrap(), Byte(0x34));
    assert_eq!(cpu.pop_address(&mmap).unwrap(), Address(0x1234));
    assert_eq!(cpu.sp, Address(0xFFFE));
}

#[test]
fn push_into_prohibited_memory_faults() {
    let mut cpu = CentralProcessor::new();
    let mut mmap = MemoryMap::new();
    cpu.sp = Address(0xE001);
    assert_eq!(
        cpu.push_address(&mut mmap, Address(0x1234)),
        Err(Fault::Prohibited(Address(0xE000)))
    );
    assert_eq!(cpu.sp, Address(0xE000));
    cpu.sp = Address(0xFEA0);
    assert_eq!(cpu.pop_address(&mmap), Err(Fault::Prohibited(Address(0xFEA0))));
    assert_eq!(cpu.sp, Address(0xFEA0));
}

#[test]
fn pushes_and_pops_mirror() {
    let mut cpu = CentralProcessor::new();
    let mut mmap = MemoryMap::new();
    cpu.sp = Address(0xD000);
    let values: Vec<u16> = (0..200).map(|i| (i * 327 + 11) as u16).collect();
    for v in &values {
        cpu.push_address(&mut mmap, Address(*v)).unwrap();
    }
    assert_eq!(cpu.sp, Address(0xD000 - 400));
    for v in values.iter().rev() {
        assert_eq!(cpu.pop_address(&mmap).unwrap(), Address(*v));
    }
    assert_eq!(cpu.sp, Address(0xD000));
}

#[test]
fn consume_reads_little_endian() {
    let (mut cpu, mmap) = machine(&[0x34, 0x12, 0xFE, 0x7F]);
    assert_eq!(cpu.consume_pair(&mmap).unwrap(), Address(0x1234));
    assert_eq!(cpu.pc, Address(0x0102));
    assert_eq!(cpu.consume_signed_byte(&mmap).unwrap(), SignedByte(-2));
    assert_eq!(cpu.consume_byte(&mmap).unwrap(), Byte(0x7F));
    assert_eq!(cpu.pc, Address(0x0104));
    cpu.pc = Address(0xE000);
    assert_eq!(cpu.consume_byte(&mmap), Err(Fault::Prohibited(Address(0xE000))));
    assert_eq!(cpu.pc, Address(0xE000));
}

#[test]
fn xor_load_increment() {
    let (mut cpu, mut mmap) = machine(&[0xAF, 0x06, 0x42, 0x04]);
    cpu.a = Byte(0x5A);
    cpu.b = Byte(0x00);
    cpu.c_flag = true;
    let mut ticks = 0;
    for _ in 0..3 {
        ticks += run_instruction(&mut cpu, &mut mmap);
    }
    assert_eq!(cpu.a, Byte(0x00));
    assert_eq!(cpu.b, Byte(0x43));
    assert!(!cpu.z_flag && !cpu.n_flag && !cpu.h_flag && !cpu.c_flag);
    assert_eq!(cpu.pc, Address(0x0104));
    assert_eq!(ticks, 4);
}

#[test]
fn relative_jump_on_not_zero() {
    let mut mmap = MemoryMap::new();
    mmap.rom[0x200] = Byte(0x20);
    mmap.rom[0x201] = Byte(0xFE);
    let mut cpu = CentralProcessor::new();
    cpu.pc = Address(0x0200);
    cpu.z_flag = true;
    cpu.cycle(&mut mmap).unwrap();
    assert_eq!(cpu.pc, Address(0x0202));
    assert_eq!(cpu.cost, 2 - 1);
    let mut cpu = CentralProcessor::new();
    cpu.pc = Address(0x0200);
    cpu.z_flag = false;
    cpu.cycle(&mut mmap).unwrap();
    assert_eq!(cpu.pc, Address(0x0200));
    assert_eq!(cpu.cost, 3 - 1);
}

#[test]
fn call_and_return() {
    let (mut cpu, mut mmap) = machine(&[0xCD, 0x34, 0x12]);
    mmap.rom[0x1234] = Byte(0xC9);
    assert_eq!(cpu.sp, Address(0xFFFE));
    assert_eq!(run_instruction(&mut cpu, &mut mmap), 6);
    assert_eq!(cpu.sp, Address(0xFFFC));
    assert_eq!(mmap.read(Address(0xFFFC)).unwrap(), Byte(0x03));
    assert_eq!(mmap.read(Address(0xFFFD)).unwrap(), Byte(0x01));
    assert_eq!(cpu.pc, Address(0x1234));
    assert_eq!(run_instruction(&mut cpu, &mut mmap), 4);
    assert_eq!(cpu.sp, Address(0xFFFE));
    assert_eq!(cpu.pc, Address(0x0103));
}

#[test]
fn spinning_pays_the_cost() {
    // LD (0xC000), SP takes five cycles
    let (mut cpu, mut mmap) = machine(&[0x08, 0x00, 0xC0, 0x00]);
    cpu.cycle(&mut mmap).unwrap();
    assert_eq!(cpu.cost, 4);
    assert_eq!(cpu.pc, Address(0x0103));
    let after = cpu;
    for left in (0..4).rev() {
        cpu.cycle(&mut mmap).unwrap();
        assert_eq!(cpu.cost, left);
        assert_eq!(CentralProcessor { cost: after.cost, ..cpu }, after);
    }
    assert_eq!(mmap.read(Address(0xC000)).unwrap(), Byte(0xFE));
    assert_eq!(mmap.read(Address(0xC001)).unwrap(), Byte(0xFF));
    cpu.cycle(&mut mmap).unwrap();
    assert_eq!(cpu.pc, Address(0x0104));
}

/// The machine cycles of the primary table; zero marks the bytes that
/// encode no instruction or none that is modelled.
const CYCLES: [u8; 256] = [
    1, 3, 2, 2, 1, 1, 2, 1, 5, 2, 2, 2, 1, 1, 2, 1, //
    0, 3, 2, 2, 1, 1, 2, 1, 3, 2, 2, 2, 1, 1, 2, 1, //
    2, 3, 2, 2, 1, 1, 2, 0, 2, 2, 2, 2, 1, 1, 2, 1, //
    2, 3, 2, 2, 3, 3, 3, 1, 2, 2, 2, 2, 1, 1, 2, 1, //
    1, 1, 1, 1, 1, 1, 2, 1, 1, 1, 1, 1, 1, 1, 2, 1, //
    1, 1, 1, 1, 1, 1, 2, 1, 1, 1, 1, 1, 1, 1, 2, 1, //
    1, 1, 1, 1, 1, 1, 2, 1, 1, 1, 1, 1, 1, 1, 2, 1, //
    2, 2, 2, 2, 2, 2, 0, 2, 1, 1, 1, 1, 1, 1, 2, 1, //
    1, 1, 1, 1, 1, 1, 2, 1, 1, 1, 1, 1, 1, 1, 2, 1, //
    1, 1, 1, 1, 1, 1, 2, 1, 1, 1, 1, 1, 1, 1, 2, 1, //
    1, 1, 1, 1, 1, 1, 2, 1, 1, 1, 1, 1, 1, 1, 2, 1, //
    1, 1, 1, 1, 1, 1, 2, 1, 1, 1, 1, 1, 1, 1, 2, 1, //
    2, 3, 3, 4, 3, 4, 2, 4, 2, 4, 3, 0, 3, 6, 2, 4, //
    2, 3, 3, 0, 3, 4, 2, 4, 2, 4, 3, 0, 3, 0, 2, 4, //
    3, 3, 2, 0, 0, 4, 2, 4, 4, 1, 4, 0, 0, 0, 2, 4, //
    3, 3, 2, 1, 0, 4, 2, 4, 3, 2, 4, 1, 0, 0, 2, 4, //
];

/// The extra cycles of a conditional instruction that is taken.
fn taken_extra(opcode: u8) -> u8 {
    match opcode {
        0x20 | 0x28 | 0x30 | 0x38 => 1,
        0xC0 | 0xC8 | 0xD0 | 0xD8 => 3,
        0xC2 | 0xCA | 0xD2 | 0xDA => 1,
        0xC4 | 0xCC | 0xD4 | 0xDC => 3,
        _ => 0,
    }
}

/// Whether the condition of a conditional instruction holds with all
/// flags clear.
fn taken_when_clear(opcode: u8) -> bool {
    matches!(opcode, 0x20 | 0x30 | 0xC0 | 0xD0 | 0xC2 | 0xD2 | 0xC4 | 0xD4)
}

#[test]
fn every_instruction_leaves_its_cost() {
    for opcode in 0..=255u8 {
        if CYCLES[opcode as usize] == 0 {
            continue;
        }
        for flags in [0x00u8, 0xF0] {
            let (mut cpu, mut mmap) = machine(&[opcode, 0x00, 0x00]);
            cpu.write_f(Byte(flags));
            // a place in work RAM for the instructions that go through HL
            cpu.write_hl(Address(0xC000));
            let taken = taken_when_clear(opcode) == (flags == 0);
            let expected = CYCLES[opcode as usize] + if taken { taken_extra(opcode) } else { 0 };
            cpu.cycle(&mut mmap).unwrap();
            assert_eq!(cpu.cost, expected - 1, "opcode {:#04x} flags {:#04x}", opcode, flags);
            let mut spins = 0;
            while cpu.cost != 0 {
                let pc = cpu.pc;
                cpu.cycle(&mut mmap).unwrap();
                assert_eq!(cpu.pc, pc);
                spins += 1;
            }
            assert_eq!(spins, expected - 1);
        }
    }
}

#[test]
fn every_extended_instruction_leaves_its_cost() {
    for opcode in 0..=255u8 {
        let (mut cpu, mut mmap) = machine(&[0xCB, opcode]);
        cpu.write_hl(Address(0xC000));
        let through_hl = opcode % 8 == 6;
        let expected = if !through_hl {
            2
        } else if (0x40..0x80).contains(&opcode) {
            3
        } else {
            4
        };
        cpu.cycle(&mut mmap).unwrap();
        assert_eq!(cpu.cost, expected - 1, "opcode 0xCB {:#04x}", opcode);
        assert_eq!(cpu.pc, Address(0x0102));
    }
}

#[test]
fn illegal_opcodes_fault() {
    let illegal = [0xD3u8, 0xDB, 0xDD, 0xE3, 0xE4, 0xEB, 0xEC, 0xED, 0xF4, 0xFC, 0xFD];
    for opcode in 0..=255u8 {
        if opcode == 0xCB {
            continue;
        }
        let decoded = decode(Byte(opcode), Byte(0), Address(0));
        if illegal.contains(&opcode) {
            assert_eq!(decoded, Err(Fault::IllegalOpcode(Byte(opcode))));
            let (mut cpu, mut mmap) = machine(&[opcode]);
            assert_eq!(cpu.cycle(&mut mmap), Err(Fault::IllegalOpcode(Byte(opcode))));
            assert_eq!(cpu.pc, Address(0x0101));
            assert_eq!(cpu.cost, 0);
        } else {
            assert!(decoded.is_ok());
        }
    }
}

#[test]
fn unmodelled_instructions_fault() {
    for (program, opcode) in [(vec![0x27u8], 0x27u8), (vec![0x76], 0x76), (vec![0x10, 0x00], 0x10)] {
        let (mut cpu, mut mmap) = machine(&program);
        cpu.a = Byte(0x99);
        assert_eq!(
            cpu.cycle(&mut mmap),
            Err(Fault::Unimplemented(Byte(opcode), Address(0x0100)))
        );
        assert_eq!(cpu.a, Byte(0x99));
        assert_eq!(cpu.cost, 0);
    }
}

#[test]
fn decoding_follows_the_fields() {
    let imm8 = Byte(0x42);
    let imm16 = Address(0x1234);
    let cases = [
        (0x00u8, Opcode::Nop),
        (0x01, Opcode::LoadPair(Pair::BC, imm16)),
        (0x08, Opcode::StoreSp(imm16)),
        (0x0A, Opcode::LoadA(Indirect::BC)),
        (0x12, Opcode::StoreA(Indirect::DE)),
        (0x18, Opcode::JumpRelative(SignedByte(0x42))),
        (0x1D, Opcode::Dec(Operand::Reg(Register::E))),
        (0x22, Opcode::StoreA(Indirect::HlIncrement)),
        (0x28, Opcode::JumpRelativeIf(Condition::Z, SignedByte(0x42))),
        (0x2F, Opcode::Cpl),
        (0x31, Opcode::LoadPair(Pair::SP, imm16)),
        (0x34, Opcode::Inc(Operand::HlIndirect)),
        (0x36, Opcode::LoadImmediate(Operand::HlIndirect, imm8)),
        (0x39, Opcode::AddHl(Pair::SP)),
        (0x3A, Opcode::LoadA(Indirect::HlDecrement)),
        (0x3B, Opcode::DecPair(Pair::SP)),
        (0x41, Opcode::Load(Operand::Reg(Register::B), Operand::Reg(Register::C))),
        (0x6E, Opcode::Load(Operand::Reg(Register::L), Operand::HlIndirect)),
        (0x70, Opcode::Load(Operand::HlIndirect, Operand::Reg(Register::B))),
        (0x76, Opcode::Halt),
        (0x7F, Opcode::Load(Operand::Reg(Register::A), Operand::Reg(Register::A))),
        (0x80, Opcode::Arith(Alu::Add, Operand::Reg(Register::B))),
        (0x8E, Opcode::Arith(Alu::Adc, Operand::HlIndirect)),
        (0x97, Opcode::Arith(Alu::Sub, Operand::Reg(Register::A))),
        (0x9B, Opcode::Arith(Alu::Sbc, Operand::Reg(Register::E))),
        (0xA4, Opcode::Arith(Alu::And, Operand::Reg(Register::H))),
        (0xAF, Opcode::Arith(Alu::Xor, Operand::Reg(Register::A))),
        (0xB5, Opcode::Arith(Alu::Or, Operand::Reg(Register::L))),
        (0xBE, Opcode::Arith(Alu::Cp, Operand::HlIndirect)),
        (0xC0, Opcode::ReturnIf(Condition::NZ)),
        (0xC3, Opcode::Jump(imm16)),
        (0xC5, Opcode::Push(StackPair::BC)),
        (0xC6, Opcode::ArithImmediate(Alu::Add, imm8)),
        (0xC9, Opcode::Return),
        (0xCD, Opcode::Call(imm16)),
        (0xD2, Opcode::JumpIf(Condition::NC, imm16)),
        (0xD9, Opcode::ReturnInterrupt),
        (0xDC, Opcode::CallIf(Condition::C, imm16)),
        (0xE0, Opcode::StoreAHigh(imm8)),
        (0xE2, Opcode::StoreAHighC),
        (0xE8, Opcode::AddSp(SignedByte(0x42))),
        (0xE9, Opcode::JumpHl),
        (0xEA, Opcode::StoreAAbsolute(imm16)),
        (0xF0, Opcode::LoadAHigh(imm8)),
        (0xF1, Opcode::Pop(StackPair::AF)),
        (0xF2, Opcode::LoadAHighC),
        (0xF3, Opcode::Di),
        (0xF8, Opcode::LoadHlSpOffset(SignedByte(0x42))),
        (0xF9, Opcode::LoadSpHl),
        (0xFA, Opcode::LoadAAbsolute(imm16)),
        (0xFB, Opcode::Ei),
        (0xFE, Opcode::ArithImmediate(Alu::Cp, imm8)),
        (0xFF, Opcode::Restart(7)),
        (0xC7, Opcode::Restart(0)),
    ];
    for (byte, expected) in cases {
        assert_eq!(decode(Byte(byte), imm8, imm16), Ok(expected), "byte {:#04x}", byte);
    }
    assert_eq!(decode_extended(Byte(0x11)), Opcode::Rotate(Shift::Rl, Operand::Reg(Register::C)));
    assert_eq!(decode_extended(Byte(0x36)), Opcode::Rotate(Shift::Swap, Operand::HlIndirect));
    assert_eq!(decode_extended(Byte(0x7C)), Opcode::TestBit(7, Operand::Reg(Register::H)));
    assert_eq!(decode_extended(Byte(0x86)), Opcode::ResetBit(0, Operand::HlIndirect));
    assert_eq!(decode_extended(Byte(0xFF)), Opcode::SetBit(7, Operand::Reg(Register::A)));
    assert_eq!(operand_count(Byte(0x00)), 0);
    assert_eq!(operand_count(Byte(0x06)), 1);
    assert_eq!(operand_count(Byte(0x01)), 2);
    assert_eq!(operand_count(Byte(0xE0)), 1);
    assert_eq!(operand_count(Byte(0xEA)), 2);
}

#[test]
fn loads_through_memory() {
    // LD HL,0xC010; LD (HL),0x5A; LD B,(HL); LD (HL+),A; LD A,(HL-); LD (0xC020),A; LDH (0x80),A
    let (mut cpu, mut mmap) = machine(&[
        0x21, 0x10, 0xC0, 0x36, 0x5A, 0x46, 0x22, 0x3A, 0xEA, 0x20, 0xC0, 0xE0, 0x80,
    ]);
    cpu.a = Byte(0x77);
    run_instruction(&mut cpu, &mut mmap);
    assert_eq!(cpu.read_hl(), Address(0xC010));
    run_instruction(&mut cpu, &mut mmap);
    assert_eq!(mmap.read(Address(0xC010)).unwrap(), Byte(0x5A));
    run_instruction(&mut cpu, &mut mmap);
    assert_eq!(cpu.b, Byte(0x5A));
    run_instruction(&mut cpu, &mut mmap);
    assert_eq!(mmap.read(Address(0xC010)).unwrap(), Byte(0x77));
    assert_eq!(cpu.read_hl(), Address(0xC011));
    run_instruction(&mut cpu, &mut mmap);
    assert_eq!(cpu.a, Byte(0x00));
    assert_eq!(cpu.read_hl(), Address(0xC010));
    cpu.a = Byte(0x99);
    run_instruction(&mut cpu, &mut mmap);
    assert_eq!(mmap.read(Address(0xC020)).unwrap(), Byte(0x99));
    run_instruction(&mut cpu, &mut mmap);
    assert_eq!(mmap.read(Address(0xFF80)).unwrap(), Byte(0x99));
}

#[test]
fn sixteen_bit_arithmetic() {
    let mut cpu = CentralProcessor::new();
    let mut mmap = MemoryMap::new();
    cpu.write_hl(Address(0x8A23));
    cpu.write_bc(Address(0x0605));
    cpu.z_flag = true;
    cpu.execute(&mut mmap, Opcode::AddHl(Pair::BC)).unwrap();
    assert_eq!(cpu.read_hl(), Address(0x9028));
    assert!(cpu.z_flag && !cpu.n_flag && cpu.h_flag && !cpu.c_flag);
    cpu.execute(&mut mmap, Opcode::AddHl(Pair::HL)).unwrap();
    assert_eq!(cpu.read_hl(), Address(0x2050));
    assert!(!cpu.h_flag && cpu.c_flag);
    cpu.execute(&mut mmap, Opcode::DecPair(Pair::DE)).unwrap();
    assert_eq!(cpu.read_de(), Address(0xFFFF));
    cpu.execute(&mut mmap, Opcode::IncPair(Pair::DE)).unwrap();
    assert_eq!(cpu.read_de(), Address(0x0000));
    assert!(cpu.z_flag && cpu.c_flag);
    cpu.sp = Address(0xFFF8);
    cpu.execute(&mut mmap, Opcode::LoadHlSpOffset(SignedByte(2))).unwrap();
    assert_eq!(cpu.read_hl(), Address(0xFFFA));
    assert!(!cpu.z_flag && !cpu.n_flag && !cpu.h_flag && !cpu.c_flag);
    assert_eq!(cpu.cost, 3);
    cpu.execute(&mut mmap, Opcode::AddSp(SignedByte(-8))).unwrap();
    assert_eq!(cpu.sp, Address(0xFFF0));
    assert!(cpu.h_flag && cpu.c_flag);
    assert_eq!(cpu.cost, 4);
    cpu.execute(&mut mmap, Opcode::LoadSpHl).unwrap();
    assert_eq!(cpu.sp, Address(0xFFFA));
}

#[test]
fn miscellaneous_instructions() {
    let mut cpu = CentralProcessor::new();
    let mut mmap = MemoryMap::new();
    cpu.a = Byte(0x35);
    cpu.execute(&mut mmap, Opcode::Cpl).unwrap();
    assert_eq!(cpu.a, Byte(0xCA));
    assert!(cpu.n_flag && cpu.h_flag);
    cpu.execute(&mut mmap, Opcode::Scf).unwrap();
    assert!(cpu.c_flag && !cpu.n_flag && !cpu.h_flag);
    cpu.execute(&mut mmap, Opcode::Ccf).unwrap();
    assert!(!cpu.c_flag);
    cpu.execute(&mut mmap, Opcode::Ei).unwrap();
    assert!(cpu.interupt_master_enable);
    cpu.execute(&mut mmap, Opcode::Di).unwrap();
    assert!(!cpu.interupt_master_enable);
    cpu.a = Byte(0x85);
    cpu.z_flag = true;
    cpu.execute(&mut mmap, Opcode::Rlca).unwrap();
    assert_eq!(cpu.a, Byte(0x0B));
    assert!(cpu.c_flag && !cpu.z_flag);
    cpu.a = Byte(0x95);
    cpu.execute(&mut mmap, Opcode::Rla).unwrap();
    assert_eq!(cpu.a, Byte(0x2B));
    assert!(cpu.c_flag);
    cpu.a = Byte(0x3B);
    cpu.c_flag = false;
    cpu.execute(&mut mmap, Opcode::Rrca).unwrap();
    assert_eq!(cpu.a, Byte(0x9D));
    assert!(cpu.c_flag);
    cpu.a = Byte(0x81);
    cpu.c_flag = false;
    cpu.execute(&mut mmap, Opcode::Rra).unwrap();
    assert_eq!(cpu.a, Byte(0x40));
    assert!(cpu.c_flag && !cpu.z_flag);
}

#[test]
fn increment_and_decrement() {
    let mut cpu = CentralProcessor::new();
    let mut mmap = MemoryMap::new();
    cpu.c_flag = true;
    cpu.b = Byte(0xFF);
    cpu.execute(&mut mmap, Opcode::Inc(Operand::Reg(Register::B))).unwrap();
    assert_eq!(cpu.b, Byte(0x00));
    assert!(cpu.z_flag && !cpu.n_flag && cpu.h_flag && cpu.c_flag);
    cpu.execute(&mut mmap, Opcode::Dec(Operand::Reg(Register::B))).unwrap();
    assert_eq!(cpu.b, Byte(0xFF));
    assert!(!cpu.z_flag && cpu.n_flag && cpu.h_flag && cpu.c_flag);
    cpu.write_hl(Address(0xC000));
    mmap.write(Address(0xC000), Byte(0x0F)).unwrap();
    cpu.execute(&mut mmap, Opcode::Inc(Operand::HlIndirect)).unwrap();
    assert_eq!(mmap.read(Address(0xC000)).unwrap(), Byte(0x10));
    assert!(cpu.h_flag && !cpu.n_flag);
    assert_eq!(cpu.cost, 3);
    cpu.execute(&mut mmap, Opcode::Dec(Operand::HlIndirect)).unwrap();
    assert_eq!(mmap.read(Address(0xC000)).unwrap(), Byte(0x0F));
    assert!(cpu.h_flag && cpu.n_flag);
    // a fault leaves flags and cost alone
    cpu.write_hl(Address(0xE000));
    let before = cpu;
    assert_eq!(
        cpu.execute(&mut mmap, Opcode::Inc(Operand::HlIndirect)),
        Err(Fault::Prohibited(Address(0xE000)))
    );
    assert_eq!(cpu, before);
}

#[test]
fn bit_instructions_on_memory() {
    let mut cpu = CentralProcessor::new();
    let mut mmap = MemoryMap::new();
    cpu.write_hl(Address(0xC000));
    mmap.write(Address(0xC000), Byte(0b0101_0000)).unwrap();
    cpu.execute(&mut mmap, Opcode::SetBit(0, Operand::HlIndirect)).unwrap();
    assert_eq!(mmap.read(Address(0xC000)).unwrap(), Byte(0b0101_0001));
    cpu.execute(&mut mmap, Opcode::ResetBit(4, Operand::HlIndirect)).unwrap();
    assert_eq!(mmap.read(Address(0xC000)).unwrap(), Byte(0b0100_0001));
    cpu.execute(&mut mmap, Opcode::TestBit(6, Operand::HlIndirect)).unwrap();
    assert!(!cpu.z_flag && cpu.h_flag && !cpu.n_flag);
    assert_eq!(cpu.cost, 3);
    cpu.execute(&mut mmap, Opcode::TestBit(7, Operand::HlIndirect)).unwrap();
    assert!(cpu.z_flag);
    cpu.execute(&mut mmap, Opcode::Rotate(Shift::Swap, Operand::HlIndirect)).unwrap();
    assert_eq!(mmap.read(Address(0xC000)).unwrap(), Byte(0b0001_0100));
    assert_eq!(cpu.cost, 4);
    cpu.d = Byte(0x80);
    cpu.execute(&mut mmap, Opcode::Rotate(Shift::Sla, Operand::Reg(Register::D))).unwrap();
    assert_eq!(cpu.d, Byte(0x00));
    assert!(cpu.z_flag && cpu.c_flag);
    assert_eq!(cpu.cost, 2);
}

#[test]
fn stack_instructions() {
    let mut cpu = CentralProcessor::new();
    let mut mmap = MemoryMap::new();
    cpu.write_af(Address(0x12F0));
    cpu.write_bc(Address(0x3456));
    cpu.execute(&mut mmap, Opcode::Push(StackPair::AF)).unwrap();
    cpu.execute(&mut mmap, Opcode::Push(StackPair::BC)).unwrap();
    assert_eq!(cpu.sp, Address(0xFFFA));
    cpu.execute(&mut mmap, Opcode::Pop(StackPair::DE)).unwrap();
    cpu.execute(&mut mmap, Opcode::Pop(StackPair::HL)).unwrap();
    assert_eq!(cpu.read_de(), Address(0x3456));
    assert_eq!(cpu.read_hl(), Address(0x12F0));
    // the low nibble of F does not exist
    cpu.write_hl(Address(0xABCF));
    cpu.execute(&mut mmap, Opcode::Push(StackPair::HL)).unwrap();
    cpu.execute(&mut mmap, Opcode::Pop(StackPair::AF)).unwrap();
    assert_eq!(cpu.read_af(), Address(0xABC0));
    assert_eq!(cpu.sp, Address(0xFFFE));
}

#[test]
fn restarts_and_interrupt_return() {
    for n in 0..8u8 {
        let mut cpu = CentralProcessor::new();
        let mut mmap = MemoryMap::new();
        cpu.pc = Address(0x4321);
        cpu.execute(&mut mmap, Opcode::Restart(n)).unwrap();
        assert_eq!(cpu.pc, Address(8 * n as u16));
        assert_eq!(cpu.sp, Address(0xFFFC));
        assert_eq!(cpu.cost, 4);
        cpu.execute(&mut mmap, Opcode::ReturnInterrupt).unwrap();
        assert_eq!(cpu.pc, Address(0x4321));
        assert!(cpu.interupt_master_enable);
        assert_eq!(cpu.cost, 4);
    }
}

#[test]
fn conditional_control_flow() {
    let mut cpu = CentralProcessor::new();
    let mut mmap = MemoryMap::new();
    cpu.c_flag = true;
    cpu.execute(&mut mmap, Opcode::JumpIf(Condition::NC, Address(0x2000))).unwrap();
    assert_eq!(cpu.pc, Address(0x0100));
    assert_eq!(cpu.cost, 3);
    cpu.execute(&mut mmap, Opcode::JumpIf(Condition::C, Address(0x2000))).unwrap();
    assert_eq!(cpu.pc, Address(0x2000));
    assert_eq!(cpu.cost, 4);
    cpu.execute(&mut mmap, Opcode::CallIf(Condition::Z, Address(0x3000))).unwrap();
    assert_eq!(cpu.pc, Address(0x2000));
    assert_eq!(cpu.sp, Address(0xFFFE));
    assert_eq!(cpu.cost, 3);
    cpu.execute(&mut mmap, Opcode::CallIf(Condition::NZ, Address(0x3000))).unwrap();
    assert_eq!(cpu.pc, Address(0x3000));
    assert_eq!(cpu.sp, Address(0xFFFC));
    assert_eq!(cpu.cost, 6);
    cpu.execute(&mut mmap, Opcode::ReturnIf(Condition::NC)).unwrap();
    assert_eq!(cpu.pc, Address(0x3000));
    assert_eq!(cpu.cost, 2);
    cpu.execute(&mut mmap, Opcode::ReturnIf(Condition::C)).unwrap();
    assert_eq!(cpu.pc, Address(0x2000));
    assert_eq!(cpu.cost, 5);
    cpu.write_hl(Address(0x1357));
    cpu.execute(&mut mmap, Opcode::JumpHl).unwrap();
    assert_eq!(cpu.pc, Address(0x1357));
    assert_eq!(cpu.cost, 1);
    cpu.execute(&mut mmap, Opcode::JumpRelative(SignedByte(-0x57))).unwrap();
    assert_eq!(cpu.pc, Address(0x1300));
}

#[test]
fn device_forwards_to_processor_and_bus() {
    let mut dev = Device::new();
    dev.mmap.rom[0x100] = Byte(0xCB);
    dev.mmap.rom[0x101] = Byte(0x7C);
    dev.mmap.rom[0x102] = Byte(0x3E);
    dev.mmap.rom[0x103] = Byte(0x99);
    assert_eq!(dev.consume_byte().unwrap(), Byte(0xCB));
    assert_eq!(
        dev.fetch_cb_instruction().unwrap(),
        Opcode::TestBit(7, Operand::Reg(Register::H))
    );
    let op = dev.fetch_instruction().unwrap();
    assert_eq!(op, Opcode::LoadImmediate(Operand::Reg(Register::A), Byte(0x99)));
    dev.execute(op).unwrap();
    assert_eq!(dev.cpu.a, Byte(0x99));
    dev.push_address(Address(0xBEEF)).unwrap();
    assert_eq!(dev.pop_address().unwrap(), Address(0xBEEF));
    dev.set_cartrige_bank(0);
    assert_eq!(dev.read(Address(0x4100)).unwrap(), Byte(0xCB));
}
