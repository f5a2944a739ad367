use chlorosis_core::timer::ClockSpeed;
use chlorosis_core::Address;
use chlorosis_core::Byte;
use chlorosis_core::Infrared;
use chlorosis_core::Joypad;
use chlorosis_core::KeyCode;
use chlorosis_core::MemoryMap;
use chlorosis_core::Timer;

#[test]
fn timer_overflow() {
    let mut mmap = MemoryMap::new();
    mmap.write(Address(0xFF06), Byte(0x10)).unwrap();
    mmap.write(Address(0xFF05), Byte(0xFE)).unwrap();
    mmap.write(Address(0xFF07), Byte(0b101)).unwrap();
    assert!(mmap.timer.enabled);
    assert_eq!(mmap.timer.clock_speed, ClockSpeed::C16);
    for _ in 0..16 {
        assert_eq!(mmap.timer.counter, Byte(0xFE));
        mmap.tick();
    }
    assert_eq!(mmap.timer.counter, Byte(0xFF));
    for _ in 0..15 {
        mmap.tick();
        assert_eq!(mmap.timer.counter, Byte(0xFF));
        assert!(!mmap.interrupt_flag.is_bit_set(2));
    }
    mmap.tick();
    assert_eq!(mmap.timer.counter, Byte(0x10));
    assert!(mmap.interrupt_flag.is_bit_set(2));
    assert_eq!(mmap.read(Address(0xFF0F)).unwrap(), Byte(0x04));
    assert_eq!(mmap.read(Address(0xFF05)).unwrap(), Byte(0x10));
    // thirty more increments from the reload value
    for _ in 0..(30 * 16) {
        mmap.tick();
    }
    assert_eq!(mmap.timer.counter, Byte(0x10 + 30));
}

#[test]
fn timer_divider_runs_while_disabled() {
    let mut timer = Timer::new();
    for i in 1..=300u32 {
        assert!(!timer.tick());
        assert_eq!(timer.read_divider(), Byte(i as u8));
        assert_eq!(timer.read_counter(), Byte(0));
    }
    timer.write_divider(Byte(0x55));
    assert_eq!(timer.read_divider(), Byte(0));
    timer.write(Address(0xFF04), Byte(0xAA));
    assert_eq!(timer.read(Address(0xFF04)), Byte(0));
}

#[test]
fn timer_prescalers() {
    for (code, period) in [(0u8, 1024u32), (1, 16), (2, 64), (3, 256)] {
        let mut timer = Timer::new();
        timer.write_control(Byte(0b100 | code));
        assert_eq!(timer.read_control(), Byte(0b100 | code));
        assert_eq!(timer.clock_speed.ticks() as u32, period);
        for _ in 0..(period - 1) {
            timer.tick();
        }
        assert_eq!(timer.read_counter(), Byte(0));
        timer.tick();
        assert_eq!(timer.read_counter(), Byte(1));
        for _ in 0..period {
            timer.tick();
        }
        assert_eq!(timer.read_counter(), Byte(2));
    }
}

#[test]
fn timer_registers() {
    let mut timer = Timer::new();
    assert_eq!(timer, Timer::default());
    timer.write_counter(Byte(0x12));
    timer.write_modulo(Byte(0x34));
    timer.write(Address(0xFF07), Byte(0xFB));
    assert_eq!(timer.read(Address(0xFF05)), Byte(0x12));
    assert_eq!(timer.read(Address(0xFF06)), Byte(0x34));
    assert_eq!(timer.read_modulo(), Byte(0x34));
    assert_eq!(timer.read(Address(0xFF07)), Byte(0x03));
    assert!(!timer.enabled);
    assert_eq!(timer.clock_speed, ClockSpeed::C256);
    timer.write(Address(0xFF05), Byte(0x56));
    timer.write(Address(0xFF06), Byte(0x78));
    assert_eq!(timer.counter, Byte(0x56));
    assert_eq!(timer.modulo, Byte(0x78));
}

#[test]
fn timer_overflow_reports_the_interrupt() {
    let mut timer = Timer::new();
    timer.write_modulo(Byte(0xF0));
    timer.write_counter(Byte(0xFF));
    timer.write_control(Byte(0b101));
    for _ in 0..15 {
        assert!(!timer.tick());
    }
    assert!(timer.tick());
    assert_eq!(timer.read_counter(), Byte(0xF0));
}

#[test]
fn joypad_rows() {
    let mut pad = Joypad::new();
    assert_eq!(pad, Joypad::default());
    for key in [KeyCode::A, KeyCode::Start, KeyCode::Left, KeyCode::Up] {
        pad.press(key);
    }
    assert_eq!(pad.read(), Byte(0));
    pad.write(Byte(0x20));
    assert_eq!(pad.read(), Byte(0b1001));
    pad.write(Byte(0x10));
    assert_eq!(pad.read(), Byte(0b0110));
    pad.write(Byte(0x30));
    assert_eq!(pad.read(), Byte(0));
    pad.write(Byte(0xCF));
    assert_eq!(pad.read(), Byte(0));
    pad.write(Byte(0x20));
    pad.release(KeyCode::A);
    pad.press(KeyCode::B);
    pad.press(KeyCode::Select);
    assert_eq!(pad.read(), Byte(0b1110));
    pad.write(Byte(0x10));
    pad.release(KeyCode::Left);
    pad.release(KeyCode::Up);
    pad.press(KeyCode::Right);
    pad.press(KeyCode::Down);
    assert_eq!(pad.read(), Byte(0b1001));
}

#[test]
fn infrared_register() {
    let mut ir = Infrared::new();
    assert_eq!(ir, Infrared::default());
    assert_eq!(ir.read(), Byte(0x02));
    ir.write(Byte(0x01));
    assert_eq!(ir.read(), Byte(0x03));
    ir.write(Byte(0xC0));
    assert_eq!(ir.read(), Byte(0xC2));
    ir.write(Byte(0x40));
    assert_eq!(ir.read(), Byte(0x02));
    ir.write(Byte(0x80));
    assert_eq!(ir.read(), Byte(0xC2));
}
