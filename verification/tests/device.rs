use chlorosis_core::device::Action;
use chlorosis_core::device::DeviceState;
use chlorosis_core::mbc::Controller;
use chlorosis_core::types::cartrige::LoadError;
use chlorosis_core::Address;
use chlorosis_core::Byte;
use chlorosis_core::CentralProcessor;
use chlorosis_core::Device;
use chlorosis_core::Event;
use chlorosis_core::Fault;
use chlorosis_core::KeyCode;

fn image(len: usize, controller: u8) -> Vec<u8> {
    let mut image = vec![0u8; len];
    image[0x147] = controller;
    image[0x148] = 0x00;
    image[0x149] = 0x00;
    image
}

#[test]
fn new_device_is_stopped() {
    let dev = Device::new();
    assert_eq!(dev.state, DeviceState::Stopped);
    assert_eq!(dev.cpu, CentralProcessor::new());
    assert!(dev.cartrige.is_none());
    assert!(dev.rom_path.is_none());
    assert_eq!(dev.mmap.rom.len(), 0x8000);
    assert_eq!(dev.mmap.wram.len(), 0x8000);
    assert_eq!(dev.mmap.hram.len(), 127);
    assert_eq!(dev.mmap.wram_bank, 1);
    assert_eq!(Device::default().state, DeviceState::Stopped);
}

#[test]
fn load_starts_the_device() {
    let mut dev = Device::new();
    let mut rom = image(0x8000, 0x00);
    rom[0x4000] = 0xAB;
    dev.load_cartrige(rom, 0).unwrap();
    assert_eq!(dev.state, DeviceState::Running);
    assert!(dev.mmap.mbc.is_none());
    assert_eq!(dev.read(Address(0x4000)).unwrap(), Byte(0xAB));
    assert_eq!(dev.get_header().unwrap().len(), 0x50);
}

#[test]
fn load_picks_the_controller() {
    for (code, which) in [(0x01u8, 1), (0x05, 2), (0x10, 3), (0x1B, 5)] {
        let mut dev = Device::new();
        let mut rom = image(0x10000, code);
        rom[0x8000 + 5] = 0x5A;
        dev.load_cartrige(rom, 77).unwrap();
        let found = match dev.mmap.mbc.as_ref().unwrap() {
            Controller::One(_) => 1,
            Controller::Two(_) => 2,
            Controller::Three(m) => {
                assert_eq!(m.rtc_start_timestamp, 77);
                3
            },
            Controller::Five(_) => 5,
        };
        assert_eq!(found, which);
        // bank two through the controller
        dev.write(Address(0x2100), Byte(0x02)).unwrap();
        assert_eq!(dev.read(Address(0x4005)).unwrap(), Byte(0x5A));
        // configuration writes leave the image alone
        assert_eq!(dev.read(Address(0x2100)).unwrap(), Byte(0x00));
    }
}

#[test]
fn load_errors_leave_the_device_stopped() {
    let mut dev = Device::new();
    dev.handle_event(Event::Run);
    assert_eq!(dev.load_cartrige(vec![0; 0x14F], 0), Err(LoadError::TruncatedHeader));
    assert_eq!(dev.state, DeviceState::Stopped);
    assert_eq!(dev.load_cartrige(image(0x8000, 0x04), 0), Err(LoadError::UnknownController(0x04)));
    assert_eq!(dev.load_cartrige(image(0x8000, 0x20), 0), Err(LoadError::UnknownController(0x20)));
    let mut bad = image(0x8000, 0x00);
    bad[0x148] = 0x10;
    assert_eq!(dev.load_cartrige(bad, 0), Err(LoadError::UnknownRomSize(0x10)));
    let mut bad = image(0x8000, 0x00);
    bad[0x149] = 0x10;
    assert_eq!(dev.load_cartrige(bad, 0), Err(LoadError::UnknownRamSize(0x10)));
    assert!(dev.cartrige.is_none());
    assert_eq!(dev.mmap.rom.len(), 0x8000);
}

#[test]
fn events_drive_the_lifecycle() {
    let mut dev = Device::new();
    assert!(matches!(dev.handle_event(Event::Run), Action::Proceed));
    assert_eq!(dev.state, DeviceState::Running);
    assert!(matches!(dev.handle_event(Event::Pause), Action::Proceed));
    assert_eq!(dev.state, DeviceState::Paused);
    assert!(matches!(dev.handle_event(Event::Exit), Action::Exit));
    assert!(matches!(dev.handle_event(Event::SaveState("a".to_string())), Action::Unsupported));
    assert!(matches!(dev.handle_event(Event::LoadState("a".to_string())), Action::Unsupported));
    assert!(matches!(dev.handle_event(Event::Reset), Action::Proceed));
    assert_eq!(dev.state, DeviceState::Stopped);
    match dev.handle_event(Event::LoadFile("game.gbc".to_string())) {
        Action::Load(path) => assert_eq!(path, "game.gbc"),
        _ => panic!("a load was due"),
    }
    dev.load_cartrige(image(0x8000, 0x00), 0).unwrap();
    dev.cpu.a = Byte(0x12);
    dev.write(Address(0xC000), Byte(0x34)).unwrap();
    match dev.handle_event(Event::Reset) {
        Action::Load(path) => assert_eq!(path, "game.gbc"),
        _ => panic!("a reload was due"),
    }
    assert_eq!(dev.rom_path.as_deref(), Some("game.gbc"));
    assert_eq!(dev.state, DeviceState::Stopped);
    assert_eq!(dev.cpu, CentralProcessor::new());
    assert_eq!(dev.read(Address(0xC000)).unwrap(), Byte(0x00));
    assert!(dev.cartrige.is_none());
}

#[test]
fn key_events_reach_the_joypad() {
    let mut dev = Device::new();
    dev.handle_event(Event::KeyDown(vec![KeyCode::A, KeyCode::Start, KeyCode::Down]));
    dev.write(Address(0xFF00), Byte(0x20)).unwrap();
    assert_eq!(dev.read(Address(0xFF00)).unwrap(), Byte(0b1001));
    dev.write(Address(0xFF00), Byte(0x10)).unwrap();
    assert_eq!(dev.read(Address(0xFF00)).unwrap(), Byte(0b1000));
    dev.handle_event(Event::KeyUp(vec![KeyCode::Down, KeyCode::A]));
    assert_eq!(dev.read(Address(0xFF00)).unwrap(), Byte(0));
    dev.handle_keydown(vec![KeyCode::Up, KeyCode::Up]);
    assert_eq!(dev.read(Address(0xFF00)).unwrap(), Byte(0b0100));
    dev.handle_keyup(vec![]);
    assert_eq!(dev.read(Address(0xFF00)).unwrap(), Byte(0b0100));
}

#[test]
fn run_only_ticks_while_running() {
    let mut dev = Device::new();
    assert_eq!(dev.run(100), Ok(0));
    assert_eq!(dev.cpu, CentralProcessor::new());
    assert_eq!(dev.mmap.ppu.frame_dot_counter, 0);
    dev.handle_event(Event::Run);
    // the reset image is all NOPs
    assert_eq!(dev.run(100), Ok(100));
    assert_eq!(dev.cpu.pc, Address(0x0100 + 100));
    assert_eq!(dev.mmap.ppu.frame_dot_counter, 100);
    assert_eq!(dev.mmap.timer.divider, Byte(100));
    dev.handle_event(Event::Pause);
    assert_eq!(dev.run(100), Ok(0));
    assert_eq!(dev.cpu.pc, Address(0x0100 + 100));
}

#[test]
fn run_stops_at_a_fault() {
    let mut dev = Device::new();
    dev.handle_event(Event::Run);
    dev.mmap.rom[0x0105] = Byte(0xD3);
    assert_eq!(dev.run(100), Err(Fault::IllegalOpcode(Byte(0xD3))));
    assert_eq!(dev.cpu.pc, Address(0x0106));
    // five ticks went through before the fault
    assert_eq!(dev.mmap.ppu.frame_dot_counter, 5);
}

#[test]
fn frames_are_handed_over_once() {
    let mut dev = Device::new();
    dev.handle_event(Event::Run);
    // a jump to itself in work RAM keeps the processor busy
    dev.write(Address(0xC000), Byte(0x18)).unwrap();
    dev.write(Address(0xC001), Byte(0xFE)).unwrap();
    dev.cpu.pc = Address(0xC000);
    assert!(dev.take_frame().is_none());
    assert_eq!(dev.run(70_223), Ok(70_223));
    assert!(dev.take_frame().is_none());
    assert_eq!(dev.run(1), Ok(1));
    let frame = dev.take_frame().unwrap();
    assert_eq!(frame.len(), 160 * 144);
    assert!(dev.take_frame().is_none());
    assert_eq!(dev.cpu.pc, Address(0xC000));
}

#[test]
fn tick_moves_processor_then_devices() {
    let mut dev = Device::new();
    // LD A, (0xFF04): the read sees the divider as it was before the tick
    dev.mmap.rom[0x100] = Byte(0xFA);
    dev.mmap.rom[0x101] = Byte(0x04);
    dev.mmap.rom[0x102] = Byte(0xFF);
    dev.tick().unwrap();
    assert_eq!(dev.cpu.a, Byte(0));
    assert_eq!(dev.mmap.timer.divider, Byte(1));
    assert_eq!(dev.cpu.cost, 3);
    dev.step_cpu().unwrap();
    assert_eq!(dev.cpu.cost, 2);
    assert_eq!(dev.mmap.timer.divider, Byte(1));
}
