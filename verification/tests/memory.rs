use chlorosis_core::constants::HRAM_SIZE;
use chlorosis_core::constants::ROM_BANK_SIZE;
use chlorosis_core::constants::WRAM_BANK_SIZE;
use chlorosis_core::ppu::OAM_SIZE;
use chlorosis_core::ppu::VRAM_BANK_SIZE;
use chlorosis_core::memory::Mapping;
use chlorosis_core::Address;
use chlorosis_core::Byte;
use chlorosis_core::MemoryMap;
use chlorosis_core::StatusMode;

const CARTRIGE_BANK_SIZE: usize = ROM_BANK_SIZE;

#[test]
fn test_memory_map_cartrige_rom_0() {
    let mut mmap = MemoryMap::new();
    mmap.rom = vec![Byte(0); CARTRIGE_BANK_SIZE * 3];

    // Start + end of Cartrige ROM bank 00
    mmap.rom[0] = Byte(0xFA);
    mmap.rom[CARTRIGE_BANK_SIZE - 1] = Byte(0xFF);
    assert_eq!(mmap.read(Address(0x0)).unwrap(), Byte(0xFA));
    assert_eq!(mmap.read(Address(0x3FFF)).unwrap(), Byte(0xFF));
}

#[test]
fn test_memory_map_read_cartrige_rom_1() {
    let mut mmap = MemoryMap::new();
    mmap.rom = vec![Byte(0); CARTRIGE_BANK_SIZE * 3];

    // Start + end of Cartrige ROM bank 01
    mmap.rom[0x4000] = Byte(0xAA);
    mmap.rom[0x4000 + CARTRIGE_BANK_SIZE - 1] = Byte(0xB0);
    assert_eq!(mmap.read(Address(0x4000)).unwrap(), Byte(0xAA));
    assert_eq!(mmap.read(Address(0x7FFF)).unwrap(), Byte(0xB0));
}

#[test]
fn test_memory_map_read_cartrige_rom_2() {
    let mut mmap = MemoryMap::new();
    mmap.rom = vec![Byte(0); CARTRIGE_BANK_SIZE * 3];

    // Start + end of Cartrige ROM bank 02
    mmap.set_cartrige_bank(2);
    mmap.rom[0x8000] = Byte(0xCA);
    mmap.rom[0x8000 + CARTRIGE_BANK_SIZE - 1] = Byte(0xBE);
    assert_eq!(mmap.read(Address(0x4000)).unwrap(), Byte(0xCA));
    assert_eq!(mmap.read(Address(0x7FFF)).unwrap(), Byte(0xBE));
}

#[test]
fn memory_test_memory_map_read_vram_0() {
    let mut mmap = MemoryMap::new();

    // Start + end of VRAM bank 00
    mmap.ppu.vram[0] = Byte(0xFA);
    mmap.ppu.vram[VRAM_BANK_SIZE - 1] = Byte(0xFF);
    assert_eq!(mmap.read(Address(0x8000)).unwrap(), Byte(0xFA));
    assert_eq!(mmap.read(Address(0x9FFF)).unwrap(), Byte(0xFF));
}

#[test]
fn memory_test_memory_map_read_vram_1() {
    let mut mmap = MemoryMap::new();

    // Start + end of VRAM bank 01
    mmap.ppu.regs.vram_bank = Byte(1);
    mmap.ppu.vram[0x2000] = Byte(0xFB);
    mmap.ppu.vram[0x2000 + VRAM_BANK_SIZE - 1] = Byte(0xFE);
    assert_eq!(mmap.read(Address(0x8000)).unwrap(), Byte(0xFB));
    assert_eq!(mmap.read(Address(0x9FFF)).unwrap(), Byte(0xFE));
}

#[test]
fn memory_test_memory_map_read_wram_0() {
    let mut mmap = MemoryMap::new();

    // Start + end of WRAM bank 00
    mmap.wram[0] = Byte(0xFA);
    mmap.wram[WRAM_BANK_SIZE - 1] = Byte(0xFF);
    assert_eq!(mmap.read(Address(0xC000)).unwrap(), Byte(0xFA));
    assert_eq!(mmap.read(Address(0xCFFF)).unwrap(), Byte(0xFF));
}

#[test]
fn memory_test_memory_map_read_wram_1() {
    let mut mmap = MemoryMap::new();

    // Start + end of WRAM bank 01
    mmap.wram[0x1000] = Byte(0xFB);
    mmap.wram[0x1000 + WRAM_BANK_SIZE - 1] = Byte(0xFE);
    assert_eq!(mmap.read(Address(0xD000)).unwrap(), Byte(0xFB));
    assert_eq!(mmap.read(Address(0xDFFF)).unwrap(), Byte(0xFE));
}

#[test]
fn memory_test_memory_map_read_wram_2() {
    let mut mmap = MemoryMap::new();

    // Start + end of WRAM bank 02
    mmap.wram_bank = 2;
    mmap.wram[0x2000] = Byte(0xCA);
    mmap.wram[0x2000 + WRAM_BANK_SIZE - 1] = Byte(0xBE);
    assert_eq!(mmap.read(Address(0xD000)).unwrap(), Byte(0xCA));
    assert_eq!(mmap.read(Address(0xDFFF)).unwrap(), Byte(0xBE));
}

#[test]
fn memory_test_memory_map_read_oam() {
    let mut mmap = MemoryMap::new();

    // Start + end of OAM (sprite attribute table)
    mmap.ppu.oam[0x0] = Byte(0xCA);
    mmap.ppu.oam[OAM_SIZE - 1] = Byte(0xFE);
    assert_eq!(mmap.read(Address(0xFE00)).unwrap(), Byte(0xCA));
    assert_eq!(mmap.read(Address(0xFE9F)).unwrap(), Byte(0xFE));
}

#[test]
fn memory_test_memory_map_read_hram() {
    let mut mmap = MemoryMap::new();

    // Start + end of HRAM
    mmap.hram[0x0] = Byte(0xCA);
    mmap.hram[HRAM_SIZE - 1] = Byte(0xFE);
    assert_eq!(mmap.read(Address(0xFF80)).unwrap(), Byte(0xCA));
    assert_eq!(mmap.read(Address(0xFFFE)).unwrap(), Byte(0xFE));
}

#[test]
fn memory_test_memory_map_read_interrupt() {
    let mut mmap = MemoryMap::new();

    mmap.interrupt = Byte(0x10);
    assert_eq!(mmap.read(Address(0xFFFF)).unwrap(), Byte(0x10));
}

#[test]
fn test_memory_map_read_rom_0() {
    let mut mmap = MemoryMap::new();

    // Start + end of ROM bank 00
    mmap.rom[0] = Byte(0xFA);
    mmap.rom[ROM_BANK_SIZE - 1] = Byte(0xFF);
    assert_eq!(mmap.read(Address(0x0000)).unwrap(), Byte(0xFA));
    assert_eq!(mmap.read(Address(0x3FFF)).unwrap(), Byte(0xFF));
}

#[test]
fn test_memory_map_read_rom_1() {
    let mut mmap = MemoryMap::new();
    mmap.rom.append(&mut vec![Byte(0); ROM_BANK_SIZE]);

    // Start + end of ROM bank 01
    mmap.rom[0x4000] = Byte(0xAA);
    mmap.rom[0x4000 + ROM_BANK_SIZE - 1] = Byte(0xB0);
    assert_eq!(mmap.read(Address(0x4000)).unwrap(), Byte(0xAA));
    assert_eq!(mmap.read(Address(0x7FFF)).unwrap(), Byte(0xB0));
}

#[test]
fn test_memory_map_read_rom_2() {
    let mut mmap = MemoryMap::new();
    mmap.rom.append(&mut vec![Byte(0); ROM_BANK_SIZE * 2]);

    // Start + end of ROM bank 02
    mmap.set_cartrige_bank(2);
    mmap.rom[0x8000] = Byte(0xCA);
    mmap.rom[0x8000 + ROM_BANK_SIZE - 1] = Byte(0xBE);
    assert_eq!(mmap.read(Address(0x4000)).unwrap(), Byte(0xCA));
    assert_eq!(mmap.read(Address(0x7FFF)).unwrap(), Byte(0xBE));
}

#[test]
fn mod_test_memory_map_read_vram_0() {
    let mut mmap = MemoryMap::new();

    // Start + end of VRAM bank 00
    mmap.ppu.vram[0] = Byte(0xFA);
    mmap.ppu.vram[VRAM_BANK_SIZE - 1] = Byte(0xFF);
    assert_eq!(mmap.read(Address(0x8000)).unwrap(), Byte(0xFA));
    assert_eq!(mmap.read(Address(0x9FFF)).unwrap(), Byte(0xFF));
}

#[test]
fn mod_test_memory_map_read_vram_1() {
    let mut mmap = MemoryMap::new();

    // Start + end of VRAM bank 01
    mmap.ppu.regs.vram_bank = Byte(1);
    mmap.ppu.vram[0x2000] = Byte(0xFB);
    mmap.ppu.vram[0x2000 + VRAM_BANK_SIZE - 1] = Byte(0xFE);
    assert_eq!(mmap.read(Address(0x8000)).unwrap(), Byte(0xFB));
    assert_eq!(mmap.read(Address(0x9FFF)).unwrap(), Byte(0xFE));
}

#[test]
fn mod_test_memory_map_read_wram_0() {
    let mut mmap = MemoryMap::new();

    // Start + end of WRAM bank 00
    mmap.wram[0] = Byte(0xFA);
    mmap.wram[WRAM_BANK_SIZE - 1] = Byte(0xFF);
    assert_eq!(mmap.read(Address(0xC000)).unwrap(), Byte(0xFA));
    assert_eq!(mmap.read(Address(0xCFFF)).unwrap(), Byte(0xFF));
}

#[test]
fn mod_test_memory_map_read_wram_1() {
    let mut mmap = MemoryMap::new();

    // Start + end of WRAM bank 01
    mmap.wram[0x1000] = Byte(0xFB);
    mmap.wram[0x1000 + WRAM_BANK_SIZE - 1] = Byte(0xFE);
    assert_eq!(mmap.read(Address(0xD000)).unwrap(), Byte(0xFB));
    assert_eq!(mmap.read(Address(0xDFFF)).unwrap(), Byte(0xFE));
}

#[test]
fn mod_test_memory_map_read_wram_2() {
    let mut mmap = MemoryMap::new();

    // Start + end of WRAM bank 02
    mmap.wram_bank = 2;
    mmap.wram[0x2000] = Byte(0xCA);
    mmap.wram[0x2000 + WRAM_BANK_SIZE - 1] = Byte(0xBE);
    assert_eq!(mmap.read(Address(0xD000)).unwrap(), Byte(0xCA));
    assert_eq!(mmap.read(Address(0xDFFF)).unwrap(), Byte(0xBE));
}

#[test]
fn mod_test_memory_map_read_oam() {
    let mut mmap = MemoryMap::new();

    // Start + end of OAM (sprite attribute table)
    mmap.ppu.oam[0x0] = Byte(0xCA);
    mmap.ppu.oam[OAM_SIZE - 1] = Byte(0xFE);
    assert_eq!(mmap.read(Address(0xFE00)).unwrap(), Byte(0xCA));
    assert_eq!(mmap.read(Address(0xFE9F)).unwrap(), Byte(0xFE));
}

#[test]
fn mod_test_memory_map_read_hram() {
    let mut mmap = MemoryMap::new();

    // Start + end of HRAM
    mmap.hram[0x0] = Byte(0xCA);
    mmap.hram[HRAM_SIZE - 1] = Byte(0xFE);
    assert_eq!(mmap.read(Address(0xFF80)).unwrap(), Byte(0xCA));
    assert_eq!(mmap.read(Address(0xFFFE)).unwrap(), Byte(0xFE));
}

#[test]
fn mod_test_memory_map_read_interrupt() {
    let mut mmap = MemoryMap::new();

    mmap.interrupt = Byte(0x10);
    assert_eq!(mmap.read(Address(0xFFFF)).unwrap(), Byte(0x10));
}

#[test]
fn test_memory_map_write_rom_0() {
    let mut mmap = MemoryMap::new();
    mmap.rom = vec![Byte(0); ROM_BANK_SIZE];

    // Start + end of ROM bank 00
    mmap.write(Address(0x0000), Byte(0xAA)).unwrap();
    mmap.write(Address(0x3FFF), Byte(0xEE)).unwrap();
    assert_eq!(mmap.rom[0x0000], Byte(0xAA));
    assert_eq!(mmap.rom[ROM_BANK_SIZE - 1], Byte(0xEE));
}

#[test]
fn test_memory_map_write_rom_1() {
    let mut mmap = MemoryMap::new();
    mmap.rom = vec![Byte(0); ROM_BANK_SIZE * 2];

    // Start + end of ROM bank 01
    mmap.write(Address(0x4000), Byte(0xAA)).unwrap();
    mmap.write(Address(0x7FFF), Byte(0xEE)).unwrap();
    assert_eq!(mmap.rom[0x4000], Byte(0xAA));
    assert_eq!(mmap.rom[0x4000 + ROM_BANK_SIZE - 1], Byte(0xEE));
}

#[test]
fn test_memory_map_write_rom_2() {
    let mut mmap = MemoryMap::new();
    mmap.rom = vec![Byte(0); ROM_BANK_SIZE * 3];

    // Start + end of ROM bank 02
    mmap.set_cartrige_bank(2);
    mmap.write(Address(0x4000), Byte(0xAA)).unwrap();
    mmap.write(Address(0x7FFF), Byte(0xEE)).unwrap();
    assert_eq!(mmap.rom[0x8000], Byte(0xAA));
    assert_eq!(mmap.rom[0x8000 + ROM_BANK_SIZE - 1], Byte(0xEE));
}

#[test]
fn test_memory_map_write_vram_0() {
    let mut mmap = MemoryMap::new();

    // Start + end of VRAM bank 00
    mmap.write(Address(0x8000), Byte(0xAA)).unwrap();
    mmap.write(Address(0x9FFF), Byte(0xEE)).unwrap();
    assert_eq!(mmap.ppu.vram[0], Byte(0xAA));
    assert_eq!(mmap.ppu.vram[VRAM_BANK_SIZE - 1], Byte(0xEE));
}

#[test]
fn test_memory_map_write_vram_1() {
    let mut mmap = MemoryMap::new();

    // Start + end of VRAM bank 01
    mmap.ppu.regs.vram_bank = Byte(1);
    mmap.write(Address(0x8000), Byte(0xAA)).unwrap();
    mmap.write(Address(0x9FFF), Byte(0xEE)).unwrap();
    assert_eq!(mmap.ppu.vram[0x2000], Byte(0xAA));
    assert_eq!(mmap.ppu.vram[0x2000 + VRAM_BANK_SIZE - 1], Byte(0xEE));
}

#[test]
fn test_memory_map_write_wram_0() {
    let mut mmap = MemoryMap::new();

    // Start + end of WRAM bank 00
    mmap.write(Address(0xC000), Byte(0xAA)).unwrap();
    mmap.write(Address(0xCFFF), Byte(0xEE)).unwrap();
    assert_eq!(mmap.wram[0], Byte(0xAA));
    assert_eq!(mmap.wram[WRAM_BANK_SIZE - 1], Byte(0xEE));
}

#[test]
fn test_memory_map_write_wram_1() {
    let mut mmap = MemoryMap::new();

    // Start + end of WRAM bank 01
    mmap.write(Address(0xD000), Byte(0xAA)).unwrap();
    mmap.write(Address(0xDFFF), Byte(0xEE)).unwrap();
    assert_eq!(mmap.wram[mmap.wram_bank * WRAM_BANK_SIZE], Byte(0xAA));
    assert_eq!(
        mmap.wram[(mmap.wram_bank + 1) * WRAM_BANK_SIZE - 1],
        Byte(0xEE)
    );
}

#[test]
fn test_memory_map_write_wram_2() {
    let mut mmap = MemoryMap::new();

    // Start + end of WRAM bank 02
    mmap.wram_bank = 2;
    mmap.write(Address(0xD000), Byte(0xAA)).unwrap();
    mmap.write(Address(0xDFFF), Byte(0xEE)).unwrap();
    assert_eq!(mmap.wram[mmap.wram_bank * WRAM_BANK_SIZE], Byte(0xAA));
    assert_eq!(
        mmap.wram[(mmap.wram_bank + 1) * WRAM_BANK_SIZE - 1],
        Byte(0xEE)
    );
}

#[test]
fn test_memory_map_write_oam() {
    let mut mmap = MemoryMap::new();

    // Start + end of OAM (sprite attribute table)
    mmap.write(Address(0xFE00), Byte(0xAA)).unwrap();
    mmap.write(Address(0xFE9F), Byte(0xEE)).unwrap();
    assert_eq!(mmap.ppu.oam[0x0000], Byte(0xAA));
    assert_eq!(mmap.ppu.oam[OAM_SIZE - 1], Byte(0xEE));
}

#[test]
fn test_memory_map_write_hram() {
    let mut mmap = MemoryMap::new();

    // Start + end of HRAM
    mmap.write(Address(0xFF80), Byte(0xAA)).unwrap();
    mmap.write(Address(0xFFFE), Byte(0xEE)).unwrap();
    assert_eq!(mmap.hram[0x0000], Byte(0xAA));
    assert_eq!(mmap.hram[HRAM_SIZE - 1], Byte(0xEE));
}

#[test]
fn test_memory_map_write_interrupt() {
    let mut mmap = MemoryMap::new();

    mmap.write(Address(0xFFFF), Byte(0x10)).unwrap();
    assert_eq!(mmap.interrupt, Byte(0x10));
}
#[test]
fn test_write() {}

#[test]
fn prohibited_ranges_fault() {
    let mut mmap = MemoryMap::new();
    for a in [0xE000u16, 0xF000, 0xFDFF, 0xFEA0, 0xFEFF, 0xFF03, 0xFF08, 0xFF0E, 0xFF71, 0xFF75, 0xFF78, 0xFF7F] {
        assert_eq!(mmap.read(Address(a)), Err(chlorosis_core::Fault::Prohibited(Address(a))));
        assert_eq!(
            mmap.write(Address(a), Byte(1)),
            Err(chlorosis_core::Fault::Prohibited(Address(a)))
        );
    }
}

#[test]
fn audio_registers_fault() {
    let mut mmap = MemoryMap::new();
    for a in [0xFF10u16, 0xFF26, 0xFF3F, 0xFF76, 0xFF77] {
        assert_eq!(mmap.read(Address(a)), Err(chlorosis_core::Fault::Prohibited(Address(a))));
        assert_eq!(
            mmap.write(Address(a), Byte(0x80)),
            Err(chlorosis_core::Fault::Prohibited(Address(a)))
        );
    }
}

#[test]
fn serial_is_a_stub() {
    let mut mmap = MemoryMap::new();
    mmap.write(Address(0xFF01), Byte(0x55)).unwrap();
    mmap.write(Address(0xFF02), Byte(0x81)).unwrap();
    assert_eq!(mmap.read(Address(0xFF01)).unwrap(), Byte(0));
    assert_eq!(mmap.read(Address(0xFF02)).unwrap(), Byte(0));
}

#[test]
fn write_then_read_gives_the_value_back() {
    let mut mmap = MemoryMap::new();
    for a in [0x0000u16, 0x3FFF, 0x4000, 0x7FFF, 0x8000, 0x9FFF, 0xA000, 0xBFFF, 0xC000, 0xCFFF, 0xD000, 0xDFFF, 0xFE00, 0xFE9F, 0xFF0F, 0xFF80, 0xFFFE, 0xFFFF] {
        mmap.write(Address(a), Byte(0xA5)).unwrap();
        assert_eq!(mmap.read(Address(a)).unwrap(), Byte(0xA5));
        mmap.write(Address(a), Byte(0x3C)).unwrap();
        assert_eq!(mmap.read(Address(a)).unwrap(), Byte(0x3C));
    }
}

#[test]
fn wram_bank_select_aliases_zero_to_one() {
    let mut mmap = MemoryMap::new();
    mmap.write(Address(0xFF70), Byte(0)).unwrap();
    assert_eq!(mmap.wram_bank, 1);
    assert_eq!(mmap.read(Address(0xFF70)).unwrap(), Byte(1));
    mmap.write(Address(0xFF70), Byte(5)).unwrap();
    assert_eq!(mmap.wram_bank, 5);
    mmap.write(Address(0xD000), Byte(0x77)).unwrap();
    assert_eq!(mmap.wram[5 * WRAM_BANK_SIZE], Byte(0x77));
    mmap.write(Address(0xFF70), Byte(0xF8)).unwrap();
    assert_eq!(mmap.wram_bank, 1);
    assert_eq!(mmap.read(Address(0xD000)).unwrap(), Byte(0));
}

#[test]
fn bank_beyond_the_image_faults() {
    let mut mmap = MemoryMap::new();
    mmap.set_cartrige_bank(2);
    assert_eq!(
        mmap.read(Address(0x4000)),
        Err(chlorosis_core::Fault::BankOutOfRange(Address(0x4000)))
    );
    mmap.set_cartrige_bank(usize::MAX);
    assert_eq!(
        mmap.write(Address(0x7FFF), Byte(1)),
        Err(chlorosis_core::Fault::BankOutOfRange(Address(0x7FFF)))
    );
    mmap.set_cartrige_bank(0);
    mmap.rom[0] = Byte(0x11);
    assert_eq!(mmap.read(Address(0x4000)).unwrap(), Byte(0x11));
}

#[test]
fn io_page_routes_to_the_devices() {
    let mut mmap = MemoryMap::new();
    mmap.joypad.press(chlorosis_core::KeyCode::A);
    mmap.write(Address(0xFF00), Byte(0x20)).unwrap();
    assert_eq!(mmap.read(Address(0xFF00)).unwrap(), Byte(0x01));
    mmap.write(Address(0xFF06), Byte(0x10)).unwrap();
    assert_eq!(mmap.timer.modulo, Byte(0x10));
    assert_eq!(mmap.read(Address(0xFF06)).unwrap(), Byte(0x10));
    mmap.write(Address(0xFF42), Byte(0x33)).unwrap();
    assert_eq!(mmap.ppu.regs.scy, Byte(0x33));
    mmap.write(Address(0xFF56), Byte(0x81)).unwrap();
    assert!(mmap.infrared.led_active && mmap.infrared.read_enabled);
    assert_eq!(mmap.read(Address(0xFF56)).unwrap(), Byte(0xC3));
}

#[test]
fn map_decodes_every_region() {
    let mmap = MemoryMap::new();
    assert_eq!(mmap.map(Address(0x0000)), Mapping::RomFixed(0));
    assert_eq!(mmap.map(Address(0x3FFF)), Mapping::RomFixed(0x3FFF));
    assert_eq!(mmap.map(Address(0x4000)), Mapping::RomBanked(0));
    assert_eq!(mmap.map(Address(0x7FFF)), Mapping::RomBanked(0x3FFF));
    assert_eq!(mmap.map(Address(0x8000)), Mapping::Vram(0));
    assert_eq!(mmap.map(Address(0x9FFF)), Mapping::Vram(0x1FFF));
    assert_eq!(mmap.map(Address(0xA000)), Mapping::Eram(0));
    assert_eq!(mmap.map(Address(0xBFFF)), Mapping::Eram(0x1FFF));
    assert_eq!(mmap.map(Address(0xC000)), Mapping::WramFixed(0));
    assert_eq!(mmap.map(Address(0xCFFF)), Mapping::WramFixed(0xFFF));
    assert_eq!(mmap.map(Address(0xD000)), Mapping::WramBanked(0));
    assert_eq!(mmap.map(Address(0xDFFF)), Mapping::WramBanked(0xFFF));
    assert_eq!(mmap.map(Address(0xE000)), Mapping::Prohibited);
    assert_eq!(mmap.map(Address(0xFDFF)), Mapping::Prohibited);
    assert_eq!(mmap.map(Address(0xFE00)), Mapping::Oam(0));
    assert_eq!(mmap.map(Address(0xFE9F)), Mapping::Oam(0x9F));
    assert_eq!(mmap.map(Address(0xFEA0)), Mapping::Prohibited);
    assert_eq!(mmap.map(Address(0xFEFF)), Mapping::Prohibited);
    assert_eq!(mmap.map(Address(0xFF00)), Mapping::Io(0));
    assert_eq!(mmap.map(Address(0xFF7F)), Mapping::Io(0x7F));
    assert_eq!(mmap.map(Address(0xFF80)), Mapping::Hram(0));
    assert_eq!(mmap.map(Address(0xFFFE)), Mapping::Hram(0x7E));
    assert_eq!(mmap.map(Address(0xFFFF)), Mapping::InterruptEnable);
}

#[test]
fn gated_video_memory() {
    let mut mmap = MemoryMap::new();
    mmap.write(Address(0x8000), Byte(0x12)).unwrap();
    mmap.write(Address(0xFE00), Byte(0x34)).unwrap();
    // LCD on, drawing: both memories are closed
    mmap.ppu.regs.lcdc = Byte(0x80);
    mmap.ppu.write_stat_mode(StatusMode::Draw);
    assert_eq!(mmap.read(Address(0x8000)), Err(chlorosis_core::Fault::Gated(Address(0x8000))));
    assert_eq!(mmap.read(Address(0xFE00)), Err(chlorosis_core::Fault::Gated(Address(0xFE00))));
    mmap.write(Address(0x8000), Byte(0xFF)).unwrap();
    mmap.write(Address(0xFE00), Byte(0xFF)).unwrap();
    assert_eq!(mmap.ppu.vram[0], Byte(0x12));
    assert_eq!(mmap.ppu.oam[0], Byte(0x34));
    // LCD off: video memory opens, object memory stays closed
    mmap.ppu.regs.lcdc = Byte(0x00);
    assert_eq!(mmap.read(Address(0x8000)).unwrap(), Byte(0x12));
    assert_eq!(mmap.read(Address(0xFE00)), Err(chlorosis_core::Fault::Gated(Address(0xFE00))));
    mmap.ppu.regs.lcdc = Byte(0x80);
    mmap.ppu.write_stat_mode(StatusMode::VBlank);
    assert_eq!(mmap.read(Address(0xFE00)).unwrap(), Byte(0x34));
    mmap.ppu.write_stat_mode(StatusMode::OAM);
    assert_eq!(mmap.read(Address(0x9FFF)), Err(chlorosis_core::Fault::Gated(Address(0x9FFF))));
}

#[test]
fn header_is_copied_out() {
    let mut mmap = MemoryMap::new();
    mmap.rom[0x100] = Byte(0x01);
    mmap.rom[0x14F] = Byte(0x4F);
    let header = mmap.get_header().unwrap();
    assert_eq!(header.len(), 0x50);
    assert_eq!(header[0], Byte(0x01));
    assert_eq!(header[0x4F], Byte(0x4F));
    mmap.rom = vec![Byte(0); 0x14F];
    assert!(mmap.get_header().is_none());
}

#[test]
fn default_is_the_reset_state() {
    let mmap = MemoryMap::default();
    assert!(mmap.is_valid());
    assert_eq!(mmap.rom.len(), 2 * ROM_BANK_SIZE);
    assert_eq!(mmap.rom_bank, 1);
    assert_eq!(mmap.wram_bank, 1);
    assert!(mmap.mbc.is_none());
    assert_eq!(mmap.interrupt, Byte(0));
    assert_eq!(mmap.interrupt_flag, Byte(0));
    let mut broken = MemoryMap::new();
    broken.wram_bank = 0;
    assert!(!broken.is_valid());
    let mut broken = MemoryMap::new();
    broken.ppu.vram.pop();
    assert!(!broken.is_valid());
    let mut broken = MemoryMap::new();
    broken.ppu.line_dot_counter = 5;
    assert!(!broken.is_valid());
}
