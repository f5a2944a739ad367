use chlorosis_core::types::cartrige::get_ram_size;
use chlorosis_core::types::cartrige::get_rom_size;
use chlorosis_core::types::cartrige::get_controller_kind;
use chlorosis_core::types::cartrige::merge_nibbles;
use chlorosis_core::types::cartrige::ColorMode;
use chlorosis_core::types::cartrige::ControllerKind;
use chlorosis_core::types::cartrige::Destination;
use chlorosis_core::types::cartrige::LoadError;
use chlorosis_core::types::cartrige::MemoryBankControllerType;
use chlorosis_core::types::cartrige::SgbSupport;
use chlorosis_core::Byte;
use chlorosis_core::CartrigeHeader;
use chlorosis_core::Device;

#[test]
fn cartrige_test_rom_size() {
    assert_eq!(get_rom_size(0x00), Some(0x8000));
    assert_eq!(get_rom_size(0x01), Some(0x10000));
    assert_eq!(get_rom_size(0x05), Some(0x100000));
    assert_eq!(get_rom_size(0x54), Some(0x180000));
}

/// An image of `len` bytes with a header for a colour-only cartridge sold
/// outside Japan.
fn image(len: usize, controller: u8) -> Vec<u8> {
    let mut image = vec![0u8; len];
    for (i, c) in "SUPER MARIOBROS".bytes().enumerate() {
        image[0x134 + i] = c;
    }
    image[0x143] = 0xC0;
    image[0x144] = b'0';
    image[0x145] = b'1';
    image[0x146] = 0x00;
    image[0x147] = controller;
    image[0x148] = 0x05;
    image[0x149] = 0x02;
    image[0x14A] = 0x01;
    image[0x14B] = 0x33;
    image[0x14C] = 0x00;
    image[0x14D] = 0x9D;
    image[0x14E] = 0x12;
    image[0x14F] = 0x34;
    image
}

#[test]
fn read_header() {
    let mut d = Device::new();
    d.load_cartrige(image(0x8000, 0x1B), 0).unwrap();
    let c = d.cartrige.as_ref().unwrap();
    assert_eq!(c.cgb_flag, ColorMode::ColorOnly);
    assert_eq!(c.destination, Destination::NotJapan);
    assert_eq!(c.licensee_code, 0x31);
}

#[test]
fn header_fields() {
    let bytes: Vec<Byte> = image(0x150, 0x1B)[0x100..0x150].iter().map(|b| Byte(*b)).collect();
    let header = CartrigeHeader::from_bytes(&bytes).unwrap();
    // the last byte of the title field is the colour flag, which is no text
    assert_eq!(header.title, "SUPER MARIOBROS\u{fffd}");
    assert_eq!(header.licensee_name, "Nintendo");
    assert_eq!(header.sgb_flag, SgbSupport::Unsupported);
    assert_eq!(header.mbc_type, MemoryBankControllerType::MBC5_RAM_BATTERY);
    assert_eq!(header.rom_size, 0x100000);
    assert_eq!(header.rom_banks, 64);
    assert_eq!(header.ram_size, 0x2000);
    assert_eq!(header.version_number, 0);
    assert_eq!(header.header_checksum, 0x9D);
    assert_eq!(header.global_checksum, 0x1234);
}

#[test]
fn header_errors() {
    let bytes: Vec<Byte> = image(0x150, 0x1B)[0x100..0x150].iter().map(|b| Byte(*b)).collect();
    assert_eq!(
        CartrigeHeader::from_bytes(&bytes[..0x4F]).unwrap_err(),
        LoadError::TruncatedHeader
    );
    let mut bad = bytes.clone();
    bad[0x47] = Byte(0x04);
    assert_eq!(CartrigeHeader::from_bytes(&bad).unwrap_err(), LoadError::UnknownController(0x04));
    let mut bad = bytes.clone();
    bad[0x48] = Byte(0x09);
    assert_eq!(CartrigeHeader::from_bytes(&bad).unwrap_err(), LoadError::UnknownRomSize(0x09));
    let mut bad = bytes.clone();
    bad[0x49] = Byte(0x06);
    assert_eq!(CartrigeHeader::from_bytes(&bad).unwrap_err(), LoadError::UnknownRamSize(0x06));
}

#[test]
fn old_licensee_code_wins_unless_it_defers() {
    let mut bytes: Vec<Byte> = image(0x150, 0x00)[0x100..0x150].iter().map(|b| Byte(*b)).collect();
    bytes[0x4B] = Byte(0x01);
    assert_eq!(CartrigeHeader::from_bytes(&bytes).unwrap().licensee_code, 0x01);
    assert_eq!(CartrigeHeader::from_bytes(&bytes).unwrap().licensee_name, "Nintendo");
    bytes[0x4B] = Byte(0x08);
    assert_eq!(CartrigeHeader::from_bytes(&bytes).unwrap().licensee_name, "Capcom");
    bytes[0x4B] = Byte(0x02);
    assert_eq!(CartrigeHeader::from_bytes(&bytes).unwrap().licensee_name, "Unknown");
    assert_eq!(chlorosis_core::types::licensee::get_licensee_name(0x33, 0x08), "Capcom");
    assert_eq!(chlorosis_core::types::licensee::get_licensee_name(0x33, 0xA4), "Konami (Yu-Gi-Oh!)");
    assert_eq!(chlorosis_core::types::licensee::new_licensee_name(0x01), "Nintendo R&D1");
    assert_eq!(chlorosis_core::types::licensee::old_licensee_name(0xB4), "Square Enix");
    assert_eq!(merge_nibbles(0x30, 0x31), 0x31);
    assert_eq!(merge_nibbles(0x01, 0x02), 0x12);
    assert_eq!(merge_nibbles(0xFF, 0xFF), 0xEF);
}

#[test]
fn flags_decode() {
    let mut bytes: Vec<Byte> = image(0x150, 0x00)[0x100..0x150].iter().map(|b| Byte(*b)).collect();
    bytes[0x43] = Byte(0x80);
    bytes[0x46] = Byte(0x03);
    bytes[0x4A] = Byte(0x00);
    let header = CartrigeHeader::from_bytes(&bytes).unwrap();
    assert_eq!(header.cgb_flag, ColorMode::BackwardsCompat);
    assert_eq!(header.sgb_flag, SgbSupport::Supported);
    assert_eq!(header.destination, Destination::Japan);
    bytes[0x43] = Byte(0x00);
    bytes[0x46] = Byte(0x01);
    bytes[0x4A] = Byte(0x02);
    let header = CartrigeHeader::from_bytes(&bytes).unwrap();
    assert_eq!(header.cgb_flag, ColorMode::Unknown);
    assert_eq!(header.sgb_flag, SgbSupport::Unknown);
    assert_eq!(header.destination, Destination::Unknown);
}

#[test]
fn flag_values() {
    assert_eq!(ColorMode::from(0x80), ColorMode::BackwardsCompat);
    assert_eq!(ColorMode::from(0xC0), ColorMode::ColorOnly);
    assert_eq!(ColorMode::from(0x00), ColorMode::Unknown);
    assert_eq!(SgbSupport::from(0x00), SgbSupport::Unsupported);
    assert_eq!(SgbSupport::from(0x03), SgbSupport::Supported);
    assert_eq!(SgbSupport::from(0x01), SgbSupport::Unknown);
    assert_eq!(Destination::from(0x00), Destination::Japan);
    assert_eq!(Destination::from(0x01), Destination::NotJapan);
    assert_eq!(Destination::from(0xFF), Destination::Unknown);
}

#[test]
fn sizes_decode() {
    for code in 0..=8u8 {
        assert_eq!(get_rom_size(code), Some(0x8000u64 << code));
    }
    assert_eq!(get_rom_size(0x52), Some(0x120000));
    assert_eq!(get_rom_size(0x53), Some(0x140000));
    assert_eq!(get_rom_size(0x09), None);
    assert_eq!(get_rom_size(0x55), None);
    assert_eq!(get_ram_size(0), Some(0));
    assert_eq!(get_ram_size(1), Some(0x800));
    assert_eq!(get_ram_size(2), Some(0x2000));
    assert_eq!(get_ram_size(3), Some(0x8000));
    assert_eq!(get_ram_size(4), Some(0x20000));
    assert_eq!(get_ram_size(5), Some(0x10000));
    assert_eq!(get_ram_size(6), None);
}

#[test]
fn controller_kinds() {
    assert_eq!(get_controller_kind(0x00), Some(ControllerKind::Plain));
    assert_eq!(get_controller_kind(0x08), Some(ControllerKind::Plain));
    assert_eq!(get_controller_kind(0x03), Some(ControllerKind::First));
    assert_eq!(get_controller_kind(0x06), Some(ControllerKind::Second));
    assert_eq!(get_controller_kind(0x0F), Some(ControllerKind::Third));
    assert_eq!(get_controller_kind(0x13), Some(ControllerKind::Third));
    assert_eq!(get_controller_kind(0x19), Some(ControllerKind::Fifth));
    assert_eq!(get_controller_kind(0x1E), Some(ControllerKind::Fifth));
    assert_eq!(get_controller_kind(0x20), None);
    assert_eq!(get_controller_kind(0x04), None);
    assert_eq!(get_controller_kind(0xFF), None);
}
