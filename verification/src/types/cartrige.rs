//! The cartridge header: the fifty bytes from `0x100` of the image that
//! describe the cartridge.
use vstd::prelude::*;
use crate::types::byte::Byte;
use crate::types::licensee::get_licensee_name;
use crate::types::licensee::licensee_title;

verus! {

/// Why a cartridge image cannot be loaded.
#[derive(Clone, Copy, Debug, PartialEq, Eq, Structural)]
pub enum LoadError {
    /// The image ends before the header does.
    TruncatedHeader,
    /// The header names a controller that is not supported.
    UnknownController(u8),
    /// The header's ROM size code is not defined.
    UnknownRomSize(u8),
    /// The header's RAM size code is not defined.
    UnknownRamSize(u8),
}

/// Whether the cartridge is made for the colour console.
#[derive(Clone, Copy, Debug, PartialEq, Eq, Structural)]
pub enum ColorMode {
    BackwardsCompat,
    ColorOnly,
    Unknown,
}

/// Whether the cartridge uses the functions of the television adapter.
#[derive(Clone, Copy, Debug, PartialEq, Eq, Structural)]
pub enum SgbSupport {
    Unsupported,
    Supported,
    Unknown,
}

/// Where the cartridge is meant to be sold.
#[derive(Clone, Copy, Debug, PartialEq, Eq, Structural)]
pub enum Destination {
    Japan,
    NotJapan,
    Unknown,
}

/// The hardware on the cartridge, as the header names it.
#[derive(Clone, Copy, Debug, PartialEq, Eq, Structural)]
#[allow(non_camel_case_types)]
pub enum MemoryBankControllerType {
    ROM_ONLY,
    MBC1,
    MBC1_RAM,
    MBC1_RAM_BATTERY,
    MBC2,
    MBC2_BATTERY,
    ROM_RAM,
    ROM_RAM_BATTERY,
    MMM01,
    MMM01_RAM,
    MMM01_RAM_BATTERY,
    MBC3_TIMER_BATTERY,
    MBC3_TIMER_RAM_BATTERY,
    MBC3,
    MBC3_RAM,
    MBC3_RAM_BATTERY,
    MBC5,
    MBC5_RAM,
    MBC5_RAM_BATTERY,
    MBC5_RUMBLE,
    MBC5_RUMBLE_RAM,
    MBC5_RUMBLE_RAM_BATTERY,
    MBC6,
    MBC7_SENSOR_RUMBLE_RAM_BATTERY,
    POCKET_CAMERA,
    BANDAI_TAMA5,
    HUC3,
    HUC1_RAM_BATTERY,
}

/// The family of controller that drives the cartridge.
#[derive(Clone, Copy, Debug, PartialEq, Eq, Structural)]
pub enum ControllerKind {
    /// No controller: the image is mapped as it is.
    Plain,
    First,
    Second,
    Third,
    Fifth,
}

/// The colour mode that the flag at `0x143` encodes.
pub open spec fn color_mode_of(value: u8) -> ColorMode {
    if value == 0x80 {
        ColorMode::BackwardsCompat
    } else if value == 0xC0 {
        ColorMode::ColorOnly
    } else {
        ColorMode::Unknown
    }
}

/// The adapter support that the flag at `0x146` encodes.
pub open spec fn sgb_support_of(value: u8) -> SgbSupport {
    if value == 0x00 {
        SgbSupport::Unsupported
    } else if value == 0x03 {
        SgbSupport::Supported
    } else {
        SgbSupport::Unknown
    }
}

/// The destination that the code at `0x14A` encodes.
pub open spec fn destination_of(value: u8) -> Destination {
    if value == 0x00 {
        Destination::Japan
    } else if value == 0x01 {
        Destination::NotJapan
    } else {
        Destination::Unknown
    }
}

/// The hardware that the code at `0x147` names, if it names any.
pub open spec fn controller_type_of(code: u8) -> Option<MemoryBankControllerType> {
    if code == 0x00 {
        Some(MemoryBankControllerType::ROM_ONLY)
    } else if code == 0x01 {
        Some(MemoryBankControllerType::MBC1)
    } else if code == 0x02 {
        Some(MemoryBankControllerType::MBC1_RAM)
    } else if code == 0x03 {
        Some(MemoryBankControllerType::MBC1_RAM_BATTERY)
    } else if code == 0x05 {
        Some(MemoryBankControllerType::MBC2)
    } else if code == 0x06 {
        Some(MemoryBankControllerType::MBC2_BATTERY)
    } else if code == 0x08 {
        Some(MemoryBankControllerType::ROM_RAM)
    } else if code == 0x09 {
        Some(MemoryBankControllerType::ROM_RAM_BATTERY)
    } else if code == 0x0B {
        Some(MemoryBankControllerType::MMM01)
    } else if code == 0x0C {
        Some(MemoryBankControllerType::MMM01_RAM)
    } else if code == 0x0D {
        Some(MemoryBankControllerType::MMM01_RAM_BATTERY)
    } else if code == 0x0F {
        Some(MemoryBankControllerType::MBC3_TIMER_BATTERY)
    } else if code == 0x10 {
        Some(MemoryBankControllerType::MBC3_TIMER_RAM_BATTERY)
    } else if code == 0x11 {
        Some(MemoryBankControllerType::MBC3)
    } else if code == 0x12 {
        Some(MemoryBankControllerType::MBC3_RAM)
    } else if code == 0x13 {
        Some(MemoryBankControllerType::MBC3_RAM_BATTERY)
    } else if code == 0x19 {
        Some(MemoryBankControllerType::MBC5)
    } else if code == 0x1A {
        Some(MemoryBankControllerType::MBC5_RAM)
    } else if code == 0x1B {
        Some(MemoryBankControllerType::MBC5_RAM_BATTERY)
    } else if code == 0x1C {
        Some(MemoryBankControllerType::MBC5_RUMBLE)
    } else if code == 0x1D {
        Some(MemoryBankControllerType::MBC5_RUMBLE_RAM)
    } else if code == 0x1E {
        Some(MemoryBankControllerType::MBC5_RUMBLE_RAM_BATTERY)
    } else if code == 0x20 {
        Some(MemoryBankControllerType::MBC6)
    } else if code == 0x22 {
        Some(MemoryBankControllerType::MBC7_SENSOR_RUMBLE_RAM_BATTERY)
    } else if code == 0xFC {
        Some(MemoryBankControllerType::POCKET_CAMERA)
    } else if code == 0xFD {
        Some(MemoryBankControllerType::BANDAI_TAMA5)
    } else if code == 0xFE {
        Some(MemoryBankControllerType::HUC3)
    } else if code == 0xFF {
        Some(MemoryBankControllerType::HUC1_RAM_BATTERY)
    } else {
        None
    }
}

/// The family of controller that the code at `0x147` calls for, if the
/// core supports it: codes 1 to 3 the first, 5 and 6 the second, `0x0F` to
/// `0x13` the third, `0x19` to `0x1E` the fifth, and 0, 8 and 9 none.
pub open spec fn controller_kind_of(code: u8) -> Option<ControllerKind> {
    if code == 0x00 || code == 0x08 || code == 0x09 {
        Some(ControllerKind::Plain)
    } else if 0x01 <= code <= 0x03 {
        Some(ControllerKind::First)
    } else if code == 0x05 || code == 0x06 {
        Some(ControllerKind::Second)
    } else if 0x0F <= code <= 0x13 {
        Some(ControllerKind::Third)
    } else if 0x19 <= code <= 0x1E {
        Some(ControllerKind::Fifth)
    } else {
        None
    }
}

/// The size of the ROM in bytes that the code at `0x148` stands for:
/// 32 KiB doubled `code` times up to code 8, and three odd sizes.
pub open spec fn rom_size_of(code: u8) -> Option<u64> {
    if code == 0 {
        Some(0x8000u64)
    } else if code == 1 {
        Some(0x10000u64)
    } else if code == 2 {
        Some(0x20000u64)
    } else if code == 3 {
        Some(0x40000u64)
    } else if code == 4 {
        Some(0x80000u64)
    } else if code == 5 {
        Some(0x100000u64)
    } else if code == 6 {
        Some(0x200000u64)
    } else if code == 7 {
        Some(0x400000u64)
    } else if code == 8 {
        Some(0x800000u64)
    } else if code == 0x52 {
        Some(0x120000u64)
    } else if code == 0x53 {
        Some(0x140000u64)
    } else if code == 0x54 {
        Some(0x180000u64)
    } else {
        None
    }
}

/// The size of the cartridge RAM in bytes that the code at `0x149` stands
/// for.
pub open spec fn ram_size_of(code: u8) -> Option<u32> {
    if code == 0 {
        Some(0x0u32)
    } else if code == 1 {
        Some(0x800u32)
    } else if code == 2 {
        Some(0x2000u32)
    } else if code == 3 {
        Some(0x8000u32)
    } else if code == 4 {
        Some(0x20000u32)
    } else if code == 5 {
        Some(0x10000u32)
    } else {
        None
    }
}

/// The licensee code: the old code at `0x14B`, unless that is `0x33`, in
/// which case the low nibbles of the two bytes of the new code are joined.
pub open spec fn licensee_code_of(old: u8, first: u8, second: u8) -> u8 {
    if old == 0x33 {
        (((first % 16) * 16 + second) % 256) as u8
    } else {
        old
    }
}

/// Shifting 32 KiB left doubles it once for each place.
proof fn lemma_rom_size_shift(code: u8)
    by (bit_vector)
    requires
        code <= 8,
    ensures
        (0x8000u64 << (code as u64)) == if code == 0 {
            0x8000u64
        } else if code == 1 {
            0x10000u64
        } else if code == 2 {
            0x20000u64
        } else if code == 3 {
            0x40000u64
        } else if code == 4 {
            0x80000u64
        } else if code == 5 {
            0x100000u64
        } else if code == 6 {
            0x200000u64
        } else if code == 7 {
            0x400000u64
        } else {
            0x800000u64
        },
{
}

/// Decodes the ROM size code.
pub fn get_rom_size(code: u8) -> (out: Option<u64>)
    ensures
        out == rom_size_of(code),
{
    if code <= 8 {
        proof {
            lemma_rom_size_shift(code);
        }
        Some(0x8000u64 << (code as u64))
    } else if code == 0x52 {
        Some(0x120000)
    } else if code == 0x53 {
        Some(0x140000)
    } else if code == 0x54 {
        Some(0x180000)
    } else {
        None
    }
}

/// Decodes the RAM size code.
pub fn get_ram_size(code: u8) -> (out: Option<u32>)
    ensures
        out == ram_size_of(code),
{
    match code {
        0 => Some(0x0),
        1 => Some(0x800),
        2 => Some(0x2000),
        3 => Some(0x8000),
        4 => Some(0x20000),
        5 => Some(0x10000),
        _ => None,
    }
}

impl From<u8> for ColorMode {
    /// Decodes the colour flag.
    fn from(value: u8) -> (out: ColorMode) {
        match value {
            0x80 => ColorMode::BackwardsCompat,
            0xC0 => ColorMode::ColorOnly,
            _ => ColorMode::Unknown,
        }
    }
}

impl vstd::std_specs::convert::FromSpecImpl<u8> for ColorMode {
    open spec fn obeys_from_spec() -> bool {
        true
    }

    open spec fn from_spec(value: u8) -> ColorMode {
        color_mode_of(value)
    }
}

impl From<u8> for SgbSupport {
    /// Decodes the adapter flag.
    fn from(value: u8) -> (out: SgbSupport) {
        match value {
            0x00 => SgbSupport::Unsupported,
            0x03 => SgbSupport::Supported,
            _ => SgbSupport::Unknown,
        }
    }
}

impl vstd::std_specs::convert::FromSpecImpl<u8> for SgbSupport {
    open spec fn obeys_from_spec() -> bool {
        true
    }

    open spec fn from_spec(value: u8) -> SgbSupport {
        sgb_support_of(value)
    }
}

impl From<u8> for Destination {
    /// Decodes the destination code.
    fn from(value: u8) -> (out: Destination) {
        match value {
            0x00 => Destination::Japan,
            0x01 => Destination::NotJapan,
            _ => Destination::Unknown,
        }
    }
}

impl vstd::std_specs::convert::FromSpecImpl<u8> for Destination {
    open spec fn obeys_from_spec() -> bool {
        true
    }

    open spec fn from_spec(value: u8) -> Destination {
        destination_of(value)
    }
}

/// Decodes the hardware code.
pub fn get_controller_type(code: u8) -> (out: Option<MemoryBankControllerType>)
    ensures
        out == controller_type_of(code),
{
    match code {
        0x00 => Some(MemoryBankControllerType::ROM_ONLY),
        0x01 => Some(MemoryBankControllerType::MBC1),
        0x02 => Some(MemoryBankControllerType::MBC1_RAM),
        0x03 => Some(MemoryBankControllerType::MBC1_RAM_BATTERY),
        0x05 => Some(MemoryBankControllerType::MBC2),
        0x06 => Some(MemoryBankControllerType::MBC2_BATTERY),
        0x08 => Some(MemoryBankControllerType::ROM_RAM),
        0x09 => Some(MemoryBankControllerType::ROM_RAM_BATTERY),
        0x0B => Some(MemoryBankControllerType::MMM01),
        0x0C => Some(MemoryBankControllerType::MMM01_RAM),
        0x0D => Some(MemoryBankControllerType::MMM01_RAM_BATTERY),
        0x0F => Some(MemoryBankControllerType::MBC3_TIMER_BATTERY),
        0x10 => Some(MemoryBankControllerType::MBC3_TIMER_RAM_BATTERY),
        0x11 => Some(MemoryBankControllerType::MBC3),
        0x12 => Some(MemoryBankControllerType::MBC3_RAM),
        0x13 => Some(MemoryBankControllerType::MBC3_RAM_BATTERY),
        0x19 => Some(MemoryBankControllerType::MBC5),
        0x1A => Some(MemoryBankControllerType::MBC5_RAM),
        0x1B => Some(MemoryBankControllerType::MBC5_RAM_BATTERY),
        0x1C => Some(MemoryBankControllerType::MBC5_RUMBLE),
        0x1D => Some(MemoryBankControllerType::MBC5_RUMBLE_RAM),
        0x1E => Some(MemoryBankControllerType::MBC5_RUMBLE_RAM_BATTERY),
        0x20 => Some(MemoryBankControllerType::MBC6),
        0x22 => Some(MemoryBankControllerType::MBC7_SENSOR_RUMBLE_RAM_BATTERY),
        0xFC => Some(MemoryBankControllerType::POCKET_CAMERA),
        0xFD => Some(MemoryBankControllerType::BANDAI_TAMA5),
        0xFE => Some(MemoryBankControllerType::HUC3),
        0xFF => Some(MemoryBankControllerType::HUC1_RAM_BATTERY),
        _ => None,
    }
}

/// The family of controller that drives hardware of the given type, if the
/// core supports it.
pub fn get_controller_kind(code: u8) -> (out: Option<ControllerKind>)
    ensures
        out == controller_kind_of(code),
{
    match get_controller_type(code) {
        Some(MemoryBankControllerType::ROM_ONLY)
        | Some(MemoryBankControllerType::ROM_RAM)
        | Some(MemoryBankControllerType::ROM_RAM_BATTERY) => Some(ControllerKind::Plain),
        Some(MemoryBankControllerType::MBC1)
        | Some(MemoryBankControllerType::MBC1_RAM)
        | Some(MemoryBankControllerType::MBC1_RAM_BATTERY) => Some(ControllerKind::First),
        Some(MemoryBankControllerType::MBC2) | Some(MemoryBankControllerType::MBC2_BATTERY) => {
            Some(ControllerKind::Second)
        },
        Some(MemoryBankControllerType::MBC3_TIMER_BATTERY)
        | Some(MemoryBankControllerType::MBC3_TIMER_RAM_BATTERY)
        | Some(MemoryBankControllerType::MBC3)
        | Some(MemoryBankControllerType::MBC3_RAM)
        | Some(MemoryBankControllerType::MBC3_RAM_BATTERY) => Some(ControllerKind::Third),
        Some(MemoryBankControllerType::MBC5)
        | Some(MemoryBankControllerType::MBC5_RAM)
        | Some(MemoryBankControllerType::MBC5_RAM_BATTERY)
        | Some(MemoryBankControllerType::MBC5_RUMBLE)
        | Some(MemoryBankControllerType::MBC5_RUMBLE_RAM)
        | Some(MemoryBankControllerType::MBC5_RUMBLE_RAM_BATTERY) => Some(ControllerKind::Fifth),
        _ => None,
    }
}

/// Joins the low nibbles of the two bytes of the new licensee code.
pub fn merge_nibbles(a: u8, b: u8) -> (out: u8)
    ensures
        out == ((a % 16) * 16 + b) % 256,
{
    ((a % 16) * 16).wrapping_add(b)
}

/// The decoded header.
#[derive(Clone, Debug)]
pub struct CartrigeHeader {
    pub title: String,
    pub cgb_flag: ColorMode,
    pub licensee_name: String,
    pub licensee_code: u8,
    pub sgb_flag: SgbSupport,
    pub mbc_type: MemoryBankControllerType,
    pub rom_size: u64,
    pub rom_banks: u16,
    pub ram_size: u32,
    pub destination: Destination,
    pub version_number: u8,
    pub header_checksum: u8,
    pub global_checksum: u16,
}

/// The number of bytes from `0x100` that make up the header.
pub const HEADER_LENGTH: usize = 0x50;

/// Where the title starts in the header, and how long it is.
pub const TITLE_OFFSET: usize = 0x34;

pub const TITLE_LENGTH: usize = 16;

/// The text that `String::from_utf8_lossy` makes of `bytes`.
pub uninterp spec fn lossy_text(bytes: Seq<u8>) -> Seq<char>;

/// Whether every byte is below 128.
pub open spec fn all_ascii(bytes: Seq<u8>) -> bool {
    forall|i: int| 0 <= i < bytes.len() ==> #[trigger] bytes[i] < 128
}

/// Turns the bytes of the title into text with `String::from_utf8_lossy`.
/// The text is the function's result for these bytes; its documentation
/// says that valid UTF-8 is kept as it is and each invalid sequence
/// becomes the replacement character, of which the contract states only
/// that the result depends on the bytes alone.
#[verifier::external_body]
fn title_text(bytes: &Vec<u8>) -> (out: String)
    ensures
        out@ == lossy_text(bytes@),
{
    String::from_utf8_lossy(bytes).into_owned()
}

/// What the header region `slice` decodes to, but for the title: the
/// fields read at their places in the region, which starts at `0x100` of
/// the image.
pub open spec fn header_fields_match(header: CartrigeHeader, slice: Seq<Byte>) -> bool {
    &&& header.cgb_flag == color_mode_of(slice[0x43].0)
    &&& header.licensee_code == licensee_code_of(slice[0x4B].0, slice[0x44].0, slice[0x45].0)
    &&& header.licensee_name@ == licensee_title(slice[0x4B].0, header.licensee_code)@
    &&& header.sgb_flag == sgb_support_of(slice[0x46].0)
    &&& Some(header.mbc_type) == controller_type_of(slice[0x47].0)
    &&& Some(header.rom_size) == rom_size_of(slice[0x48].0)
    &&& header.rom_banks == header.rom_size / 0x4000
    &&& Some(header.ram_size) == ram_size_of(slice[0x49].0)
    &&& header.destination == destination_of(slice[0x4A].0)
    &&& header.version_number == slice[0x4C].0
    &&& header.header_checksum == slice[0x4D].0
    &&& header.global_checksum == slice[0x4E].0 * 256 + slice[0x4F].0
}

/// The sixteen bytes of the title.
pub open spec fn title_bytes(slice: Seq<Byte>) -> Seq<u8> {
    Seq::new(16, |i: int| slice[0x34 + i].0)
}

/// What decoding the header region gives: the error, if the region is too
/// short or one of the three codes is not defined, tested in that order
/// (hardware, ROM size, RAM size).
pub open spec fn header_error(slice: Seq<Byte>) -> Option<LoadError> {
    if slice.len() < 0x50 {
        Some(LoadError::TruncatedHeader)
    } else if controller_type_of(slice[0x47].0) is None {
        Some(LoadError::UnknownController(slice[0x47].0))
    } else if rom_size_of(slice[0x48].0) is None {
        Some(LoadError::UnknownRomSize(slice[0x48].0))
    } else if ram_size_of(slice[0x49].0) is None {
        Some(LoadError::UnknownRamSize(slice[0x49].0))
    } else {
        None
    }
}

impl CartrigeHeader {
    /// Decodes the header region, which starts at `0x100` of the image.
    pub fn from_bytes(slice: &[Byte]) -> (out: Result<CartrigeHeader, LoadError>)
        ensures
            match out {
                Ok(header) => header_error(slice@) is None && header_fields_match(header, slice@)
                    && header.title@ == lossy_text(title_bytes(slice@)),
                Err(error) => header_error(slice@) == Some(error),
            },
    {
        if slice.len() < HEADER_LENGTH {
            return Err(LoadError::TruncatedHeader);
        }
        let mbc_type = match get_controller_type(slice[0x47].0) {
            Some(t) => t,
            None => {
                return Err(LoadError::UnknownController(slice[0x47].0));
            },
        };
        let rom_size = match get_rom_size(slice[0x48].0) {
            Some(size) => size,
            None => {
                return Err(LoadError::UnknownRomSize(slice[0x48].0));
            },
        };
        let ram_size = match get_ram_size(slice[0x49].0) {
            Some(size) => size,
            None => {
                return Err(LoadError::UnknownRamSize(slice[0x49].0));
            },
        };
        let mut title: Vec<u8> = Vec::new();
        let mut i: usize = 0;
        while i < TITLE_LENGTH
            invariant
                i <= TITLE_LENGTH,
                slice.len() >= HEADER_LENGTH,
                title@.len() == i,
                forall|k: int| 0 <= k < i ==> #[trigger] title@[k] == slice@[0x34 + k].0,
            decreases TITLE_LENGTH - i,
        {
            title.push(slice[TITLE_OFFSET + i].0);
            i = i + 1;
        }
        assert(title@ =~= title_bytes(slice@));
        let old_code: u8 = slice[0x4B].0;
        let licensee_code: u8 = if old_code == 0x33 {
            merge_nibbles(slice[0x44].0, slice[0x45].0)
        } else {
            old_code
        };
        Ok(
            CartrigeHeader {
                title: title_text(&title),
                cgb_flag: ColorMode::from(slice[0x43].0),
                licensee_name: get_licensee_name(old_code, licensee_code).to_owned(),
                licensee_code,
                sgb_flag: SgbSupport::from(slice[0x46].0),
                mbc_type,
                rom_size,
                rom_banks: (rom_size / 0x4000) as u16,
                ram_size,
                destination: Destination::from(slice[0x4A].0),
                version_number: slice[0x4C].0,
                header_checksum: slice[0x4D].0,
                global_checksum: slice[0x4E].0 as u16 * 256 + slice[0x4F].0 as u16,
            },
        )
    }
}

} // verus!
