//! Boundaries of the address map and sizes of the memories behind it.
use vstd::prelude::*;

verus! {

pub const ROM_0_START: u16 = 0x0000;

pub const ROM_0_END: u16 = 0x3FFF;

pub const ROM_1_START: u16 = 0x4000;

pub const ROM_1_END: u16 = 0x7FFF;

pub const VRAM_START: u16 = 0x8000;

pub const VRAM_END: u16 = 0x9FFF;

pub const ERAM_START: u16 = 0xA000;

pub const ERAM_END: u16 = 0xBFFF;

pub const WRAM_0_START: u16 = 0xC000;

pub const WRAM_0_END: u16 = 0xCFFF;

pub const WRAM_1_START: u16 = 0xD000;

pub const WRAM_1_END: u16 = 0xDFFF;

pub const DEADZONE_0_START: u16 = 0xE000;

pub const DEADZONE_0_END: u16 = 0xFDFF;

pub const OAM_START: u16 = 0xFE00;

pub const OAM_END: u16 = 0xFE9F;

pub const DEADZONE_1_START: u16 = 0xFEA0;

pub const DEADZONE_1_END: u16 = 0xFEFF;

pub const IO_START: u16 = 0xFF00;

pub const IO_END: u16 = 0xFF7F;

pub const HRAM_START: u16 = 0xFF80;

pub const HRAM_END: u16 = 0xFFFE;

pub const INTERRUPT_ENABLE: u16 = 0xFFFF;

pub const INTERRUPT_FLAG: u16 = 0xFF0F;

/// Work RAM: eight banks of 4 KiB.
pub const WRAM_SIZE: usize = 0x8000;

pub const WRAM_BANK_SIZE: usize = 0x1000;

/// External RAM of a cartridge without a controller.
pub const ERAM_SIZE: usize = 0x2000;

pub const ROM_BANK_SIZE: usize = 0x4000;

pub const HRAM_SIZE: usize = 0x7F;

/// The bit of the interrupt flag latch that the timer raises.
pub const TIMER_INTERRUPT: u8 = 2;

/// Where the cartridge header starts and ends in the image.
pub const HEADER_START: usize = 0x100;

pub const HEADER_END: usize = 0x14F;

} // verus!
