//! Core of a cycle-stepped emulator for a colour handheld console built around
//! an LR35902-family processor.
//!
//! The crate models the processor, the memory bus with its cartridge bank
//! controllers, the pixel processor, the timer and the joypad and infrared
//! ports. Every function carries a contract that Verus proves.
pub mod constants;
pub mod cpu;
pub mod device;
pub mod fault;
pub mod frontend;
pub mod infrared;
pub mod joypad;
pub mod mbc;
pub mod memory;
pub mod ppu;
pub mod timer;
pub mod types;

pub use cpu::opcodes::Opcode;
pub use cpu::registers::Register;
pub use cpu::CentralProcessor;
pub use device::Device;
pub use fault::Fault;
pub use frontend::Event;
pub use frontend::Frontend;
pub use frontend::KeyCode;
pub use infrared::Infrared;
pub use joypad::Joypad;
pub use mbc::mbc1::MBC1;
pub use mbc::mbc2::MBC2;
pub use mbc::mbc3::MBC3;
pub use mbc::mbc5::MBC5;
pub use memory::MemoryMap;
pub use ppu::oam::ObjectAttribute;
pub use ppu::pixel::Pixel;
pub use ppu::registers::ObjectSize;
pub use ppu::registers::StatusMode;
pub use ppu::registers::TileAddressingMode;
pub use ppu::tile::Tile;
pub use ppu::tile::TileAttributes;
pub use ppu::PixelProcessor;
pub use timer::Timer;
pub use types::address::Address;
pub use types::byte::Byte;
pub use types::cartrige::CartrigeHeader;
pub use types::signed_byte::SignedByte;
