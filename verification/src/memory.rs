//! The memory bus: region decoding, the memories it owns, and the routing
//! of the I/O page to the devices behind it.
use vstd::prelude::*;
use crate::constants::ERAM_SIZE;
use crate::constants::HRAM_SIZE;
use crate::constants::ROM_BANK_SIZE;
use crate::constants::WRAM_BANK_SIZE;
use crate::constants::WRAM_SIZE;
use crate::fault::Fault;
use crate::infrared::Infrared;
use crate::joypad::Joypad;
use crate::mbc::build_controller;
use crate::mbc::fresh_controller;
use crate::mbc::Controller;
use crate::mbc::ControllerView;
use crate::ppu::ppu_reset;
use crate::ppu::PixelProcessor;
use crate::ppu::PpuView;
use crate::timer::Timer;
use crate::types::address::Address;
use crate::types::byte::Byte;
use crate::types::cartrige::controller_kind_of;
use crate::types::cartrige::get_controller_kind;
use crate::types::cartrige::header_error;
use crate::types::cartrige::header_fields_match;
use crate::types::cartrige::lossy_text;
use crate::types::cartrige::title_bytes;
use crate::types::cartrige::CartrigeHeader;
use crate::types::cartrige::ControllerKind;
use crate::types::cartrige::LoadError;
use crate::constants::TIMER_INTERRUPT;

verus! {

/// What an address decodes to: the region, and for the memories the offset
/// from the start of the region's window.
#[derive(Clone, Copy, Debug, PartialEq, Eq, Structural)]
pub enum Mapping {
    /// The fixed ROM window.
    RomFixed(u16),
    /// The switchable ROM window.
    RomBanked(u16),
    Vram(u16),
    /// The cartridge RAM window.
    Eram(u16),
    /// Work RAM bank zero.
    WramFixed(u16),
    /// The switchable work RAM window.
    WramBanked(u16),
    Oam(u16),
    /// A register of the I/O page.
    Io(u16),
    Hram(u16),
    InterruptEnable,
    /// Echo memory and the gap behind object memory.
    Prohibited,
}

/// The region that `address` lies in and its offset there.
pub open spec fn decode(address: Address) -> Mapping {
    let a = address.0;
    if a <= 0x3FFF {
        Mapping::RomFixed(a)
    } else if a <= 0x7FFF {
        Mapping::RomBanked((a - 0x4000) as u16)
    } else if a <= 0x9FFF {
        Mapping::Vram((a - 0x8000) as u16)
    } else if a <= 0xBFFF {
        Mapping::Eram((a - 0xA000) as u16)
    } else if a <= 0xCFFF {
        Mapping::WramFixed((a - 0xC000) as u16)
    } else if a <= 0xDFFF {
        Mapping::WramBanked((a - 0xD000) as u16)
    } else if a <= 0xFDFF {
        Mapping::Prohibited
    } else if a <= 0xFE9F {
        Mapping::Oam((a - 0xFE00) as u16)
    } else if a <= 0xFEFF {
        Mapping::Prohibited
    } else if a <= 0xFF7F {
        Mapping::Io((a - 0xFF00) as u16)
    } else if a <= 0xFFFE {
        Mapping::Hram((a - 0xFF80) as u16)
    } else {
        Mapping::InterruptEnable
    }
}

/// The work RAM bank that a write of `value` to the bank register selects:
/// its low three bits, with zero standing for one.
pub open spec fn wram_selection(value: Byte) -> usize {
    if value.0 % 8 == 0 {
        1usize
    } else {
        (value.0 % 8) as usize
    }
}

/// The bus and everything reachable through it.
#[derive(Debug)]
pub struct MemoryMap {
    /// The ROM image of a cartridge without a controller.
    pub rom: Vec<Byte>,
    /// The external RAM of a cartridge without a controller.
    pub eram: Vec<Byte>,
    pub wram: Vec<Byte>,
    pub hram: Vec<Byte>,
    /// The interrupt enable latch at `0xFFFF`.
    pub interrupt: Byte,
    /// The interrupt flag latch at `0xFF0F`.
    pub interrupt_flag: Byte,
    /// The bank of the image shown in the switchable window when there is
    /// no controller.
    pub rom_bank: usize,
    /// The work RAM bank shown in the switchable window, one to seven.
    pub wram_bank: usize,
    /// The cartridge's controller, if it has one.
    pub mbc: Option<Controller>,
    pub ppu: PixelProcessor,
    pub timer: Timer,
    pub joypad: Joypad,
    pub infrared: Infrared,
}

/// The mathematical state of the bus.
pub struct BusView {
    pub rom: Seq<Byte>,
    pub eram: Seq<Byte>,
    pub wram: Seq<Byte>,
    pub hram: Seq<Byte>,
    pub interrupt: Byte,
    pub interrupt_flag: Byte,
    pub rom_bank: usize,
    pub wram_bank: usize,
    pub mbc: Option<ControllerView>,
    pub ppu: PpuView,
    pub timer: Timer,
    pub joypad: Joypad,
    pub infrared: Infrared,
}

impl BusView {
    /// The memories have their sizes, the work RAM bank is one to seven,
    /// and every device is in order.
    pub open spec fn wf(self) -> bool {
        &&& self.eram.len() == ERAM_SIZE
        &&& self.wram.len() == WRAM_SIZE
        &&& self.hram.len() == HRAM_SIZE
        &&& 1 <= self.wram_bank <= 7
        &&& (self.mbc matches Some(c) ==> c.wf())
        &&& self.ppu.wf()
        &&& self.timer.wf()
    }

    /// The place in the image that a ROM address maps to when there is no
    /// controller.
    pub open spec fn rom_index(self, address: Address) -> int {
        if address.0 < 0x4000 {
            address.0 as int
        } else {
            (address.0 - 0x4000) + self.rom_bank * ROM_BANK_SIZE
        }
    }

    /// The place in work RAM that an address of one of its two windows
    /// maps to.
    pub open spec fn wram_index(self, address: Address) -> int {
        if address.0 < 0xD000 {
            address.0 - 0xC000
        } else {
            (address.0 - 0xD000) + self.wram_bank * WRAM_BANK_SIZE
        }
    }

    /// What a read in the cartridge's windows returns.
    pub open spec fn cartridge_read(self, address: Address) -> Result<Byte, Fault> {
        match self.mbc {
            Some(c) => c.read(address),
            None => if address.0 <= 0x7FFF {
                if self.rom_index(address) < self.rom.len() {
                    Ok(self.rom[self.rom_index(address)])
                } else {
                    Err(Fault::BankOutOfRange(address))
                }
            } else {
                Ok(self.eram[address.0 - 0xA000])
            },
        }
    }

    /// The state after a write in the cartridge's windows, or the fault
    /// raised. Without a controller the image itself is writable.
    #[verifier::opaque]
    pub open spec fn cartridge_written(self, address: Address, value: Byte) -> Result<
        BusView,
        Fault,
    > {
        match self.mbc {
            Some(c) => match c.written(address, value) {
                Ok(next) => Ok(BusView { mbc: Some(next), ..self }),
                Err(fault) => Err(fault),
            },
            None => if address.0 <= 0x7FFF {
                if self.rom_index(address) < self.rom.len() {
                    Ok(BusView { rom: self.rom.update(self.rom_index(address), value), ..self })
                } else {
                    Err(Fault::BankOutOfRange(address))
                }
            } else {
                Ok(BusView { eram: self.eram.update(address.0 - 0xA000, value), ..self })
            },
        }
    }

    /// What a read in the I/O page returns.
    pub open spec fn io_read(self, address: Address) -> Result<Byte, Fault> {
        let a = address.0;
        if a == 0xFF00 {
            Ok(self.joypad.register())
        } else if a == 0xFF01 || a == 0xFF02 {
            Ok(Byte(0))
        } else if 0xFF04 <= a <= 0xFF07 {
            Ok(self.timer.register(address))
        } else if a == 0xFF0F {
            Ok(self.interrupt_flag)
        } else if 0xFF40 <= a <= 0xFF55 || 0xFF57 <= a <= 0xFF6F {
            self.ppu.io_read(address)
        } else if a == 0xFF56 {
            Ok(self.infrared.register())
        } else if a == 0xFF70 {
            Ok(Byte(self.wram_bank as u8))
        } else {
            Err(Fault::Prohibited(address))
        }
    }

    /// The state after a write in the I/O page, or the fault raised.
    #[verifier::opaque]
    pub open spec fn io_written(self, address: Address, value: Byte) -> Result<BusView, Fault> {
        let a = address.0;
        if a == 0xFF00 {
            Ok(BusView { joypad: self.joypad.selected(value), ..self })
        } else if a == 0xFF01 || a == 0xFF02 {
            Ok(self)
        } else if 0xFF04 <= a <= 0xFF07 {
            Ok(BusView { timer: self.timer.with_register(address, value), ..self })
        } else if a == 0xFF0F {
            Ok(BusView { interrupt_flag: value, ..self })
        } else if 0xFF40 <= a <= 0xFF55 || 0xFF57 <= a <= 0xFF6F {
            match self.ppu.io_written(address, value) {
                Ok(next) => Ok(BusView { ppu: next, ..self }),
                Err(fault) => Err(fault),
            }
        } else if a == 0xFF56 {
            Ok(BusView { infrared: self.infrared.written(value), ..self })
        } else if a == 0xFF70 {
            Ok(BusView { wram_bank: wram_selection(value), ..self })
        } else {
            Err(Fault::Prohibited(address))
        }
    }

    /// What a read of `address` returns.
    #[verifier::opaque]
    pub open spec fn read(self, address: Address) -> Result<Byte, Fault> {
        match decode(address) {
            Mapping::RomFixed(_) | Mapping::RomBanked(_) | Mapping::Eram(_) => self.cartridge_read(
                address,
            ),
            Mapping::Vram(_) => self.ppu.vram_read(address),
            Mapping::WramFixed(_) | Mapping::WramBanked(_) => Ok(
                self.wram[self.wram_index(address)],
            ),
            Mapping::Oam(_) => self.ppu.oam_read(address),
            Mapping::Io(_) => self.io_read(address),
            Mapping::Hram(offset) => Ok(self.hram[offset as int]),
            Mapping::InterruptEnable => Ok(self.interrupt),
            Mapping::Prohibited => Err(Fault::Prohibited(address)),
        }
    }

    /// The state after `value` is written to `address`, or the fault that
    /// the write raises; a faulting write changes nothing. A write to
    /// video or object memory while it is closed is dropped without a
    /// fault.
    #[verifier::opaque]
    pub open spec fn written(self, address: Address, value: Byte) -> Result<BusView, Fault> {
        match decode(address) {
            Mapping::RomFixed(_) | Mapping::RomBanked(_) | Mapping::Eram(_) => {
                self.cartridge_written(address, value)
            },
            Mapping::Vram(_) => Ok(BusView { ppu: self.ppu.vram_written(address, value), ..self }),
            Mapping::WramFixed(_) | Mapping::WramBanked(_) => Ok(
                BusView { wram: self.wram.update(self.wram_index(address), value), ..self },
            ),
            Mapping::Oam(_) => Ok(BusView { ppu: self.ppu.oam_written(address, value), ..self }),
            Mapping::Io(_) => self.io_written(address, value),
            Mapping::Hram(offset) => Ok(
                BusView { hram: self.hram.update(offset as int, value), ..self },
            ),
            Mapping::InterruptEnable => Ok(BusView { interrupt: value, ..self }),
            Mapping::Prohibited => Err(Fault::Prohibited(address)),
        }
    }
}

/// The bytes of an image as the bus holds them.
pub open spec fn as_bytes(image: Seq<u8>) -> Seq<Byte> {
    Seq::new(image.len(), |i: int| Byte(image[i]))
}

/// The header region of an image: the fifty bytes from `0x100`.
pub open spec fn header_region(image: Seq<u8>) -> Seq<Byte> {
    as_bytes(image).subrange(0x100, 0x150)
}

/// Why the image cannot be loaded, if it cannot: it ends before the header
/// does, the header does not decode, or it names hardware that the core
/// does not drive.
pub open spec fn load_error(image: Seq<u8>) -> Option<LoadError> {
    if image.len() < 0x150 {
        Some(LoadError::TruncatedHeader)
    } else if header_error(header_region(image)) is Some {
        header_error(header_region(image))
    } else if controller_kind_of(image[0x147]) is None {
        Some(LoadError::UnknownController(image[0x147]))
    } else {
        None
    }
}

impl BusView {
    /// The bus with the cartridge `image` in place: the image as ROM with
    /// bank one selected, and the controller that its header calls for,
    /// fresh, with its clock started at `now`.
    pub open spec fn loaded(self, image: Seq<u8>, now: u64) -> BusView {
        BusView {
            rom: as_bytes(image),
            rom_bank: 1,
            mbc: fresh_controller(controller_kind_of(image[0x147]).unwrap(), image, now),
            ..self
        }
    }

    /// The bus one tick later: the timer has ticked and, if its counter
    /// overflowed, raised its bit in the interrupt flag latch; the pixel
    /// processor has moved on by one dot.
    pub open spec fn ticked(self) -> BusView {
        BusView {
            timer: self.timer.ticked(),
            interrupt_flag: if self.timer.overflows() {
                self.interrupt_flag.with_bit(TIMER_INTERRUPT, true)
            } else {
                self.interrupt_flag
            },
            ppu: self.ppu.stepped(),
            ..self
        }
    }

    /// The bus after the completed frame, if any, was taken from the slot.
    pub open spec fn drained(self) -> BusView {
        BusView { ppu: PpuView { buffer: None, ..self.ppu }, ..self }
    }

    /// The header region of the ROM, if the ROM reaches that far.
    pub open spec fn header(self) -> Option<Seq<Byte>> {
        if self.rom.len() >= 0x150 {
            Some(self.rom.subrange(0x100, 0x150))
        } else {
            None
        }
    }
}

/// The view of an optional controller.
pub open spec fn controller_view(mbc: Option<Controller>) -> Option<ControllerView> {
    match mbc {
        Some(c) => Some(c@),
        None => None,
    }
}

impl View for MemoryMap {
    type V = BusView;

    open spec fn view(&self) -> BusView {
        BusView {
            rom: self.rom@,
            eram: self.eram@,
            wram: self.wram@,
            hram: self.hram@,
            interrupt: self.interrupt,
            interrupt_flag: self.interrupt_flag,
            rom_bank: self.rom_bank,
            wram_bank: self.wram_bank,
            mbc: controller_view(self.mbc),
            ppu: self.ppu@,
            timer: self.timer,
            joypad: self.joypad,
            infrared: self.infrared,
        }
    }
}

/// The state of the bus after reset: two zeroed banks of ROM with bank one
/// selected, zeroed memories, work RAM bank one, no controller, every
/// device at rest.
pub open spec fn bus_reset() -> BusView {
    BusView {
        rom: Seq::new((2 * ROM_BANK_SIZE) as nat, |i: int| Byte(0)),
        eram: Seq::new(ERAM_SIZE as nat, |i: int| Byte(0)),
        wram: Seq::new(WRAM_SIZE as nat, |i: int| Byte(0)),
        hram: Seq::new(HRAM_SIZE as nat, |i: int| Byte(0)),
        interrupt: Byte(0),
        interrupt_flag: Byte(0),
        rom_bank: 1,
        wram_bank: 1,
        mbc: None,
        ppu: ppu_reset(),
        timer: Timer::idle(),
        joypad: Joypad::idle(),
        infrared: Infrared::idle(),
    }
}

impl MemoryMap {
    /// The state invariant, on the view.
    pub open spec fn wf(&self) -> bool {
        self@.wf()
    }

    /// A bus in its reset state.
    pub fn new() -> (out: MemoryMap)
        ensures
            out.wf(),
            out@ == bus_reset(),
    {
        let out = MemoryMap {
            rom: vec![Byte(0); 2 * ROM_BANK_SIZE],
            eram: vec![Byte(0); ERAM_SIZE],
            wram: vec![Byte(0); WRAM_SIZE],
            hram: vec![Byte(0); HRAM_SIZE],
            interrupt: Byte(0),
            interrupt_flag: Byte(0),
            rom_bank: 1,
            wram_bank: 1,
            mbc: None,
            ppu: PixelProcessor::new(),
            timer: Timer::new(),
            joypad: Joypad::new(),
            infrared: Infrared::new(),
        };
        assert(out@.rom =~= bus_reset().rom);
        assert(out@.eram =~= bus_reset().eram);
        assert(out@.wram =~= bus_reset().wram);
        assert(out@.hram =~= bus_reset().hram);
        out
    }

    /// Tests the state invariant.
    pub fn is_valid(&self) -> (out: bool)
        ensures
            out == self.wf(),
    {
        self.eram.len() == ERAM_SIZE && self.wram.len() == WRAM_SIZE && self.hram.len()
            == HRAM_SIZE && 1 <= self.wram_bank && self.wram_bank <= 7 && match &self.mbc {
            Some(c) => c.is_valid(),
            None => true,
        } && self.ppu.is_valid() && self.timer.is_valid()
    }

    /// Decodes `address` into its region and the offset there.
    pub fn map(&self, address: Address) -> (out: Mapping)
        ensures
            out == decode(address),
    {
        let a: u16 = address.0;
        if a <= 0x3FFF {
            Mapping::RomFixed(a)
        } else if a <= 0x7FFF {
            Mapping::RomBanked(a - 0x4000)
        } else if a <= 0x9FFF {
            Mapping::Vram(a - 0x8000)
        } else if a <= 0xBFFF {
            Mapping::Eram(a - 0xA000)
        } else if a <= 0xCFFF {
            Mapping::WramFixed(a - 0xC000)
        } else if a <= 0xDFFF {
            Mapping::WramBanked(a - 0xD000)
        } else if a <= 0xFDFF {
            Mapping::Prohibited
        } else if a <= 0xFE9F {
            Mapping::Oam(a - 0xFE00)
        } else if a <= 0xFEFF {
            Mapping::Prohibited
        } else if a <= 0xFF7F {
            Mapping::Io(a - 0xFF00)
        } else if a <= 0xFFFE {
            Mapping::Hram(a - 0xFF80)
        } else {
            Mapping::InterruptEnable
        }
    }

    /// The place in the image that `offset` of the switchable window maps
    /// to, if it lies inside the image.
    fn banked_rom_index(&self, offset: u16) -> (out: Option<usize>)
        requires
            offset < 0x4000,
        ensures
            match out {
                Some(index) => index == offset + self.rom_bank * ROM_BANK_SIZE && index
                    < self.rom.len(),
                None => offset + self.rom_bank * ROM_BANK_SIZE >= self.rom.len(),
            },
    {
        match self.rom_bank.checked_mul(ROM_BANK_SIZE) {
            Some(base) => match base.checked_add(offset as usize) {
                Some(index) => if index < self.rom.len() {
                    Some(index)
                } else {
                    None
                },
                None => None,
            },
            None => None,
        }
    }

    /// Reads in the cartridge's windows.
    fn read_cartridge(&self, address: Address) -> (out: Result<Byte, Fault>)
        requires
            self.wf(),
            address.0 <= 0x7FFF || 0xA000 <= address.0 <= 0xBFFF,
        ensures
            out == self@.cartridge_read(address),
    {
        match &self.mbc {
            Some(c) => c.read(address),
            None => {
                if address.0 <= 0x3FFF {
                    if (address.0 as usize) < self.rom.len() {
                        Ok(self.rom[address.0 as usize])
                    } else {
                        Err(Fault::BankOutOfRange(address))
                    }
                } else if address.0 <= 0x7FFF {
                    match self.banked_rom_index(address.0 - 0x4000) {
                        Some(index) => Ok(self.rom[index]),
                        None => Err(Fault::BankOutOfRange(address)),
                    }
                } else {
                    Ok(self.eram[address.0 as usize - 0xA000])
                }
            },
        }
    }

    /// Writes in the cartridge's windows.
    fn write_cartridge(&mut self, address: Address, value: Byte) -> (out: Result<(), Fault>)
        requires
            old(self).wf(),
            address.0 <= 0x7FFF || 0xA000 <= address.0 <= 0xBFFF,
        ensures
            final(self).wf(),
            match old(self)@.cartridge_written(address, value) {
                Ok(next) => out == Ok::<(), Fault>(()) && final(self)@ == next,
                Err(fault) => out == Err::<(), Fault>(fault) && final(self)@ == old(self)@,
            },
    {
        reveal(BusView::cartridge_written);
        match &mut self.mbc {
            Some(c) => c.write(address, value),
            None => {
                if address.0 <= 0x3FFF {
                    if (address.0 as usize) < self.rom.len() {
                        self.rom.set(address.0 as usize, value);
                        Ok(())
                    } else {
                        Err(Fault::BankOutOfRange(address))
                    }
                } else if address.0 <= 0x7FFF {
                    match self.banked_rom_index(address.0 - 0x4000) {
                        Some(index) => {
                            self.rom.set(index, value);
                            Ok(())
                        },
                        None => Err(Fault::BankOutOfRange(address)),
                    }
                } else {
                    self.eram.set(address.0 as usize - 0xA000, value);
                    Ok(())
                }
            },
        }
    }

    /// Reads in the I/O page.
    fn read_io(&self, address: Address) -> (out: Result<Byte, Fault>)
        requires
            self.wf(),
        ensures
            out == self@.io_read(address),
    {
        let a: u16 = address.0;
        if a == 0xFF00 {
            Ok(self.joypad.read())
        } else if a == 0xFF01 || a == 0xFF02 {
            Ok(Byte(0))
        } else if 0xFF04 <= a && a <= 0xFF07 {
            Ok(self.timer.read(address))
        } else if a == 0xFF0F {
            Ok(self.interrupt_flag)
        } else if (0xFF40 <= a && a <= 0xFF55) || (0xFF57 <= a && a <= 0xFF6F) {
            self.ppu.read_io(address)
        } else if a == 0xFF56 {
            Ok(self.infrared.read())
        } else if a == 0xFF70 {
            Ok(Byte(self.wram_bank as u8))
        } else {
            Err(Fault::Prohibited(address))
        }
    }

    /// Writes a register of the pixel processor.
    fn write_io_ppu(&mut self, address: Address, value: Byte) -> (out: Result<(), Fault>)
        requires
            old(self).wf(),
            (0xFF40 <= address.0 <= 0xFF55) || (0xFF57 <= address.0 <= 0xFF6F),
        ensures
            final(self).wf(),
            match old(self)@.io_written(address, value) {
                Ok(next) => out == Ok::<(), Fault>(()) && final(self)@ == next,
                Err(fault) => out == Err::<(), Fault>(fault) && final(self)@ == old(self)@,
            },
    {
        reveal(BusView::io_written);
        self.ppu.write_io(address, value)
    }

    /// Writes a register of the timer.
    fn write_io_timer(&mut self, address: Address, value: Byte) -> (out: Result<(), Fault>)
        requires
            old(self).wf(),
            0xFF04 <= address.0 <= 0xFF07,
        ensures
            final(self).wf(),
            match old(self)@.io_written(address, value) {
                Ok(next) => out == Ok::<(), Fault>(()) && final(self)@ == next,
                Err(fault) => out == Err::<(), Fault>(fault) && final(self)@ == old(self)@,
            },
    {
        reveal(BusView::io_written);
        self.timer.write(address, value);
        Ok(())
    }

    /// Writes one of the registers that the bus keeps itself, or one of
    /// the joypad or the infrared port.
    fn write_io_plain(&mut self, address: Address, value: Byte) -> (out: Result<(), Fault>)
        requires
            old(self).wf(),
            !(0xFF04 <= address.0 <= 0xFF07),
            !((0xFF40 <= address.0 <= 0xFF55) || (0xFF57 <= address.0 <= 0xFF6F)),
        ensures
            final(self).wf(),
            match old(self)@.io_written(address, value) {
                Ok(next) => out == Ok::<(), Fault>(()) && final(self)@ == next,
                Err(fault) => out == Err::<(), Fault>(fault) && final(self)@ == old(self)@,
            },
    {
        reveal(BusView::io_written);
        let a: u16 = address.0;
        if a == 0xFF00 {
            self.joypad.write(value);
            Ok(())
        } else if a == 0xFF01 || a == 0xFF02 {
            Ok(())
        } else if a == 0xFF0F {
            self.interrupt_flag = value;
            Ok(())
        } else if a == 0xFF56 {
            self.infrared.write(value);
            Ok(())
        } else if a == 0xFF70 {
            self.wram_bank = if value.0 % 8 == 0 {
                1
            } else {
                (value.0 % 8) as usize
            };
            Ok(())
        } else {
            Err(Fault::Prohibited(address))
        }
    }

    /// Writes in the I/O page.
    fn write_io(&mut self, address: Address, value: Byte) -> (out: Result<(), Fault>)
        requires
            old(self).wf(),
        ensures
            final(self).wf(),
            match old(self)@.io_written(address, value) {
                Ok(next) => out == Ok::<(), Fault>(()) && final(self)@ == next,
                Err(fault) => out == Err::<(), Fault>(fault) && final(self)@ == old(self)@,
            },
    {
        let a: u16 = address.0;
        if 0xFF04 <= a && a <= 0xFF07 {
            self.write_io_timer(address, value)
        } else if (0xFF40 <= a && a <= 0xFF55) || (0xFF57 <= a && a <= 0xFF6F) {
            self.write_io_ppu(address, value)
        } else {
            self.write_io_plain(address, value)
        }
    }

    /// Reads the byte at `address`, or reports the fault that the access
    /// raises.
    pub fn read(&self, address: Address) -> (out: Result<Byte, Fault>)
        requires
            self.wf(),
        ensures
            out == self@.read(address),
    {
        reveal(BusView::read);
        match self.map(address) {
            Mapping::RomFixed(_) | Mapping::RomBanked(_) | Mapping::Eram(_) => {
                self.read_cartridge(address)
            },
            Mapping::Vram(_) => self.ppu.read_vram(address),
            Mapping::WramFixed(offset) => Ok(self.wram[offset as usize]),
            Mapping::WramBanked(offset) => Ok(
                self.wram[offset as usize + self.wram_bank * WRAM_BANK_SIZE],
            ),
            Mapping::Oam(_) => self.ppu.read_oam(address),
            Mapping::Io(_) => self.read_io(address),
            Mapping::Hram(offset) => Ok(self.hram[offset as usize]),
            Mapping::InterruptEnable => Ok(self.interrupt),
            Mapping::Prohibited => Err(Fault::Prohibited(address)),
        }
    }

    /// Writes to video or object memory.
    fn write_video(&mut self, address: Address, value: Byte) -> (out: Result<(), Fault>)
        requires
            old(self).wf(),
            0x8000 <= address.0 <= 0x9FFF || 0xFE00 <= address.0 <= 0xFE9F,
        ensures
            final(self).wf(),
            match old(self)@.written(address, value) {
                Ok(next) => out == Ok::<(), Fault>(()) && final(self)@ == next,
                Err(fault) => out == Err::<(), Fault>(fault) && final(self)@ == old(self)@,
            },
    {
        reveal(BusView::written);
        if address.0 <= 0x9FFF {
            self.ppu.write_vram(address, value);
        } else {
            self.ppu.write_oam(address, value);
        }
        Ok(())
    }

    /// Writes to bank zero of work RAM.
    fn write_wram_fixed(&mut self, address: Address, value: Byte) -> (out: Result<(), Fault>)
        requires
            old(self).wf(),
            0xC000 <= address.0 <= 0xCFFF,
        ensures
            final(self).wf(),
            match old(self)@.written(address, value) {
                Ok(next) => out == Ok::<(), Fault>(()) && final(self)@ == next,
                Err(fault) => out == Err::<(), Fault>(fault) && final(self)@ == old(self)@,
            },
    {
        reveal(BusView::written);
        self.wram.set(address.0 as usize - 0xC000, value);
        Ok(())
    }

    /// Writes to the selected bank of work RAM.
    fn write_wram_banked(&mut self, address: Address, value: Byte) -> (out: Result<(), Fault>)
        requires
            old(self).wf(),
            0xD000 <= address.0 <= 0xDFFF,
        ensures
            final(self).wf(),
            match old(self)@.written(address, value) {
                Ok(next) => out == Ok::<(), Fault>(()) && final(self)@ == next,
                Err(fault) => out == Err::<(), Fault>(fault) && final(self)@ == old(self)@,
            },
    {
        reveal(BusView::written);
        self.wram.set((address.0 as usize - 0xD000) + self.wram_bank * WRAM_BANK_SIZE, value);
        Ok(())
    }

    /// Writes to high RAM.
    fn write_hram(&mut self, address: Address, value: Byte) -> (out: Result<(), Fault>)
        requires
            old(self).wf(),
            0xFF80 <= address.0 <= 0xFFFE,
        ensures
            final(self).wf(),
            match old(self)@.written(address, value) {
                Ok(next) => out == Ok::<(), Fault>(()) && final(self)@ == next,
                Err(fault) => out == Err::<(), Fault>(fault) && final(self)@ == old(self)@,
            },
    {
        reveal(BusView::written);
        self.hram.set(address.0 as usize - 0xFF80, value);
        Ok(())
    }

    /// Writes the interrupt enable latch.
    fn write_interrupt_enable(&mut self, address: Address, value: Byte) -> (out: Result<
        (),
        Fault,
    >)
        requires
            old(self).wf(),
            address.0 == 0xFFFF,
        ensures
            final(self).wf(),
            match old(self)@.written(address, value) {
                Ok(next) => out == Ok::<(), Fault>(()) && final(self)@ == next,
                Err(fault) => out == Err::<(), Fault>(fault) && final(self)@ == old(self)@,
            },
    {
        reveal(BusView::written);
        self.interrupt = value;
        Ok(())
    }

    /// Writes in one of the cartridge's windows or in the I/O page.
    fn write_routed(&mut self, address: Address, value: Byte) -> (out: Result<(), Fault>)
        requires
            old(self).wf(),
            address.0 <= 0x7FFF || 0xA000 <= address.0 <= 0xBFFF || 0xFF00 <= address.0 <= 0xFF7F,
        ensures
            final(self).wf(),
            match old(self)@.written(address, value) {
                Ok(next) => out == Ok::<(), Fault>(()) && final(self)@ == next,
                Err(fault) => out == Err::<(), Fault>(fault) && final(self)@ == old(self)@,
            },
    {
        reveal(BusView::written);
        if address.0 <= 0xBFFF {
            self.write_cartridge(address, value)
        } else {
            self.write_io(address, value)
        }
    }

    /// Writes `value` to `address`, or reports the fault that the access
    /// raises. A faulting write changes nothing; a write to video or
    /// object memory while it is closed is dropped without a fault.
    pub fn write(&mut self, address: Address, value: Byte) -> (out: Result<(), Fault>)
        requires
            old(self).wf(),
        ensures
            final(self).wf(),
            match old(self)@.written(address, value) {
                Ok(next) => out == Ok::<(), Fault>(()) && final(self)@ == next,
                Err(fault) => out == Err::<(), Fault>(fault) && final(self)@ == old(self)@,
            },
    {
        match self.map(address) {
            Mapping::Prohibited => {
                reveal(BusView::written);
                Err(Fault::Prohibited(address))
            },
            Mapping::RomFixed(_) | Mapping::RomBanked(_) | Mapping::Eram(_) | Mapping::Io(_) => {
                self.write_routed(address, value)
            },
            Mapping::Vram(_) | Mapping::Oam(_) => self.write_video(address, value),
            Mapping::WramFixed(_) => self.write_wram_fixed(address, value),
            Mapping::WramBanked(_) => self.write_wram_banked(address, value),
            Mapping::Hram(_) => self.write_hram(address, value),
            Mapping::InterruptEnable => self.write_interrupt_enable(address, value),
        }
    }

    /// Copies the header region out of the ROM, if the ROM reaches that
    /// far.
    pub fn get_header(&self) -> (out: Option<Vec<Byte>>)
        ensures
            match out {
                Some(header) => Some(header@) == self@.header(),
                None => self@.header() is None,
            },
    {
        if self.rom.len() < 0x150 {
            return None;
        }
        let mut header: Vec<Byte> = Vec::new();
        let mut i: usize = 0x100;
        while i < 0x150
            invariant
                0x100 <= i <= 0x150,
                self.rom.len() >= 0x150,
                header@ == self.rom@.subrange(0x100, i as int),
            decreases 0x150 - i,
        {
            header.push(self.rom[i]);
            assert(header@ =~= self.rom@.subrange(0x100, i + 1));
            i = i + 1;
        }
        Some(header)
    }

    /// Puts a cartridge in place. The image becomes the ROM, its header
    /// decides the controller, and the decoded header is handed back. An
    /// image that cannot be loaded leaves the bus as it was. `now` is the
    /// current time in whole seconds, for a cartridge with a clock.
    pub fn load_cartrige(&mut self, image: Vec<u8>, now: u64) -> (out: Result<
        CartrigeHeader,
        LoadError,
    >)
        requires
            old(self).wf(),
        ensures
            final(self).wf(),
            match out {
                Ok(header) => {
                    &&& load_error(image@) is None
                    &&& final(self)@ == old(self)@.loaded(image@, now)
                    &&& header_fields_match(header, header_region(image@))
                    &&& header.title@ == lossy_text(title_bytes(header_region(image@)))
                },
                Err(error) => load_error(image@) == Some(error) && final(self)@ == old(self)@,
            },
    {
        if image.len() < 0x150 {
            return Err(LoadError::TruncatedHeader);
        }
        let mut rom: Vec<Byte> = Vec::new();
        let mut i: usize = 0;
        while i < image.len()
            invariant
                i <= image.len(),
                rom@.len() == i,
                forall|k: int| 0 <= k < i ==> #[trigger] rom@[k] == Byte(image@[k]),
            decreases image.len() - i,
        {
            rom.push(Byte(image[i]));
            i = i + 1;
        }
        assert(rom@ =~= as_bytes(image@));
        let region = vstd::slice::slice_subrange(rom.as_slice(), 0x100, 0x150);
        let header = CartrigeHeader::from_bytes(region)?;
        let kind = match get_controller_kind(image[0x147]) {
            Some(kind) => kind,
            None => {
                return Err(LoadError::UnknownController(image[0x147]));
            },
        };
        self.mbc = build_controller(kind, image, now);
        self.rom = rom;
        self.rom_bank = 1;
        Ok(header)
    }

    /// Advances the devices on the bus by one tick: the timer, which may
    /// raise its interrupt, and the pixel processor.
    pub fn tick(&mut self)
        requires
            old(self).wf(),
        ensures
            final(self).wf(),
            final(self)@ == old(self)@.ticked(),
    {
        if self.timer.tick() {
            self.interrupt_flag.set_bit(TIMER_INTERRUPT);
        }
        self.ppu.step();
    }

    /// Takes the completed frame, if there is one, out of the slot.
    pub fn take_frame(&mut self) -> (out: Option<Vec<u32>>)
        requires
            old(self).wf(),
        ensures
            final(self).wf(),
            final(self)@ == old(self)@.drained(),
            match out {
                Some(frame) => old(self)@.ppu.buffer == Some(frame@) && frame@.len() == 23040,
                None => old(self)@.ppu.buffer is None,
            },
    {
        self.ppu.buffer.take()
    }

    /// Selects the bank of the image shown in the switchable ROM window
    /// when there is no controller.
    pub fn set_cartrige_bank(&mut self, value: usize)
        ensures
            final(self)@ == (BusView { rom_bank: value, ..old(self)@ }),
    {
        self.rom_bank = value;
    }

    /// Reports the current time, in whole seconds, to the cartridge.
    pub fn set_time(&mut self, now: u64)
        requires
            old(self).wf(),
        ensures
            final(self).wf(),
            final(self)@ == (BusView {
                mbc: match old(self)@.mbc {
                    Some(c) => Some(c.at_time(now)),
                    None => None,
                },
                ..old(self)@
            }),
    {
        match &mut self.mbc {
            Some(c) => c.set_time(now),
            None => {},
        }
    }
}

impl Default for MemoryMap {
    fn default() -> (out: MemoryMap)
        ensures
            out.wf(),
            out@ == bus_reset(),
    {
        MemoryMap::new()
    }
}

/// Whether the address lies in work RAM or high RAM: the memory that is
/// always there and always open.
pub open spec fn is_ram(address: Address) -> bool {
    0xC000 <= address.0 <= 0xDFFF || 0xFF80 <= address.0 <= 0xFFFE
}

impl BusView {
    /// Whether a write to `address` is kept for a later read: the address
    /// lies in memory, and the memory is open. This is so for work RAM,
    /// high RAM and the two interrupt latches; for video memory and object
    /// memory while the pixel processor lets them be touched; and, on a
    /// cartridge without a controller, for the external RAM and for as
    /// much of the ROM windows as the image fills.
    pub open spec fn keeps_writes(self, address: Address) -> bool {
        let a = address.0;
        if a <= 0x7FFF {
            self.mbc is None && self.rom_index(address) < self.rom.len()
        } else if a <= 0x9FFF {
            self.ppu.regs.vram_open()
        } else if a <= 0xBFFF {
            self.mbc is None
        } else if a <= 0xDFFF {
            true
        } else if 0xFE00 <= a <= 0xFE9F {
            self.ppu.regs.oam_open()
        } else {
            a == 0xFF0F || a >= 0xFF80
        }
    }
}

/// A byte written where writes are kept is the byte read back, and the
/// write leaves the bus in order.
pub proof fn lemma_write_read(bus: BusView, address: Address, value: Byte)
    requires
        bus.wf(),
        bus.keeps_writes(address),
    ensures
        bus.written(address, value) matches Ok(next) && next.wf() && next.read(address) == Ok::<
            Byte,
            Fault,
        >(value),
{
    reveal(BusView::written);
    reveal(BusView::read);
    reveal(BusView::cartridge_written);
    reveal(BusView::io_written);
}

/// A write to work RAM or high RAM changes what is read at that address
/// and at no other address of those memories, and moves no bank.
pub proof fn lemma_ram_write(bus: BusView, address: Address, value: Byte, other: Address)
    requires
        bus.wf(),
        is_ram(address),
    ensures
        bus.written(address, value) matches Ok(next) && next.wf() && next.read(address) == Ok::<
            Byte,
            Fault,
        >(value) && (is_ram(other) && other != address ==> next.read(other) == bus.read(other)),
        bus.read(address) is Ok,
{
    reveal(BusView::written);
    reveal(BusView::read);
}

} // verus!
