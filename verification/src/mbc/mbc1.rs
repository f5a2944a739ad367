use vstd::prelude::*;
use crate::fault::Fault;
use crate::mbc::enables_ram;
use crate::mbc::image_byte;
use crate::mbc::read_image;
use crate::types::address::Address;
use crate::types::byte::Byte;

verus! {

/// What the two-bit upper register of the first controller stands for.
#[derive(Clone, Copy, Debug, PartialEq, Eq, Structural)]
pub enum BankingMode {
    /// RAM-primary: the upper register picks the RAM bank and also moves the
    /// fixed ROM window.
    RAMBank,
    /// ROM-primary: the fixed window shows bank zero and RAM bank zero is
    /// used.
    ROMBank,
}

/// The highest ROM bank that the first controller may select.
pub const MBC1_BANK_MAX: u8 = 125;

/// The first controller: a five-bit low and a two-bit upper bank register,
/// a RAM gate and a mode latch.
#[derive(Debug)]
pub struct MBC1 {
    pub rom_data: Vec<u8>,
    pub ram_data: Vec<u8>,
    pub lower_rom_register: u8,
    pub upper_rom_register: u8,
    pub ram_enabled: bool,
    pub mode: BankingMode,
}

/// The mathematical state of the first controller.
pub struct Mbc1View {
    pub rom: Seq<u8>,
    pub ram: Seq<u8>,
    pub lower: u8,
    pub upper: u8,
    pub ram_enabled: bool,
    pub mode: BankingMode,
}

impl Mbc1View {
    /// The state of a controller fresh over the image `rom`: bank one
    /// selected, RAM zeroed and switched off, ROM-primary mode.
    pub open spec fn fresh(rom: Seq<u8>) -> Mbc1View {
        Mbc1View {
            rom,
            ram: Seq::new(0x8000, |i: int| 0u8),
            lower: 1,
            upper: 0,
            ram_enabled: false,
            mode: BankingMode::ROMBank,
        }
    }

    /// RAM is four banks; the low register is never zero; the selected bank
    /// is within the controller's range.
    pub open spec fn wf(self) -> bool {
        &&& self.ram.len() == 0x8000
        &&& 1 <= self.lower <= 31
        &&& self.upper <= 3
        &&& self.rom_bank() <= MBC1_BANK_MAX
    }

    /// The ROM bank shown in the switchable window.
    pub open spec fn rom_bank(self) -> int {
        self.lower + 32 * self.upper
    }

    /// The place in the image that a ROM address maps to.
    pub open spec fn rom_index(self, addr: Address) -> int {
        if addr.0 < 0x4000 {
            match self.mode {
                BankingMode::ROMBank => addr.0 as int,
                BankingMode::RAMBank => addr.0 + self.upper * 0x80000,
            }
        } else {
            (addr.0 - 0x4000) + self.rom_bank() * 0x4000
        }
    }

    /// The place in cartridge RAM that a RAM address maps to.
    pub open spec fn ram_index(self, addr: Address) -> int {
        match self.mode {
            BankingMode::ROMBank => addr.0 - 0xA000,
            BankingMode::RAMBank => (addr.0 - 0xA000) + self.upper * 0x2000,
        }
    }

    /// What a read of `addr` returns.
    pub open spec fn read(self, addr: Address) -> Result<Byte, Fault> {
        if addr.0 <= 0x7FFF {
            image_byte(self.rom, self.rom_index(addr), addr)
        } else if 0xA000 <= addr.0 <= 0xBFFF {
            if self.ram_enabled {
                Ok(Byte(self.ram[self.ram_index(addr)]))
            } else {
                Ok(Byte(0xFF))
            }
        } else {
            Err(Fault::Prohibited(addr))
        }
    }

    /// The low register that a write of `val` selects: its low five bits,
    /// with zero standing for one.
    pub open spec fn low_selection(val: Byte) -> u8 {
        if val.0 % 32 == 0 {
            1
        } else {
            val.0 % 32
        }
    }

    /// The state after `val` is written to `addr`, or the fault that the
    /// write raises; a faulting write changes nothing.
    pub open spec fn written(self, addr: Address, val: Byte) -> Result<Mbc1View, Fault> {
        if addr.0 <= 0x1FFF {
            Ok(Mbc1View { ram_enabled: enables_ram(val), ..self })
        } else if addr.0 <= 0x3FFF {
            let lower = Self::low_selection(val);
            if lower + 32 * self.upper > MBC1_BANK_MAX {
                Err(Fault::BankOutOfRange(addr))
            } else {
                Ok(Mbc1View { lower, ..self })
            }
        } else if addr.0 <= 0x5FFF {
            let upper = val.0 % 4;
            if self.lower + 32 * upper > MBC1_BANK_MAX {
                Err(Fault::BankOutOfRange(addr))
            } else {
                Ok(Mbc1View { upper, ..self })
            }
        } else if addr.0 <= 0x7FFF {
            if val.0 == 0 {
                Ok(Mbc1View { mode: BankingMode::ROMBank, ..self })
            } else if val.0 == 1 {
                Ok(Mbc1View { mode: BankingMode::RAMBank, ..self })
            } else {
                Ok(self)
            }
        } else if 0xA000 <= addr.0 <= 0xBFFF {
            if self.ram_enabled {
                Ok(Mbc1View { ram: self.ram.update(self.ram_index(addr), val.0), ..self })
            } else {
                Ok(self)
            }
        } else {
            Err(Fault::Prohibited(addr))
        }
    }
}

impl View for MBC1 {
    type V = Mbc1View;

    open spec fn view(&self) -> Mbc1View {
        Mbc1View {
            rom: self.rom_data@,
            ram: self.ram_data@,
            lower: self.lower_rom_register,
            upper: self.upper_rom_register,
            ram_enabled: self.ram_enabled,
            mode: self.mode,
        }
    }
}

impl MBC1 {
    /// The state invariant, on the view.
    pub open spec fn wf(&self) -> bool {
        self@.wf()
    }

    /// A controller over the given image: bank one selected, RAM zeroed and
    /// switched off, ROM-primary mode.
    pub fn from_bytes(bytes: Vec<u8>) -> (out: MBC1)
        ensures
            out.wf(),
            out@ == Mbc1View::fresh(bytes@),
    {
        let ram: Vec<u8> = vec![0u8; 0x8000];
        assert(ram@ =~= Seq::new(0x8000, |i: int| 0u8));
        MBC1 {
            rom_data: bytes,
            ram_data: ram,
            lower_rom_register: 1,
            upper_rom_register: 0,
            ram_enabled: false,
            mode: BankingMode::ROMBank,
        }
    }

    /// Tests the state invariant.
    pub fn is_valid(&self) -> (out: bool)
        ensures
            out == self.wf(),
    {
        self.ram_data.len() == 0x8000 && 1 <= self.lower_rom_register
            && self.lower_rom_register <= 31 && self.upper_rom_register <= 3
            && self.lower_rom_register as u16 + 32 * self.upper_rom_register as u16
            <= MBC1_BANK_MAX as u16
    }

    /// The ROM bank shown in the switchable window.
    pub fn rom_bank(&self) -> (out: usize)
        requires
            self.wf(),
        ensures
            out == self@.rom_bank(),
    {
        self.lower_rom_register as usize + 32 * (self.upper_rom_register as usize)
    }

    /// Reads the byte that the current banking maps to `addr`.
    pub fn read(&self, addr: Address) -> (out: Result<Byte, Fault>)
        requires
            self.wf(),
        ensures
            out == self@.read(addr),
    {
        if addr.0 <= 0x3FFF {
            let index: usize = match self.mode {
                BankingMode::ROMBank => addr.0 as usize,
                BankingMode::RAMBank => addr.0 as usize + self.upper_rom_register as usize
                    * 0x80000,
            };
            read_image(&self.rom_data, index, addr)
        } else if addr.0 <= 0x7FFF {
            let index: usize = (addr.0 as usize - 0x4000) + self.rom_bank() * 0x4000;
            read_image(&self.rom_data, index, addr)
        } else if 0xA000 <= addr.0 && addr.0 <= 0xBFFF {
            if self.ram_enabled {
                Ok(Byte(self.ram_data[self.ram_index(addr)]))
            } else {
                Ok(Byte(0xFF))
            }
        } else {
            Err(Fault::Prohibited(addr))
        }
    }

    /// The place in cartridge RAM that `addr` maps to.
    fn ram_index(&self, addr: Address) -> (out: usize)
        requires
            self.wf(),
            0xA000 <= addr.0 <= 0xBFFF,
        ensures
            out == self@.ram_index(addr),
            out < 0x8000,
    {
        match self.mode {
            BankingMode::ROMBank => addr.0 as usize - 0xA000,
            BankingMode::RAMBank => (addr.0 as usize - 0xA000) + self.upper_rom_register as usize
                * 0x2000,
        }
    }

    /// Writes `val` to `addr`: a configuration write below `0x8000`, a
    /// store into RAM in the RAM window when RAM is switched on.
    pub fn write(&mut self, addr: Address, val: Byte) -> (out: Result<(), Fault>)
        requires
            old(self).wf(),
        ensures
            final(self).wf(),
            match old(self)@.written(addr, val) {
                Ok(next) => out == Ok::<(), Fault>(()) && final(self)@ == next,
                Err(fault) => out == Err::<(), Fault>(fault) && final(self)@ == old(self)@,
            },
    {
        if addr.0 <= 0x1FFF {
            self.ram_enabled = val.0 % 16 == 0x0A;
            Ok(())
        } else if addr.0 <= 0x3FFF {
            let lower: u8 = if val.0 % 32 == 0 {
                1
            } else {
                val.0 % 32
            };
            if lower as usize + 32 * (self.upper_rom_register as usize) > MBC1_BANK_MAX as usize {
                return Err(Fault::BankOutOfRange(addr));
            }
            self.lower_rom_register = lower;
            Ok(())
        } else if addr.0 <= 0x5FFF {
            let upper: u8 = val.0 % 4;
            if self.lower_rom_register as usize + 32 * (upper as usize) > MBC1_BANK_MAX as usize {
                return Err(Fault::BankOutOfRange(addr));
            }
            self.upper_rom_register = upper;
            Ok(())
        } else if addr.0 <= 0x7FFF {
            if val.0 == 0 {
                self.mode = BankingMode::ROMBank;
            } else if val.0 == 1 {
                self.mode = BankingMode::RAMBank;
            }
            Ok(())
        } else if 0xA000 <= addr.0 && addr.0 <= 0xBFFF {
            if self.ram_enabled {
                let index = self.ram_index(addr);
                self.ram_data.set(index, val.0);
            }
            Ok(())
        } else {
            Err(Fault::Prohibited(addr))
        }
    }
}

} // verus!
