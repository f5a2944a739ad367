use vstd::prelude::*;
use crate::fault::Fault;
use crate::mbc::enables_ram;
use crate::mbc::image_byte;
use crate::mbc::read_image;
use crate::types::address::Address;
use crate::types::byte::Byte;

verus! {

/// The fifth controller: a nine-bit ROM bank register written in two
/// parts, a four-bit RAM bank register, and a RAM gate. It has no banking
/// mode.
#[derive(Debug)]
pub struct MBC5 {
    pub rom_data: Vec<u8>,
    pub ram_data: Vec<u8>,
    pub rom_bank: u16,
    pub ram_bank: u8,
    pub ram_enabled: bool,
}

/// The mathematical state of the fifth controller.
pub struct Mbc5View {
    pub rom: Seq<u8>,
    pub ram: Seq<u8>,
    pub rom_bank: u16,
    pub ram_bank: u8,
    pub ram_enabled: bool,
}

impl Mbc5View {
    /// The state of a controller fresh over the image `rom`: ROM bank one
    /// and RAM bank zero selected, RAM zeroed and switched off.
    pub open spec fn fresh(rom: Seq<u8>) -> Mbc5View {
        Mbc5View {
            rom,
            ram: Seq::new(0x20000, |i: int| 0u8),
            rom_bank: 1,
            ram_bank: 0,
            ram_enabled: false,
        }
    }

    /// RAM is sixteen banks; the bank registers hold nine and four bits.
    pub open spec fn wf(self) -> bool {
        &&& self.ram.len() == 0x20000
        &&& self.rom_bank <= 511
        &&& self.ram_bank <= 15
    }

    /// The place in the image that a ROM address maps to.
    pub open spec fn rom_index(self, addr: Address) -> int {
        if addr.0 < 0x4000 {
            addr.0 as int
        } else {
            (addr.0 - 0x4000) + self.rom_bank * 0x4000
        }
    }

    /// The place in cartridge RAM that a RAM address maps to.
    pub open spec fn ram_index(self, addr: Address) -> int {
        (addr.0 - 0xA000) + self.ram_bank * 0x2000
    }

    /// What a read of `addr` returns.
    pub open spec fn read(self, addr: Address) -> Result<Byte, Fault> {
        if addr.0 <= 0x7FFF {
            image_byte(self.rom, self.rom_index(addr), addr)
        } else if 0xA000 <= addr.0 <= 0xBFFF {
            if self.ram_enabled {
                Ok(Byte(self.ram[self.ram_index(addr)]))
            } else {
                Ok(Byte(0xFF))
            }
        } else {
            Err(Fault::Prohibited(addr))
        }
    }

    /// The state after `val` is written to `addr`, or the fault raised.
    pub open spec fn written(self, addr: Address, val: Byte) -> Result<Mbc5View, Fault> {
        if addr.0 <= 0x1FFF {
            Ok(Mbc5View { ram_enabled: enables_ram(val), ..self })
        } else if addr.0 <= 0x2FFF {
            Ok(Mbc5View { rom_bank: ((self.rom_bank / 256) * 256 + val.0) as u16, ..self })
        } else if addr.0 <= 0x3FFF {
            Ok(Mbc5View { rom_bank: (self.rom_bank % 256 + (val.0 % 2) * 256) as u16, ..self })
        } else if addr.0 <= 0x5FFF {
            Ok(Mbc5View { ram_bank: val.0 % 16, ..self })
        } else if addr.0 <= 0x7FFF {
            Ok(self)
        } else if 0xA000 <= addr.0 <= 0xBFFF {
            if self.ram_enabled {
                Ok(Mbc5View { ram: self.ram.update(self.ram_index(addr), val.0), ..self })
            } else {
                Ok(self)
            }
        } else {
            Err(Fault::Prohibited(addr))
        }
    }
}

impl View for MBC5 {
    type V = Mbc5View;

    open spec fn view(&self) -> Mbc5View {
        Mbc5View {
            rom: self.rom_data@,
            ram: self.ram_data@,
            rom_bank: self.rom_bank,
            ram_bank: self.ram_bank,
            ram_enabled: self.ram_enabled,
        }
    }
}

impl MBC5 {
    /// The state invariant, on the view.
    pub open spec fn wf(&self) -> bool {
        self@.wf()
    }

    /// A controller over the given image: ROM bank one and RAM bank zero
    /// selected, RAM zeroed and switched off.
    pub fn from_bytes(bytes: Vec<u8>) -> (out: MBC5)
        ensures
            out.wf(),
            out@ == Mbc5View::fresh(bytes@),
    {
        let ram: Vec<u8> = vec![0u8; 0x20000];
        assert(ram@ =~= Seq::new(0x20000, |i: int| 0u8));
        MBC5 { rom_data: bytes, ram_data: ram, rom_bank: 1, ram_bank: 0, ram_enabled: false }
    }

    /// Tests the state invariant.
    pub fn is_valid(&self) -> (out: bool)
        ensures
            out == self.wf(),
    {
        self.ram_data.len() == 0x20000 && self.rom_bank <= 511 && self.ram_bank <= 15
    }

    /// Reads the byte that the current banking maps to `addr`.
    pub fn read(&self, addr: Address) -> (out: Result<Byte, Fault>)
        requires
            self.wf(),
        ensures
            out == self@.read(addr),
    {
        if addr.0 <= 0x3FFF {
            read_image(&self.rom_data, addr.0 as usize, addr)
        } else if addr.0 <= 0x7FFF {
            let index: usize = (addr.0 as usize - 0x4000) + self.rom_bank as usize * 0x4000;
            read_image(&self.rom_data, index, addr)
        } else if 0xA000 <= addr.0 && addr.0 <= 0xBFFF {
            if self.ram_enabled {
                let index: usize = (addr.0 as usize - 0xA000) + self.ram_bank as usize * 0x2000;
                Ok(Byte(self.ram_data[index]))
            } else {
                Ok(Byte(0xFF))
            }
        } else {
            Err(Fault::Prohibited(addr))
        }
    }

    /// Writes `val` to `addr`.
    pub fn write(&mut self, addr: Address, val: Byte) -> (out: Result<(), Fault>)
        requires
            old(self).wf(),
        ensures
            final(self).wf(),
            match old(self)@.written(addr, val) {
                Ok(next) => out == Ok::<(), Fault>(()) && final(self)@ == next,
                Err(fault) => out == Err::<(), Fault>(fault) && final(self)@ == old(self)@,
            },
    {
        if addr.0 <= 0x1FFF {
            self.ram_enabled = val.0 % 16 == 0x0A;
            Ok(())
        } else if addr.0 <= 0x2FFF {
            self.rom_bank = (self.rom_bank / 256) * 256 + val.0 as u16;
            Ok(())
        } else if addr.0 <= 0x3FFF {
            self.rom_bank = self.rom_bank % 256 + (val.0 % 2) as u16 * 256;
            Ok(())
        } else if addr.0 <= 0x5FFF {
            self.ram_bank = val.0 % 16;
            Ok(())
        } else if addr.0 <= 0x7FFF {
            Ok(())
        } else if 0xA000 <= addr.0 && addr.0 <= 0xBFFF {
            if self.ram_enabled {
                let index: usize = (addr.0 as usize - 0xA000) + self.ram_bank as usize * 0x2000;
                self.ram_data.set(index, val.0);
            }
            Ok(())
        } else {
            Err(Fault::Prohibited(addr))
        }
    }
}

} // verus!
