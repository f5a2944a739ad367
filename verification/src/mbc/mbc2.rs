use vstd::prelude::*;
use crate::fault::Fault;
use crate::mbc::enables_ram;
use crate::mbc::image_byte;
use crate::mbc::read_image;
use crate::types::address::Address;
use crate::types::byte::Byte;

verus! {

/// The number of half-bytes of RAM built into the second controller.
pub const MBC2_RAM_SIZE: usize = 512;

/// The second controller: a four-bit bank register and 512 half-bytes of
/// built-in RAM. Whether a write below `0x4000` gates the RAM or selects a
/// bank is decided by bit 8 of the address.
#[derive(Debug)]
pub struct MBC2 {
    pub data: Vec<u8>,
    pub ram: Vec<u8>,
    pub rom_bank: u8,
    pub ram_enabled: bool,
}

/// The mathematical state of the second controller.
pub struct Mbc2View {
    pub rom: Seq<u8>,
    pub ram: Seq<u8>,
    pub rom_bank: u8,
    pub ram_enabled: bool,
}

/// Whether bit 8 of the address is set.
pub open spec fn address_bit_eight(addr: Address) -> bool {
    (addr.0 / 256) % 2 == 1
}

impl Mbc2View {
    /// The state of a controller fresh over the image `rom`: bank one
    /// selected, RAM zeroed and switched off.
    pub open spec fn fresh(rom: Seq<u8>) -> Mbc2View {
        Mbc2View { rom, ram: Seq::new(512, |i: int| 0u8), rom_bank: 1, ram_enabled: false }
    }

    /// RAM holds 512 half-bytes; the bank register holds four bits.
    pub open spec fn wf(self) -> bool {
        &&& self.ram.len() == 512
        &&& self.rom_bank <= 15
        &&& forall|i: int| 0 <= i < 512 ==> #[trigger] self.ram[i] <= 15
    }

    /// The place in the image that a ROM address maps to.
    pub open spec fn rom_index(self, addr: Address) -> int {
        if addr.0 < 0x4000 {
            addr.0 as int
        } else {
            (addr.0 - 0x4000) + self.rom_bank * 0x4000
        }
    }

    /// The place in RAM that a RAM address maps to; the 512 cells repeat
    /// through the window.
    pub open spec fn ram_index(addr: Address) -> int {
        (addr.0 - 0xA000) % 512
    }

    /// What a read of `addr` returns; a RAM cell reads with its upper
    /// nibble all ones.
    pub open spec fn read(self, addr: Address) -> Result<Byte, Fault> {
        if addr.0 <= 0x7FFF {
            image_byte(self.rom, self.rom_index(addr), addr)
        } else if 0xA000 <= addr.0 <= 0xBFFF {
            if self.ram_enabled {
                Ok(Byte((0xF0 + self.ram[Self::ram_index(addr)]) as u8))
            } else {
                Ok(Byte(0xFF))
            }
        } else {
            Err(Fault::Prohibited(addr))
        }
    }

    /// The state after `val` is written to `addr`, or the fault raised.
    pub open spec fn written(self, addr: Address, val: Byte) -> Result<Mbc2View, Fault> {
        if addr.0 <= 0x1FFF {
            if address_bit_eight(addr) {
                Ok(self)
            } else {
                Ok(Mbc2View { ram_enabled: enables_ram(val), ..self })
            }
        } else if addr.0 <= 0x3FFF {
            if address_bit_eight(addr) {
                Ok(Mbc2View { rom_bank: val.0 % 16, ..self })
            } else {
                Ok(self)
            }
        } else if addr.0 <= 0x7FFF {
            Ok(self)
        } else if 0xA000 <= addr.0 <= 0xBFFF {
            if self.ram_enabled {
                Ok(Mbc2View { ram: self.ram.update(Self::ram_index(addr), val.0 % 16), ..self })
            } else {
                Ok(self)
            }
        } else {
            Err(Fault::Prohibited(addr))
        }
    }
}

impl View for MBC2 {
    type V = Mbc2View;

    open spec fn view(&self) -> Mbc2View {
        Mbc2View {
            rom: self.data@,
            ram: self.ram@,
            rom_bank: self.rom_bank,
            ram_enabled: self.ram_enabled,
        }
    }
}

impl MBC2 {
    /// The state invariant, on the view.
    pub open spec fn wf(&self) -> bool {
        self@.wf()
    }

    /// A controller over the given image: bank one selected, RAM zeroed and
    /// switched off.
    pub fn from_bytes(bytes: Vec<u8>) -> (out: MBC2)
        ensures
            out.wf(),
            out@ == Mbc2View::fresh(bytes@),
    {
        let ram: Vec<u8> = vec![0u8; 512];
        assert(ram@ =~= Seq::new(512, |i: int| 0u8));
        MBC2 { data: bytes, ram, rom_bank: 1, ram_enabled: false }
    }

    /// Tests the state invariant.
    pub fn is_valid(&self) -> (out: bool)
        ensures
            out == self.wf(),
    {
        if self.ram.len() != 512 || self.rom_bank > 15 {
            return false;
        }
        let mut i: usize = 0;
        while i < 512
            invariant
                i <= 512,
                self.ram.len() == 512,
                forall|k: int| 0 <= k < i ==> #[trigger] self.ram@[k] <= 15,
            decreases 512 - i,
        {
            if self.ram[i] > 15 {
                return false;
            }
            i = i + 1;
        }
        true
    }

    /// Reads the byte that the current banking maps to `addr`.
    pub fn read(&self, addr: Address) -> (out: Result<Byte, Fault>)
        requires
            self.wf(),
        ensures
            out == self@.read(addr),
    {
        if addr.0 <= 0x3FFF {
            read_image(&self.data, addr.0 as usize, addr)
        } else if addr.0 <= 0x7FFF {
            let index: usize = (addr.0 as usize - 0x4000) + self.rom_bank as usize * 0x4000;
            read_image(&self.data, index, addr)
        } else if 0xA000 <= addr.0 && addr.0 <= 0xBFFF {
            if self.ram_enabled {
                let index: usize = (addr.0 as usize - 0xA000) % 512;
                Ok(Byte(0xF0 + self.ram[index]))
            } else {
                Ok(Byte(0xFF))
            }
        } else {
            Err(Fault::Prohibited(addr))
        }
    }

    /// Writes `val` to `addr`.
    pub fn write(&mut self, addr: Address, val: Byte) -> (out: Result<(), Fault>)
        requires
            old(self).wf(),
        ensures
            final(self).wf(),
            match old(self)@.written(addr, val) {
                Ok(next) => out == Ok::<(), Fault>(()) && final(self)@ == next,
                Err(fault) => out == Err::<(), Fault>(fault) && final(self)@ == old(self)@,
            },
    {
        let (high, _) = addr.split();
        let selects_bank = high.0 % 2 == 1;
        if addr.0 <= 0x1FFF {
            if !selects_bank {
                self.ram_enabled = val.0 % 16 == 0x0A;
            }
            Ok(())
        } else if addr.0 <= 0x3FFF {
            if selects_bank {
                self.rom_bank = val.0 % 16;
            }
            Ok(())
        } else if addr.0 <= 0x7FFF {
            Ok(())
        } else if 0xA000 <= addr.0 && addr.0 <= 0xBFFF {
            if self.ram_enabled {
                let index: usize = (addr.0 as usize - 0xA000) % 512;
                self.ram.set(index, val.0 % 16);
            }
            Ok(())
        } else {
            Err(Fault::Prohibited(addr))
        }
    }
}

} // verus!
