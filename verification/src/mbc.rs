//! Cartridge-side bank controllers.
//!
//! Each controller owns the ROM image and the cartridge RAM. A read returns
//! the byte that the current banking state maps to the address; a write
//! below `0x8000` never changes the image but configures the banking.
use vstd::prelude::*;
use crate::fault::Fault;
use crate::types::address::Address;
use crate::types::byte::Byte;
use crate::types::cartrige::ControllerKind;
use crate::mbc::mbc1::Mbc1View;
use crate::mbc::mbc1::MBC1;
use crate::mbc::mbc2::Mbc2View;
use crate::mbc::mbc2::MBC2;
use crate::mbc::mbc3::Mbc3View;
use crate::mbc::mbc3::MBC3;
use crate::mbc::mbc5::Mbc5View;
use crate::mbc::mbc5::MBC5;

pub mod mbc1;
pub mod mbc2;
pub mod mbc3;
pub mod mbc5;




verus! {

/// The size of one switchable ROM bank.
pub const ROM_BANK_SIZE: usize = 0x4000;

/// The size of one switchable cartridge RAM bank.
pub const RAM_BANK_SIZE: usize = 0x2000;

/// Whether the address lies in one of the two ROM windows.
pub open spec fn in_rom_window(addr: Address) -> bool {
    addr.0 <= 0x7FFF
}

/// Whether the address lies in the cartridge RAM window.
pub open spec fn in_ram_window(addr: Address) -> bool {
    0xA000 <= addr.0 <= 0xBFFF
}

/// Whether `value` switches cartridge RAM on: its low nibble is `0xA`.
pub open spec fn enables_ram(value: Byte) -> bool {
    value.0 % 16 == 10
}

/// The byte at `index` of `image`, or a fault for `addr` when the image
/// ends before it.
pub open spec fn image_byte(image: Seq<u8>, index: int, addr: Address) -> Result<Byte, Fault> {
    if 0 <= index < image.len() {
        Ok(Byte(image[index]))
    } else {
        Err(Fault::BankOutOfRange(addr))
    }
}

/// Reads the byte at `index` of `image`, faulting for `addr` when the image
/// ends before it.
pub fn read_image(image: &Vec<u8>, index: usize, addr: Address) -> (out: Result<Byte, Fault>)
    ensures
        out == image_byte(image@, index as int, addr),
{
    if index < image.len() {
        Ok(Byte(image[index]))
    } else {
        Err(Fault::BankOutOfRange(addr))
    }
}

/// The controller found on a cartridge.
#[derive(Debug)]
pub enum Controller {
    One(MBC1),
    Two(MBC2),
    Three(MBC3),
    Five(MBC5),
}

/// The mathematical state of a controller.
pub enum ControllerView {
    One(Mbc1View),
    Two(Mbc2View),
    Three(Mbc3View),
    Five(Mbc5View),
}

/// The controller of family `kind`, fresh over the image `rom`, with its
/// clock, if it has one, started at `now`; none for a plain cartridge.
pub open spec fn fresh_controller(kind: ControllerKind, rom: Seq<u8>, now: u64) -> Option<
    ControllerView,
> {
    match kind {
        ControllerKind::Plain => None,
        ControllerKind::First => Some(ControllerView::One(Mbc1View::fresh(rom))),
        ControllerKind::Second => Some(ControllerView::Two(Mbc2View::fresh(rom))),
        ControllerKind::Third => Some(ControllerView::Three(Mbc3View::fresh(rom, now))),
        ControllerKind::Fifth => Some(ControllerView::Five(Mbc5View::fresh(rom))),
    }
}

impl ControllerView {
    /// The invariant of the variant at hand.
    pub open spec fn wf(self) -> bool {
        match self {
            ControllerView::One(m) => m.wf(),
            ControllerView::Two(m) => m.wf(),
            ControllerView::Three(m) => m.wf(),
            ControllerView::Five(m) => m.wf(),
        }
    }

    /// What a read of `addr` returns.
    pub open spec fn read(self, addr: Address) -> Result<Byte, Fault> {
        match self {
            ControllerView::One(m) => m.read(addr),
            ControllerView::Two(m) => m.read(addr),
            ControllerView::Three(m) => m.read(addr),
            ControllerView::Five(m) => m.read(addr),
        }
    }

    /// The state after `val` is written to `addr`, or the fault raised.
    pub open spec fn written(self, addr: Address, val: Byte) -> Result<ControllerView, Fault> {
        match self {
            ControllerView::One(m) => match m.written(addr, val) {
                Ok(next) => Ok(ControllerView::One(next)),
                Err(fault) => Err(fault),
            },
            ControllerView::Two(m) => match m.written(addr, val) {
                Ok(next) => Ok(ControllerView::Two(next)),
                Err(fault) => Err(fault),
            },
            ControllerView::Three(m) => match m.written(addr, val) {
                Ok(next) => Ok(ControllerView::Three(next)),
                Err(fault) => Err(fault),
            },
            ControllerView::Five(m) => match m.written(addr, val) {
                Ok(next) => Ok(ControllerView::Five(next)),
                Err(fault) => Err(fault),
            },
        }
    }

    /// The state after the time `now` is reported; only the third
    /// controller keeps time.
    pub open spec fn at_time(self, now: u64) -> ControllerView {
        match self {
            ControllerView::Three(m) => ControllerView::Three(Mbc3View { rtc_now: now, ..m }),
            other => other,
        }
    }
}

impl View for Controller {
    type V = ControllerView;

    open spec fn view(&self) -> ControllerView {
        match self {
            Controller::One(m) => ControllerView::One(m@),
            Controller::Two(m) => ControllerView::Two(m@),
            Controller::Three(m) => ControllerView::Three(m@),
            Controller::Five(m) => ControllerView::Five(m@),
        }
    }
}

/// Builds the controller of family `kind` over the image `rom`, with its
/// clock, if it has one, started at `now`.
pub fn build_controller(kind: ControllerKind, rom: Vec<u8>, now: u64) -> (out: Option<Controller>)
    ensures
        out matches Some(c) ==> c.wf(),
        match out {
            Some(c) => Some(c@) == fresh_controller(kind, rom@, now),
            None => fresh_controller(kind, rom@, now) is None,
        },
{
    match kind {
        ControllerKind::Plain => None,
        ControllerKind::First => Some(Controller::One(MBC1::from_bytes(rom))),
        ControllerKind::Second => Some(Controller::Two(MBC2::from_bytes(rom))),
        ControllerKind::Third => Some(Controller::Three(MBC3::from_bytes(rom, now))),
        ControllerKind::Fifth => Some(Controller::Five(MBC5::from_bytes(rom))),
    }
}

impl Controller {
    /// The state invariant, on the view.
    pub open spec fn wf(&self) -> bool {
        self@.wf()
    }

    /// Tests the state invariant.
    pub fn is_valid(&self) -> (out: bool)
        ensures
            out == self.wf(),
    {
        match self {
            Controller::One(m) => m.is_valid(),
            Controller::Two(m) => m.is_valid(),
            Controller::Three(m) => m.is_valid(),
            Controller::Five(m) => m.is_valid(),
        }
    }

    /// Reads the byte that the current banking maps to `addr`.
    pub fn read(&self, addr: Address) -> (out: Result<Byte, Fault>)
        requires
            self.wf(),
        ensures
            out == self@.read(addr),
    {
        match self {
            Controller::One(m) => m.read(addr),
            Controller::Two(m) => m.read(addr),
            Controller::Three(m) => m.read(addr),
            Controller::Five(m) => m.read(addr),
        }
    }

    /// Writes `val` to `addr`.
    pub fn write(&mut self, addr: Address, val: Byte) -> (out: Result<(), Fault>)
        requires
            old(self).wf(),
        ensures
            final(self).wf(),
            match old(self)@.written(addr, val) {
                Ok(next) => out == Ok::<(), Fault>(()) && final(self)@ == next,
                Err(fault) => out == Err::<(), Fault>(fault) && final(self)@ == old(self)@,
            },
    {
        match self {
            Controller::One(m) => m.write(addr, val),
            Controller::Two(m) => m.write(addr, val),
            Controller::Three(m) => m.write(addr, val),
            Controller::Five(m) => m.write(addr, val),
        }
    }

    /// Reports the current time to a controller that keeps time.
    pub fn set_time(&mut self, now: u64)
        requires
            old(self).wf(),
        ensures
            final(self).wf(),
            final(self)@ == old(self)@.at_time(now),
    {
        match self {
            Controller::Three(m) => m.set_time(now),
            _ => {},
        }
    }
}

} // verus!
