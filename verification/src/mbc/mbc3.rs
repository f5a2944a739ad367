use vstd::prelude::*;
use crate::fault::Fault;
use crate::mbc::image_byte;
use crate::mbc::read_image;
use crate::types::address::Address;
use crate::types::byte::Byte;

verus! {

/// What the RAM window of the third controller currently shows.
#[derive(Clone, Copy, Debug, PartialEq, Eq, Structural)]
pub enum RTCMode {
    Ram,
    Seconds,
    Minutes,
    Hours,
    LowerDay,
    UpperDay,
}

/// Where the clock latch stands. Writing zero and then one captures the
/// running time into the clock registers; writing zero to a latched clock
/// starts the way back, and whatever is written next completes it.
#[derive(Clone, Copy, Debug, PartialEq, Eq, Structural)]
pub enum LatchState {
    Unlatched,
    AttemptingLatch,
    Latched,
    AttemptingUnlatch,
}

/// The five registers of the real-time clock.
#[derive(Clone, Copy, Debug, PartialEq, Eq, Structural)]
pub struct ClockRegisters {
    pub seconds: u8,
    pub minutes: u8,
    pub hours: u8,
    pub lower_day: u8,
    pub upper_day: u8,
}

impl ClockRegisters {
    /// The registers for a clock that has run for `elapsed` seconds.
    pub open spec fn at(elapsed: u64) -> ClockRegisters {
        ClockRegisters {
            seconds: (elapsed % 60) as u8,
            minutes: ((elapsed / 60) % 60) as u8,
            hours: ((elapsed / 3600) % 24) as u8,
            lower_day: ((elapsed / 86400) % 256) as u8,
            upper_day: (((elapsed / 86400) / 256) % 2) as u8,
        }
    }

    /// Computes the registers for a clock that has run for `elapsed`
    /// seconds.
    pub fn from_elapsed(elapsed: u64) -> (out: ClockRegisters)
        ensures
            out == ClockRegisters::at(elapsed),
    {
        let days: u64 = elapsed / 86400;
        ClockRegisters {
            seconds: (elapsed % 60) as u8,
            minutes: ((elapsed / 60) % 60) as u8,
            hours: ((elapsed / 3600) % 24) as u8,
            lower_day: (days % 256) as u8,
            upper_day: ((days / 256) % 2) as u8,
        }
    }
}

/// The third controller: a seven-bit ROM bank register, four RAM banks, and
/// a real-time clock whose registers can take the place of RAM in the RAM
/// window.
///
/// Time is given in whole seconds: `rtc_start_timestamp` is when the clock
/// was started and `rtc_now` the time last reported with `set_time`.
#[derive(Debug)]
pub struct MBC3 {
    pub rom_data: Vec<u8>,
    pub ram_data: Vec<u8>,
    pub rom_bank: u8,
    pub ram_bank: u8,
    pub ram_enabled: bool,
    pub rtc_selected: RTCMode,
    pub clock: ClockRegisters,
    pub latch_state: LatchState,
    pub rtc_start_timestamp: u64,
    pub rtc_now: u64,
}

/// The mathematical state of the third controller.
pub struct Mbc3View {
    pub rom: Seq<u8>,
    pub ram: Seq<u8>,
    pub rom_bank: u8,
    pub ram_bank: u8,
    pub ram_enabled: bool,
    pub rtc_selected: RTCMode,
    pub clock: ClockRegisters,
    pub latch_state: LatchState,
    pub rtc_start_timestamp: u64,
    pub rtc_now: u64,
}

/// Where the latch goes when `val` is written to it.
pub open spec fn latch_step(state: LatchState, val: Byte) -> LatchState {
    match state {
        LatchState::Unlatched => if val.0 == 0 {
            LatchState::AttemptingLatch
        } else {
            LatchState::Unlatched
        },
        LatchState::AttemptingLatch => if val.0 == 1 {
            LatchState::Latched
        } else {
            LatchState::Unlatched
        },
        LatchState::Latched => if val.0 == 0 {
            LatchState::AttemptingUnlatch
        } else {
            LatchState::Latched
        },
        LatchState::AttemptingUnlatch => LatchState::Unlatched,
    }
}

impl Mbc3View {
    /// The state of a controller fresh over the image `rom` whose clock
    /// starts at `now`: ROM bank one and RAM bank zero selected, RAM
    /// zeroed and switched off, the clock registers zero and unlatched.
    pub open spec fn fresh(rom: Seq<u8>, now: u64) -> Mbc3View {
        Mbc3View {
            rom,
            ram: Seq::new(0x8000, |i: int| 0u8),
            rom_bank: 1,
            ram_bank: 0,
            ram_enabled: false,
            rtc_selected: RTCMode::Ram,
            clock: ClockRegisters { seconds: 0, minutes: 0, hours: 0, lower_day: 0, upper_day: 0 },
            latch_state: LatchState::Unlatched,
            rtc_start_timestamp: now,
            rtc_now: now,
        }
    }

    /// RAM is four banks; the bank registers are in range and the ROM bank
    /// is never zero.
    pub open spec fn wf(self) -> bool {
        &&& self.ram.len() == 0x8000
        &&& 1 <= self.rom_bank <= 127
        &&& self.ram_bank <= 3
    }

    /// The seconds that the clock has run; zero if time went backwards.
    pub open spec fn elapsed(self) -> u64 {
        if self.rtc_now >= self.rtc_start_timestamp {
            (self.rtc_now - self.rtc_start_timestamp) as u64
        } else {
            0
        }
    }

    /// The state with the running time captured into the clock registers.
    pub open spec fn latched(self) -> Mbc3View {
        Mbc3View { clock: ClockRegisters::at(self.elapsed()), ..self }
    }

    /// The place in the image that a ROM address maps to.
    pub open spec fn rom_index(self, addr: Address) -> int {
        if addr.0 < 0x4000 {
            addr.0 as int
        } else {
            (addr.0 - 0x4000) + self.rom_bank * 0x4000
        }
    }

    /// The place in cartridge RAM that a RAM address maps to.
    pub open spec fn ram_index(self, addr: Address) -> int {
        (addr.0 - 0xA000) + self.ram_bank * 0x2000
    }

    /// What the RAM window shows at `addr` while it is switched on.
    pub open spec fn window(self, addr: Address) -> Byte {
        match self.rtc_selected {
            RTCMode::Ram => Byte(self.ram[self.ram_index(addr)]),
            RTCMode::Seconds => Byte(self.clock.seconds),
            RTCMode::Minutes => Byte(self.clock.minutes),
            RTCMode::Hours => Byte(self.clock.hours),
            RTCMode::LowerDay => Byte(self.clock.lower_day),
            RTCMode::UpperDay => Byte(self.clock.upper_day),
        }
    }

    /// The state after `val` is stored through the RAM window at `addr`.
    pub open spec fn with_window(self, addr: Address, val: Byte) -> Mbc3View {
        match self.rtc_selected {
            RTCMode::Ram => Mbc3View { ram: self.ram.update(self.ram_index(addr), val.0), ..self },
            RTCMode::Seconds => Mbc3View {
                clock: ClockRegisters { seconds: val.0, ..self.clock },
                ..self
            },
            RTCMode::Minutes => Mbc3View {
                clock: ClockRegisters { minutes: val.0, ..self.clock },
                ..self
            },
            RTCMode::Hours => Mbc3View {
                clock: ClockRegisters { hours: val.0, ..self.clock },
                ..self
            },
            RTCMode::LowerDay => Mbc3View {
                clock: ClockRegisters { lower_day: val.0, ..self.clock },
                ..self
            },
            RTCMode::UpperDay => Mbc3View {
                clock: ClockRegisters { upper_day: val.0, ..self.clock },
                ..self
            },
        }
    }

    /// What a read of `addr` returns.
    pub open spec fn read(self, addr: Address) -> Result<Byte, Fault> {
        if addr.0 <= 0x7FFF {
            image_byte(self.rom, self.rom_index(addr), addr)
        } else if 0xA000 <= addr.0 <= 0xBFFF {
            if self.ram_enabled {
                Ok(self.window(addr))
            } else {
                Ok(Byte(0xFF))
            }
        } else {
            Err(Fault::Prohibited(addr))
        }
    }

    /// The state after a write of `val` to the window selector.
    pub open spec fn with_selection(self, val: Byte) -> Mbc3View {
        if val.0 <= 3 {
            Mbc3View { rtc_selected: RTCMode::Ram, ram_bank: val.0, ..self }
        } else if val.0 == 0x08 {
            Mbc3View { rtc_selected: RTCMode::Seconds, ..self }
        } else if val.0 == 0x09 {
            Mbc3View { rtc_selected: RTCMode::Minutes, ..self }
        } else if val.0 == 0x0A {
            Mbc3View { rtc_selected: RTCMode::Hours, ..self }
        } else if val.0 == 0x0B {
            Mbc3View { rtc_selected: RTCMode::LowerDay, ..self }
        } else if val.0 == 0x0C {
            Mbc3View { rtc_selected: RTCMode::UpperDay, ..self }
        } else {
            self
        }
    }

    /// The state after a write of `val` to the latch: the latch moves, and
    /// on completing zero-then-one the running time is captured.
    pub open spec fn with_latch_write(self, val: Byte) -> Mbc3View {
        let next = Mbc3View { latch_state: latch_step(self.latch_state, val), ..self };
        if self.latch_state == LatchState::AttemptingLatch && val.0 == 1 {
            next.latched()
        } else {
            next
        }
    }

    /// The state after `val` is written to `addr`, or the fault raised.
    pub open spec fn written(self, addr: Address, val: Byte) -> Result<Mbc3View, Fault> {
        if addr.0 <= 0x1FFF {
            Ok(Mbc3View { ram_enabled: val.0 == 0x0A, ..self })
        } else if addr.0 <= 0x3FFF {
            if val.0 % 128 == 0 {
                Ok(Mbc3View { rom_bank: 1, ..self })
            } else {
                Ok(Mbc3View { rom_bank: val.0 % 128, ..self })
            }
        } else if addr.0 <= 0x5FFF {
            Ok(self.with_selection(val))
        } else if addr.0 <= 0x7FFF {
            Ok(self.with_latch_write(val))
        } else if 0xA000 <= addr.0 <= 0xBFFF {
            if !self.ram_enabled {
                Ok(self)
            } else if self.latch_state != LatchState::Latched {
                Ok(self.latched().with_window(addr, val))
            } else {
                Ok(self.with_window(addr, val))
            }
        } else {
            Err(Fault::Prohibited(addr))
        }
    }
}

impl View for MBC3 {
    type V = Mbc3View;

    open spec fn view(&self) -> Mbc3View {
        Mbc3View {
            rom: self.rom_data@,
            ram: self.ram_data@,
            rom_bank: self.rom_bank,
            ram_bank: self.ram_bank,
            ram_enabled: self.ram_enabled,
            rtc_selected: self.rtc_selected,
            clock: self.clock,
            latch_state: self.latch_state,
            rtc_start_timestamp: self.rtc_start_timestamp,
            rtc_now: self.rtc_now,
        }
    }
}

impl MBC3 {
    /// The state invariant, on the view.
    pub open spec fn wf(&self) -> bool {
        self@.wf()
    }

    /// A controller over the given image whose clock starts at `now`:
    /// ROM bank one and RAM bank zero selected, RAM zeroed and switched
    /// off, the clock registers zero and unlatched.
    pub fn from_bytes(bytes: Vec<u8>, now: u64) -> (out: MBC3)
        ensures
            out.wf(),
            out@ == Mbc3View::fresh(bytes@, now),
    {
        let ram: Vec<u8> = vec![0u8; 0x8000];
        assert(ram@ =~= Seq::new(0x8000, |i: int| 0u8));
        MBC3 {
            rom_data: bytes,
            ram_data: ram,
            rom_bank: 1,
            ram_bank: 0,
            ram_enabled: false,
            rtc_selected: RTCMode::Ram,
            clock: ClockRegisters { seconds: 0, minutes: 0, hours: 0, lower_day: 0, upper_day: 0 },
            latch_state: LatchState::Unlatched,
            rtc_start_timestamp: now,
            rtc_now: now,
        }
    }

    /// Tests the state invariant.
    pub fn is_valid(&self) -> (out: bool)
        ensures
            out == self.wf(),
    {
        self.ram_data.len() == 0x8000 && 1 <= self.rom_bank && self.rom_bank <= 127
            && self.ram_bank <= 3
    }

    /// Reports the current time, in seconds on the scale of the start
    /// timestamp.
    pub fn set_time(&mut self, now: u64)
        ensures
            final(self)@ == (Mbc3View { rtc_now: now, ..old(self)@ }),
    {
        self.rtc_now = now;
    }

    /// Reads cartridge RAM at `addr` in the selected bank.
    pub fn read_ram(&self, addr: Address) -> (out: Byte)
        requires
            self.wf(),
            0xA000 <= addr.0 <= 0xBFFF,
        ensures
            out.0 == self@.ram[self@.ram_index(addr)],
    {
        let offset: usize = (addr.0 as usize - 0xA000) + 0x2000 * self.ram_bank as usize;
        Byte(self.ram_data[offset])
    }

    /// Stores `val` into cartridge RAM at `addr` in the selected bank.
    pub fn write_ram(&mut self, addr: Address, val: Byte)
        requires
            old(self).wf(),
            0xA000 <= addr.0 <= 0xBFFF,
        ensures
            final(self)@ == (Mbc3View {
                ram: old(self)@.ram.update(old(self)@.ram_index(addr), val.0),
                ..old(self)@
            }),
    {
        let offset: usize = (addr.0 as usize - 0xA000) + 0x2000 * self.ram_bank as usize;
        self.ram_data.set(offset, val.0);
    }

    /// Captures the running time into the clock registers.
    pub fn latch_time(&mut self)
        ensures
            final(self)@ == old(self)@.latched(),
    {
        let elapsed: u64 = if self.rtc_now >= self.rtc_start_timestamp {
            self.rtc_now - self.rtc_start_timestamp
        } else {
            0
        };
        self.clock = ClockRegisters::from_elapsed(elapsed);
    }

    /// Reads the byte that the current banking maps to `addr`.
    pub fn read(&self, addr: Address) -> (out: Result<Byte, Fault>)
        requires
            self.wf(),
        ensures
            out == self@.read(addr),
    {
        if addr.0 <= 0x3FFF {
            read_image(&self.rom_data, addr.0 as usize, addr)
        } else if addr.0 <= 0x7FFF {
            let index: usize = (addr.0 as usize - 0x4000) + self.rom_bank as usize * 0x4000;
            read_image(&self.rom_data, index, addr)
        } else if 0xA000 <= addr.0 && addr.0 <= 0xBFFF {
            if self.ram_enabled {
                Ok(
                    match self.rtc_selected {
                        RTCMode::Ram => self.read_ram(addr),
                        RTCMode::Seconds => Byte(self.clock.seconds),
                        RTCMode::Minutes => Byte(self.clock.minutes),
                        RTCMode::Hours => Byte(self.clock.hours),
                        RTCMode::LowerDay => Byte(self.clock.lower_day),
                        RTCMode::UpperDay => Byte(self.clock.upper_day),
                    },
                )
            } else {
                Ok(Byte(0xFF))
            }
        } else {
            Err(Fault::Prohibited(addr))
        }
    }

    /// Writes `val` to `addr`.
    pub fn write(&mut self, addr: Address, val: Byte) -> (out: Result<(), Fault>)
        requires
            old(self).wf(),
        ensures
            final(self).wf(),
            match old(self)@.written(addr, val) {
                Ok(next) => out == Ok::<(), Fault>(()) && final(self)@ == next,
                Err(fault) => out == Err::<(), Fault>(fault) && final(self)@ == old(self)@,
            },
    {
        if addr.0 <= 0x1FFF {
            self.ram_enabled = val.0 == 0x0A;
            Ok(())
        } else if addr.0 <= 0x3FFF {
            self.rom_bank = if val.0 % 128 == 0 {
                1
            } else {
                val.0 % 128
            };
            Ok(())
        } else if addr.0 <= 0x5FFF {
            if val.0 <= 3 {
                self.rtc_selected = RTCMode::Ram;
                self.ram_bank = val.0;
            } else if val.0 == 0x08 {
                self.rtc_selected = RTCMode::Seconds;
            } else if val.0 == 0x09 {
                self.rtc_selected = RTCMode::Minutes;
            } else if val.0 == 0x0A {
                self.rtc_selected = RTCMode::Hours;
            } else if val.0 == 0x0B {
                self.rtc_selected = RTCMode::LowerDay;
            } else if val.0 == 0x0C {
                self.rtc_selected = RTCMode::UpperDay;
            }
            Ok(())
        } else if addr.0 <= 0x7FFF {
            match self.latch_state {
                LatchState::Unlatched => {
                    if val.0 == 0 {
                        self.latch_state = LatchState::AttemptingLatch;
                    }
                },
                LatchState::AttemptingLatch => {
                    if val.0 == 1 {
                        self.latch_state = LatchState::Latched;
                        self.latch_time();
                    } else {
                        self.latch_state = LatchState::Unlatched;
                    }
                },
                LatchState::Latched => {
                    if val.0 == 0 {
                        self.latch_state = LatchState::AttemptingUnlatch;
                    }
                },
                LatchState::AttemptingUnlatch => {
                    self.latch_state = LatchState::Unlatched;
                },
            }
            Ok(())
        } else if 0xA000 <= addr.0 && addr.0 <= 0xBFFF {
            if self.ram_enabled {
                if self.latch_state != LatchState::Latched {
                    self.latch_time();
                }
                match self.rtc_selected {
                    RTCMode::Ram => self.write_ram(addr, val),
                    RTCMode::Seconds => self.clock.seconds = val.0,
                    RTCMode::Minutes => self.clock.minutes = val.0,
                    RTCMode::Hours => self.clock.hours = val.0,
                    RTCMode::LowerDay => self.clock.lower_day = val.0,
                    RTCMode::UpperDay => self.clock.upper_day = val.0,
                }
            }
            Ok(())
        } else {
            Err(Fault::Prohibited(addr))
        }
    }
}

} // verus!
