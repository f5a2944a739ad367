use vstd::prelude::*;
use crate::types::byte::lemma_edge_bits;
use crate::types::byte::Byte;
use crate::fault::Fault;
use crate::ppu::PixelProcessor;
use crate::ppu::PpuView;
use crate::types::address::Address;

verus! {

/// The four phases of the pixel processor, as encoded in the low two bits
/// of STAT.
#[derive(Clone, Copy, Debug, PartialEq, Eq, Structural)]
pub enum StatusMode {
    HBlank,
    VBlank,
    OAM,
    Draw,
}

impl StatusMode {
    /// The two-bit code of the mode.
    pub open spec fn code(self) -> int {
        match self {
            StatusMode::HBlank => 0,
            StatusMode::VBlank => 1,
            StatusMode::OAM => 2,
            StatusMode::Draw => 3,
        }
    }

    /// Whether the processor may touch video and object memory in this
    /// mode.
    pub open spec fn is_blank(self) -> bool {
        self == StatusMode::HBlank || self == StatusMode::VBlank
    }

    /// The two-bit code of the mode.
    pub fn bits(self) -> (out: u8)
        ensures
            out == self.code(),
    {
        match self {
            StatusMode::HBlank => 0,
            StatusMode::VBlank => 1,
            StatusMode::OAM => 2,
            StatusMode::Draw => 3,
        }
    }
}

/// How a tile index finds its data.
#[derive(Clone, Copy, Debug, PartialEq, Eq, Structural)]
pub enum TileAddressingMode {
    /// The index counts up from `0x8000`.
    Unsigned,
    /// The index, read as signed, counts from `0x9000`.
    Signed,
}

/// The height of objects.
#[derive(Clone, Copy, Debug, PartialEq, Eq, Structural)]
pub enum ObjectSize {
    /// Eight by eight.
    Square,
    /// Eight by sixteen.
    Tall,
}

impl ObjectSize {
    /// The height in rows.
    pub open spec fn rows(self) -> int {
        match self {
            ObjectSize::Square => 8,
            ObjectSize::Tall => 16,
        }
    }

    /// The height in rows.
    pub fn height(self) -> (out: u8)
        ensures
            out == self.rows(),
    {
        match self {
            ObjectSize::Square => 8,
            ObjectSize::Tall => 16,
        }
    }
}

/// The register file of the pixel processor.
#[derive(Clone, Copy, Debug, PartialEq, Eq, Structural)]
pub struct LcdRegisters {
    /// LCD control.
    pub lcdc: Byte,
    /// Status: the mode in bits 1 and 0, the line coincidence in bit 2.
    pub stat: Byte,
    /// Viewport offsets.
    pub scy: Byte,
    pub scx: Byte,
    /// The current line, 0 to 153.
    pub ly: Byte,
    /// The line to compare with.
    pub lyc: Byte,
    pub dma: Byte,
    pub bgp: Byte,
    pub obp0: Byte,
    pub obp1: Byte,
    /// Window position.
    pub wy: Byte,
    pub wx: Byte,
    pub key1: Byte,
    pub hdma1: Byte,
    pub hdma2: Byte,
    pub hdma3: Byte,
    pub hdma4: Byte,
    pub hdma5: Byte,
    /// Palette indices; bit 7 asks for the index to advance on a write.
    pub bcps: Byte,
    pub ocps: Byte,
    pub opri: Byte,
    /// The video memory bank, zero or one.
    pub vram_bank: Byte,
}

/// The first and last address of a tile map.
pub open spec fn tile_map_area(upper: bool) -> (u16, u16) {
    if upper {
        (0x9C00u16, 0x9FFFu16)
    } else {
        (0x9800u16, 0x9BFFu16)
    }
}

/// The palette index register after one write through it: the index moves
/// on by one, modulo 64, when bit 7 asks for it, and bit 7 stays.
pub open spec fn advanced_index(index: Byte) -> Byte {
    if index.0 >= 128 {
        Byte((128 + (index.0 % 64 + 1) % 64) as u8)
    } else {
        index
    }
}

impl LcdRegisters {
    /// Every register zero.
    pub open spec fn zeroed() -> LcdRegisters {
        LcdRegisters {
            lcdc: Byte(0),
            stat: Byte(0),
            scy: Byte(0),
            scx: Byte(0),
            ly: Byte(0),
            lyc: Byte(0),
            dma: Byte(0),
            bgp: Byte(0),
            obp0: Byte(0),
            obp1: Byte(0),
            wy: Byte(0),
            wx: Byte(0),
            key1: Byte(0),
            hdma1: Byte(0),
            hdma2: Byte(0),
            hdma3: Byte(0),
            hdma4: Byte(0),
            hdma5: Byte(0),
            bcps: Byte(0),
            ocps: Byte(0),
            opri: Byte(0),
            vram_bank: Byte(0),
        }
    }

    /// The video bank is zero or one.
    pub open spec fn wf(self) -> bool {
        self.vram_bank.0 <= 1
    }

    /// The mode encoded in STAT.
    pub open spec fn mode(self) -> StatusMode {
        if self.stat.0 % 4 == 0 {
            StatusMode::HBlank
        } else if self.stat.0 % 4 == 1 {
            StatusMode::VBlank
        } else if self.stat.0 % 4 == 2 {
            StatusMode::OAM
        } else {
            StatusMode::Draw
        }
    }

    /// The registers with the mode bits of STAT replaced.
    pub open spec fn with_mode(self, mode: StatusMode) -> LcdRegisters {
        LcdRegisters { stat: Byte((self.stat.0 - self.stat.0 % 4 + mode.code()) as u8), ..self }
    }

    /// Whether the LCD is switched on: bit 7 of LCDC.
    pub open spec fn lcd_enabled(self) -> bool {
        self.lcdc.0 >= 128
    }

    /// Whether video memory may be touched: during the blanking modes, and
    /// whenever the LCD is off.
    pub open spec fn vram_open(self) -> bool {
        self.mode().is_blank() || !self.lcd_enabled()
    }

    /// Whether object memory may be touched: during the blanking modes.
    pub open spec fn oam_open(self) -> bool {
        self.mode().is_blank()
    }

    /// The height of objects: bit 2 of LCDC.
    pub open spec fn obj_size(self) -> ObjectSize {
        if self.lcdc.bit(2) {
            ObjectSize::Tall
        } else {
            ObjectSize::Square
        }
    }

    /// How tile indices are resolved: bit 4 of LCDC.
    pub open spec fn tile_addressing(self) -> TileAddressingMode {
        if self.lcdc.bit(4) {
            TileAddressingMode::Unsigned
        } else {
            TileAddressingMode::Signed
        }
    }

    /// The registers after a write to LCDC. A write that would switch the
    /// LCD off outside the vertical blank is dropped.
    pub open spec fn with_lcdc(self, value: Byte) -> LcdRegisters {
        if self.lcd_enabled() && value.0 < 128 && self.mode() != StatusMode::VBlank {
            self
        } else {
            LcdRegisters { lcdc: value, ..self }
        }
    }

    /// The registers after a write to STAT: bits 6 to 3 are taken, the
    /// mode and the coincidence bit stay, bit 7 reads zero.
    pub open spec fn with_stat(self, value: Byte) -> LcdRegisters {
        LcdRegisters {
            stat: Byte((((value.0 % 128) / 8) * 8 + self.stat.0 % 8) as u8),
            ..self
        }
    }

    /// The registers with bit 2 of STAT telling whether LY equals LYC.
    pub open spec fn with_coincidence(self) -> LcdRegisters {
        LcdRegisters { stat: self.stat.with_bit(2, self.ly == self.lyc), ..self }
    }

    /// Decodes the mode from STAT.
    pub fn read_mode(&self) -> (out: StatusMode)
        ensures
            out == self.mode(),
    {
        let code: u8 = self.stat.0 % 4;
        if code == 0 {
            StatusMode::HBlank
        } else if code == 1 {
            StatusMode::VBlank
        } else if code == 2 {
            StatusMode::OAM
        } else {
            StatusMode::Draw
        }
    }

    /// Whether the LCD is switched on.
    pub fn is_lcd_enabled(&self) -> (out: bool)
        ensures
            out == self.lcd_enabled(),
    {
        proof {
            lemma_edge_bits(self.lcdc);
        }
        self.lcdc.is_bit_set(7)
    }

    /// Whether video memory may be touched.
    pub fn is_vram_open(&self) -> (out: bool)
        ensures
            out == self.vram_open(),
    {
        let mode = self.read_mode();
        mode == StatusMode::HBlank || mode == StatusMode::VBlank || !self.is_lcd_enabled()
    }

    /// Whether object memory may be touched.
    pub fn is_oam_open(&self) -> (out: bool)
        ensures
            out == self.oam_open(),
    {
        let mode = self.read_mode();
        mode == StatusMode::HBlank || mode == StatusMode::VBlank
    }
}

impl PpuView {
    /// What a read of the register at `address` returns; an address that
    /// holds no readable register faults.
    pub open spec fn io_read(self, address: Address) -> Result<Byte, Fault> {
        match address.0 {
            0xFF40 => Ok(self.regs.lcdc),
            0xFF41 => Ok(self.regs.stat),
            0xFF42 => Ok(self.regs.scy),
            0xFF43 => Ok(self.regs.scx),
            0xFF44 => Ok(self.regs.ly),
            0xFF45 => Ok(self.regs.lyc),
            0xFF46 => Ok(self.regs.dma),
            0xFF47 => Ok(self.regs.bgp),
            0xFF48 => Ok(self.regs.obp0),
            0xFF49 => Ok(self.regs.obp1),
            0xFF4A => Ok(self.regs.wy),
            0xFF4B => Ok(self.regs.wx),
            0xFF4D => Ok(self.regs.key1),
            0xFF4F => Ok(self.regs.vram_bank),
            0xFF55 => Ok(self.regs.hdma5),
            0xFF68 => Ok(self.regs.bcps),
            0xFF69 => Ok(self.bcram[(self.regs.bcps.0 % 64) as int]),
            0xFF6A => Ok(self.regs.ocps),
            0xFF6B => Ok(self.ocram[(self.regs.ocps.0 % 64) as int]),
            0xFF6C => Ok(self.regs.opri),
            _ => Err(Fault::Prohibited(address)),
        }
    }

    /// The state after a write through the background palette port: the
    /// byte lands at the index unless a line is being drawn, and the index
    /// moves on if it asks to.
    pub open spec fn bcpd_written(self, value: Byte) -> PpuView {
        PpuView {
            bcram: if self.regs.mode() != StatusMode::Draw {
                self.bcram.update((self.regs.bcps.0 % 64) as int, value)
            } else {
                self.bcram
            },
            regs: LcdRegisters { bcps: advanced_index(self.regs.bcps), ..self.regs },
            ..self
        }
    }

    /// The state after a write through the object palette port.
    pub open spec fn ocpd_written(self, value: Byte) -> PpuView {
        PpuView {
            ocram: if self.regs.mode() != StatusMode::Draw {
                self.ocram.update((self.regs.ocps.0 % 64) as int, value)
            } else {
                self.ocram
            },
            regs: LcdRegisters { ocps: advanced_index(self.regs.ocps), ..self.regs },
            ..self
        }
    }

    /// The state with the register file replaced.
    pub open spec fn with_regs(self, regs: LcdRegisters) -> PpuView {
        PpuView { regs, ..self }
    }

    /// The state after `value` is written to the register at `address`, or
    /// the fault for an address that holds no writable register.
    #[verifier::opaque]
    pub open spec fn io_written(self, address: Address, value: Byte) -> Result<PpuView, Fault> {
        let regs = self.regs;
        match address.0 {
            0xFF40 => Ok(self.with_regs(regs.with_lcdc(value))),
            0xFF41 => Ok(self.with_regs(regs.with_stat(value))),
            0xFF42 => Ok(self.with_regs(LcdRegisters { scy: value, ..regs })),
            0xFF43 => Ok(self.with_regs(LcdRegisters { scx: value, ..regs })),
            0xFF45 => Ok(self.with_regs(LcdRegisters { lyc: value, ..regs })),
            0xFF46 => Ok(self.with_regs(LcdRegisters { dma: value, ..regs })),
            0xFF47 => Ok(self.with_regs(LcdRegisters { bgp: value, ..regs })),
            0xFF48 => Ok(self.with_regs(LcdRegisters { obp0: value, ..regs })),
            0xFF49 => Ok(self.with_regs(LcdRegisters { obp1: value, ..regs })),
            0xFF4A => Ok(self.with_regs(LcdRegisters { wy: value, ..regs })),
            0xFF4B => Ok(self.with_regs(LcdRegisters { wx: value, ..regs })),
            0xFF4D => Ok(self.with_regs(LcdRegisters { key1: value, ..regs })),
            0xFF4F => Ok(self.with_regs(LcdRegisters { vram_bank: Byte(value.0 % 2), ..regs })),
            0xFF51 => Ok(self.with_regs(LcdRegisters { hdma1: value, ..regs })),
            0xFF52 => Ok(self.with_regs(LcdRegisters { hdma2: value, ..regs })),
            0xFF53 => Ok(self.with_regs(LcdRegisters { hdma3: value, ..regs })),
            0xFF54 => Ok(self.with_regs(LcdRegisters { hdma4: value, ..regs })),
            0xFF55 => Ok(self.with_regs(LcdRegisters { hdma5: value, ..regs })),
            0xFF68 => Ok(self.with_regs(LcdRegisters { bcps: value, ..regs })),
            0xFF69 => Ok(self.bcpd_written(value)),
            0xFF6A => Ok(self.with_regs(LcdRegisters { ocps: value, ..regs })),
            0xFF6B => Ok(self.ocpd_written(value)),
            0xFF6C => Ok(self.with_regs(LcdRegisters { opri: value, ..regs })),
            _ => Err(Fault::Prohibited(address)),
        }
    }
}

impl PixelProcessor {
    /// Reads the register at `address`.
    pub fn read_io(&self, address: Address) -> (out: Result<Byte, Fault>)
        requires
            self.wf(),
        ensures
            out == self@.io_read(address),
    {
        match address.0 {
            0xFF40 => Ok(self.regs.lcdc),
            0xFF41 => Ok(self.regs.stat),
            0xFF42 => Ok(self.regs.scy),
            0xFF43 => Ok(self.regs.scx),
            0xFF44 => Ok(self.regs.ly),
            0xFF45 => Ok(self.regs.lyc),
            0xFF46 => Ok(self.regs.dma),
            0xFF47 => Ok(self.regs.bgp),
            0xFF48 => Ok(self.regs.obp0),
            0xFF49 => Ok(self.regs.obp1),
            0xFF4A => Ok(self.regs.wy),
            0xFF4B => Ok(self.regs.wx),
            0xFF4D => Ok(self.regs.key1),
            0xFF4F => Ok(self.regs.vram_bank),
            0xFF55 => Ok(self.regs.hdma5),
            0xFF68 => Ok(self.regs.bcps),
            0xFF69 => Ok(self.read_bcram()),
            0xFF6A => Ok(self.regs.ocps),
            0xFF6B => Ok(self.read_ocram()),
            0xFF6C => Ok(self.regs.opri),
            _ => Err(Fault::Prohibited(address)),
        }
    }

    /// Writes the register at `address`.
    pub fn write_io(&mut self, address: Address, value: Byte) -> (out: Result<(), Fault>)
        requires
            old(self).wf(),
        ensures
            final(self).wf(),
            match old(self)@.io_written(address, value) {
                Ok(next) => out == Ok::<(), Fault>(()) && final(self)@ == next,
                Err(fault) => out == Err::<(), Fault>(fault) && final(self)@ == old(self)@,
            },
    {
        reveal(PpuView::io_written);
        match address.0 {
            0xFF40 => {
                let disabling = self.read_lcdc_enabled() && value.0 < 128;
                if !(disabling && self.read_stat_mode() != StatusMode::VBlank) {
                    self.regs.lcdc = value;
                }
            },
            0xFF41 => {
                self.regs.stat = Byte(((value.0 % 128) / 8) * 8 + self.regs.stat.0 % 8);
            },
            0xFF42 => self.regs.scy = value,
            0xFF43 => self.regs.scx = value,
            0xFF45 => self.regs.lyc = value,
            0xFF46 => self.regs.dma = value,
            0xFF47 => self.regs.bgp = value,
            0xFF48 => self.regs.obp0 = value,
            0xFF49 => self.regs.obp1 = value,
            0xFF4A => self.regs.wy = value,
            0xFF4B => self.regs.wx = value,
            0xFF4D => self.regs.key1 = value,
            0xFF4F => self.regs.vram_bank = Byte(value.0 % 2),
            0xFF51 => self.regs.hdma1 = value,
            0xFF52 => self.regs.hdma2 = value,
            0xFF53 => self.regs.hdma3 = value,
            0xFF54 => self.regs.hdma4 = value,
            0xFF55 => self.regs.hdma5 = value,
            0xFF68 => self.regs.bcps = value,
            0xFF69 => self.write_bcpd(value),
            0xFF6A => self.regs.ocps = value,
            0xFF6B => self.write_ocpd(value),
            0xFF6C => self.regs.opri = value,
            _ => {
                return Err(Fault::Prohibited(address));
            },
        }
        Ok(())
    }

    /// Decodes the mode from STAT.
    pub fn read_stat_mode(&self) -> (out: StatusMode)
        ensures
            out == self@.regs.mode(),
    {
        self.regs.read_mode()
    }

    /// Replaces the mode bits of STAT.
    pub fn write_stat_mode(&mut self, mode: StatusMode)
        ensures
            final(self)@ == old(self)@.with_regs(old(self)@.regs.with_mode(mode)),
    {
        self.regs.stat = Byte(self.regs.stat.0 - self.regs.stat.0 % 4 + mode.bits());
    }

    /// Whether the LCD is switched on.
    pub fn read_lcdc_enabled(&self) -> (out: bool)
        ensures
            out == self@.regs.lcd_enabled(),
    {
        self.regs.is_lcd_enabled()
    }

    /// Switches the LCD off.
    pub fn lcd_disable(&mut self)
        ensures
            final(self)@ == old(self)@.with_regs(
                LcdRegisters { lcdc: old(self)@.regs.lcdc.with_bit(7, false), ..old(self)@.regs },
            ),
    {
        self.regs.lcdc.write_bit(7, false);
    }

    /// Switches the LCD on.
    pub fn lcd_enable(&mut self)
        ensures
            final(self)@ == old(self)@.with_regs(
                LcdRegisters { lcdc: old(self)@.regs.lcdc.with_bit(7, true), ..old(self)@.regs },
            ),
    {
        self.regs.lcdc.write_bit(7, true);
    }

    /// The first and last address of the window's tile map: bit 6 of LCDC.
    pub fn read_window_tile_map_area(&self) -> (out: (u16, u16))
        ensures
            out == tile_map_area(self@.regs.lcdc.bit(6)),
    {
        if self.regs.lcdc.is_bit_set(6) {
            (0x9C00, 0x9FFF)
        } else {
            (0x9800, 0x9BFF)
        }
    }

    /// Whether the window is shown: bit 5 of LCDC.
    pub fn is_window_enabled(&self) -> (out: bool)
        ensures
            out == self@.regs.lcdc.bit(5),
    {
        self.regs.lcdc.is_bit_set(5)
    }

    /// How tile indices are resolved: bit 4 of LCDC.
    pub fn read_tile_addressing_mode(&self) -> (out: TileAddressingMode)
        ensures
            out == self@.regs.tile_addressing(),
    {
        if self.regs.lcdc.is_bit_set(4) {
            TileAddressingMode::Unsigned
        } else {
            TileAddressingMode::Signed
        }
    }

    /// The first and last address of the background's tile map: bit 3 of
    /// LCDC.
    pub fn read_background_tile_map_area(&self) -> (out: (u16, u16))
        ensures
            out == tile_map_area(self@.regs.lcdc.bit(3)),
    {
        if self.regs.lcdc.is_bit_set(3) {
            (0x9C00, 0x9FFF)
        } else {
            (0x9800, 0x9BFF)
        }
    }

    /// The height of objects: bit 2 of LCDC.
    pub fn read_obj_size(&self) -> (out: ObjectSize)
        ensures
            out == self@.regs.obj_size(),
    {
        if self.regs.lcdc.is_bit_set(2) {
            ObjectSize::Tall
        } else {
            ObjectSize::Square
        }
    }

    /// Whether objects are shown: bit 1 of LCDC.
    pub fn is_obj_enabled(&self) -> (out: bool)
        ensures
            out == self@.regs.lcdc.bit(1),
    {
        self.regs.lcdc.is_bit_set(1)
    }

    /// Whether background and window have priority: bit 0 of LCDC.
    pub fn is_win_bg_priority(&self) -> (out: bool)
        ensures
            out == self@.regs.lcdc.bit(0),
    {
        self.regs.lcdc.is_bit_set(0)
    }

    /// Writes through the background palette port.
    pub fn write_bcpd(&mut self, value: Byte)
        requires
            old(self).wf(),
        ensures
            final(self).wf(),
            final(self)@ == old(self)@.bcpd_written(value),
    {
        if self.read_stat_mode() != StatusMode::Draw {
            self.bcram.set((self.regs.bcps.0 % 64) as usize, value);
        }
        if self.regs.bcps.0 >= 128 {
            self.regs.bcps = Byte(128 + (self.regs.bcps.0 % 64 + 1) % 64);
        }
    }

    /// Writes through the object palette port.
    pub fn write_ocpd(&mut self, value: Byte)
        requires
            old(self).wf(),
        ensures
            final(self).wf(),
            final(self)@ == old(self)@.ocpd_written(value),
    {
        if self.read_stat_mode() != StatusMode::Draw {
            self.ocram.set((self.regs.ocps.0 % 64) as usize, value);
        }
        if self.regs.ocps.0 >= 128 {
            self.regs.ocps = Byte(128 + (self.regs.ocps.0 % 64 + 1) % 64);
        }
    }

    /// Reads background palette memory at the index in BCPS.
    pub fn read_bcram(&self) -> (out: Byte)
        requires
            self.wf(),
        ensures
            out == self@.bcram[(self@.regs.bcps.0 % 64) as int],
    {
        self.bcram[(self.regs.bcps.0 % 64) as usize]
    }

    /// Reads object palette memory at the index in OCPS.
    pub fn read_ocram(&self) -> (out: Byte)
        requires
            self.wf(),
        ensures
            out == self@.ocram[(self@.regs.ocps.0 % 64) as int],
    {
        self.ocram[(self.regs.ocps.0 % 64) as usize]
    }
}

} // verus!
