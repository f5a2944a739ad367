//! The pixel processor: video and object memory, palettes, registers and
//! the dot-driven mode machine.
use vstd::prelude::*;
use std::collections::VecDeque;
use crate::fault::Fault;
use crate::ppu::pixel::Pixel;
use crate::ppu::registers::LcdRegisters;
use crate::ppu::tile::Tile;
use crate::types::address::Address;
use crate::types::byte::Byte;

pub mod oam;
pub mod pixel;
pub mod registers;
pub mod render;
pub mod tile;

verus! {

/// The size of video memory: two banks.
pub const VRAM_SIZE: usize = 0x4000;

/// The size of one bank of video memory.
pub const VRAM_BANK_SIZE: usize = 0x2000;

/// The size of object memory: forty records of four bytes.
pub const OAM_SIZE: usize = 0xA0;

/// The size of one tile's data.
pub const TILE_SIZE: usize = 16;

/// The size of each palette memory: eight palettes of four colours of two
/// bytes.
pub const PALETTE_SIZE: usize = 64;

/// The width of the screen.
pub const SCREEN_WIDTH: usize = 160;

/// The height of the screen.
pub const SCREEN_HEIGHT: usize = 144;

/// The number of pixels in a frame.
pub const FRAME_SIZE: usize = 23040;

/// The number of dots in a line.
pub const LINE_DOTS: u32 = 456;

/// The number of dots in a frame: 154 lines.
pub const FRAME_DOTS: u32 = 70224;

/// The most pixels that a queue holds.
pub const FIFO_CAPACITY: usize = 16;

/// The most pixels fetched on one line: twenty-two tiles.
pub const LINE_FETCH: u8 = 176;

/// The dots of a line spent scanning object memory.
pub const SCAN_DOTS: u32 = 80;

/// The dots of a line spent drawing.
pub const DRAW_DOTS: u32 = 172;

/// The dots at the start of drawing in which no pixel leaves the queues.
pub const DRAW_LATENCY: u32 = 12;

/// The number of lines that are drawn; the ten that follow are the
/// vertical blank.
pub const VISIBLE_LINES: u8 = 144;

/// The pixel processor.
#[derive(Debug)]
pub struct PixelProcessor {
    /// The slot in which a completed frame waits to be fetched.
    pub buffer: Option<Vec<u32>>,
    /// The frame being drawn.
    pub frame: Vec<u32>,
    pub vram: Vec<Byte>,
    pub oam: Vec<Byte>,
    pub bcram: Vec<Byte>,
    pub ocram: Vec<Byte>,
    pub line_dot_counter: u32,
    pub frame_dot_counter: u32,
    pub bg_fifo: VecDeque<Pixel>,
    pub obj_fifo: VecDeque<Option<Pixel>>,
    /// The objects found on the current line, by record number.
    pub line_objects: Vec<u8>,
    /// The number of pixels fetched into the queues on this line.
    pub fetched: u8,
    /// The number of pixels taken out of the queues on this line.
    pub popped: u8,
    /// The number of pixels at the start of this line that fine scrolling
    /// throws away.
    pub discard: u8,
    pub regs: LcdRegisters,
}

/// The mathematical state of the pixel processor.
pub struct PpuView {
    pub buffer: Option<Seq<u32>>,
    pub frame: Seq<u32>,
    pub vram: Seq<Byte>,
    pub oam: Seq<Byte>,
    pub bcram: Seq<Byte>,
    pub ocram: Seq<Byte>,
    pub line_dot: u32,
    pub frame_dot: u32,
    pub bg_fifo: Seq<Pixel>,
    pub obj_fifo: Seq<Option<Pixel>>,
    pub line_objects: Seq<u8>,
    pub fetched: u8,
    pub popped: u8,
    pub discard: u8,
    pub regs: LcdRegisters,
}

impl PpuView {
    /// The memories have their sizes; the counters agree with each other
    /// and with LY; the queues and the line's progress are within bounds.
    pub open spec fn wf(self) -> bool {
        &&& self.regs.wf()
        &&& self.vram.len() == VRAM_SIZE
        &&& self.oam.len() == OAM_SIZE
        &&& self.bcram.len() == PALETTE_SIZE
        &&& self.ocram.len() == PALETTE_SIZE
        &&& self.frame.len() == FRAME_SIZE
        &&& (self.buffer matches Some(b) ==> b.len() == FRAME_SIZE)
        &&& self.line_dot < LINE_DOTS
        &&& self.frame_dot < FRAME_DOTS
        &&& self.frame_dot == self.regs.ly.0 * LINE_DOTS + self.line_dot
        &&& self.bg_fifo.len() <= FIFO_CAPACITY
        &&& self.obj_fifo.len() == self.bg_fifo.len()
        &&& self.line_objects.len() <= 40
        &&& (forall|i: int| 0 <= i < self.line_objects.len() ==> #[trigger] self.line_objects[i] < 40)
        &&& self.fetched <= LINE_FETCH
        &&& self.fetched == self.popped + self.bg_fifo.len()
        &&& self.discard <= 7
    }

    /// The place in video memory that `address` maps to in the selected
    /// bank.
    pub open spec fn vram_index(self, address: Address) -> int {
        (address.0 - 0x8000) + VRAM_BANK_SIZE * self.regs.vram_bank.0
    }

    /// What a read of video memory at `address` returns: the byte in the
    /// selected bank, a fault while the memory is closed.
    pub open spec fn vram_read(self, address: Address) -> Result<Byte, Fault> {
        if !(0x8000 <= address.0 <= 0x9FFF) {
            Err(Fault::Prohibited(address))
        } else if self.regs.vram_open() {
            Ok(self.vram[self.vram_index(address)])
        } else {
            Err(Fault::Gated(address))
        }
    }

    /// The state after a write to video memory; while the memory is closed
    /// the write is dropped.
    pub open spec fn vram_written(self, address: Address, value: Byte) -> PpuView {
        if 0x8000 <= address.0 <= 0x9FFF && self.regs.vram_open() {
            PpuView { vram: self.vram.update(self.vram_index(address), value), ..self }
        } else {
            self
        }
    }

    /// What a read of object memory at `address` returns.
    pub open spec fn oam_read(self, address: Address) -> Result<Byte, Fault> {
        if !(0xFE00 <= address.0 <= 0xFE9F) {
            Err(Fault::Prohibited(address))
        } else if self.regs.oam_open() {
            Ok(self.oam[address.0 - 0xFE00])
        } else {
            Err(Fault::Gated(address))
        }
    }

    /// The state after a write to object memory; while the memory is
    /// closed the write is dropped.
    pub open spec fn oam_written(self, address: Address, value: Byte) -> PpuView {
        if 0xFE00 <= address.0 <= 0xFE9F && self.regs.oam_open() {
            PpuView { oam: self.oam.update(address.0 - 0xFE00, value), ..self }
        } else {
            self
        }
    }

    /// The data of tile `index` in the selected bank.
    pub open spec fn tile(self, index: Byte) -> Seq<Byte> {
        self.vram.subrange(
            index.0 * TILE_SIZE + self.regs.vram_bank.0 * VRAM_BANK_SIZE,
            index.0 * TILE_SIZE + self.regs.vram_bank.0 * VRAM_BANK_SIZE + TILE_SIZE,
        )
    }
}

/// The view of a frame slot.
pub open spec fn slot_view(buffer: Option<Vec<u32>>) -> Option<Seq<u32>> {
    match buffer {
        Some(b) => Some(b@),
        None => None,
    }
}

impl View for PixelProcessor {
    type V = PpuView;

    open spec fn view(&self) -> PpuView {
        PpuView {
            buffer: slot_view(self.buffer),
            frame: self.frame@,
            vram: self.vram@,
            oam: self.oam@,
            bcram: self.bcram@,
            ocram: self.ocram@,
            line_dot: self.line_dot_counter,
            frame_dot: self.frame_dot_counter,
            bg_fifo: self.bg_fifo@,
            obj_fifo: self.obj_fifo@,
            line_objects: self.line_objects@,
            fetched: self.fetched,
            popped: self.popped,
            discard: self.discard,
            regs: self.regs,
        }
    }
}

/// The state of the pixel processor after reset: memories zeroed, palette
/// memories all ones, counters and registers zero, no frame waiting.
pub open spec fn ppu_reset() -> PpuView {
    PpuView {
        buffer: None,
        frame: Seq::new(FRAME_SIZE as nat, |i: int| 0u32),
        vram: Seq::new(VRAM_SIZE as nat, |i: int| Byte(0)),
        oam: Seq::new(OAM_SIZE as nat, |i: int| Byte(0)),
        bcram: Seq::new(PALETTE_SIZE as nat, |i: int| Byte(0xFF)),
        ocram: Seq::new(PALETTE_SIZE as nat, |i: int| Byte(0xFF)),
        line_dot: 0,
        frame_dot: 0,
        bg_fifo: Seq::empty(),
        obj_fifo: Seq::empty(),
        line_objects: Seq::empty(),
        fetched: 0,
        popped: 0,
        discard: 0,
        regs: LcdRegisters::zeroed(),
    }
}

impl PixelProcessor {
    /// The state invariant, on the view.
    pub open spec fn wf(&self) -> bool {
        self@.wf()
    }

    /// A pixel processor in its reset state.
    pub fn new() -> (out: PixelProcessor)
        ensures
            out.wf(),
            out@ == ppu_reset(),
    {
        let out = PixelProcessor {
            buffer: None,
            frame: vec![0u32; FRAME_SIZE],
            vram: vec![Byte(0); VRAM_SIZE],
            oam: vec![Byte(0); OAM_SIZE],
            bcram: vec![Byte(0xFF); PALETTE_SIZE],
            ocram: vec![Byte(0xFF); PALETTE_SIZE],
            line_dot_counter: 0,
            frame_dot_counter: 0,
            bg_fifo: VecDeque::with_capacity(FIFO_CAPACITY),
            obj_fifo: VecDeque::with_capacity(FIFO_CAPACITY),
            line_objects: Vec::new(),
            fetched: 0,
            popped: 0,
            discard: 0,
            regs: LcdRegisters {
                lcdc: Byte(0),
                stat: Byte(0),
                scy: Byte(0),
                scx: Byte(0),
                ly: Byte(0),
                lyc: Byte(0),
                dma: Byte(0),
                bgp: Byte(0),
                obp0: Byte(0),
                obp1: Byte(0),
                wy: Byte(0),
                wx: Byte(0),
                key1: Byte(0),
                hdma1: Byte(0),
                hdma2: Byte(0),
                hdma3: Byte(0),
                hdma4: Byte(0),
                hdma5: Byte(0),
                bcps: Byte(0),
                ocps: Byte(0),
                opri: Byte(0),
                vram_bank: Byte(0),
            },
        };
        assert(out@.frame =~= ppu_reset().frame);
        assert(out@.vram =~= ppu_reset().vram);
        assert(out@.oam =~= ppu_reset().oam);
        assert(out@.bcram =~= ppu_reset().bcram);
        assert(out@.ocram =~= ppu_reset().ocram);
        assert(out@.bg_fifo =~= ppu_reset().bg_fifo);
        assert(out@.obj_fifo =~= ppu_reset().obj_fifo);
        assert(out@.line_objects =~= ppu_reset().line_objects);
        out
    }

    /// Tests the state invariant.
    pub fn is_valid(&self) -> (out: bool)
        ensures
            out == self.wf(),
    {
        let sizes = self.regs.vram_bank.0 <= 1 && self.vram.len() == VRAM_SIZE && self.oam.len()
            == OAM_SIZE && self.bcram.len() == PALETTE_SIZE && self.ocram.len() == PALETTE_SIZE
            && self.frame.len() == FRAME_SIZE && match &self.buffer {
            Some(b) => b.len() == FRAME_SIZE,
            None => true,
        };
        let counters = self.line_dot_counter < LINE_DOTS && self.frame_dot_counter < FRAME_DOTS
            && self.frame_dot_counter == self.regs.ly.0 as u32 * LINE_DOTS + self.line_dot_counter;
        let queues = self.bg_fifo.len() <= FIFO_CAPACITY && self.obj_fifo.len()
            == self.bg_fifo.len() && self.line_objects.len() <= 40 && self.fetched <= LINE_FETCH
            && self.fetched as usize == self.popped as usize + self.bg_fifo.len() && self.discard
            <= 7;
        if !(sizes && counters && queues) {
            return false;
        }
        let mut i: usize = 0;
        while i < self.line_objects.len()
            invariant
                i <= self.line_objects.len(),
                forall|k: int| 0 <= k < i ==> #[trigger] self.line_objects@[k] < 40,
            decreases self.line_objects.len() - i,
        {
            if self.line_objects[i] >= 40 {
                return false;
            }
            i = i + 1;
        }
        true
    }

    /// Reads video memory at `address` in the selected bank.
    pub fn read_vram(&self, address: Address) -> (out: Result<Byte, Fault>)
        requires
            self.wf(),
        ensures
            out == self@.vram_read(address),
    {
        if address.0 < 0x8000 || address.0 > 0x9FFF {
            Err(Fault::Prohibited(address))
        } else if self.regs.is_vram_open() {
            let index: usize = (address.0 as usize - 0x8000) + VRAM_BANK_SIZE
                * self.regs.vram_bank.0 as usize;
            Ok(self.vram[index])
        } else {
            Err(Fault::Gated(address))
        }
    }

    /// Writes video memory at `address` in the selected bank and reports
    /// whether the write was taken.
    pub fn write_vram(&mut self, address: Address, value: Byte) -> (taken: bool)
        requires
            old(self).wf(),
        ensures
            final(self).wf(),
            final(self)@ == old(self)@.vram_written(address, value),
            taken == (0x8000 <= address.0 <= 0x9FFF && old(self)@.regs.vram_open()),
    {
        if 0x8000 <= address.0 && address.0 <= 0x9FFF && self.regs.is_vram_open() {
            let index: usize = (address.0 as usize - 0x8000) + VRAM_BANK_SIZE
                * self.regs.vram_bank.0 as usize;
            self.vram.set(index, value);
            true
        } else {
            false
        }
    }

    /// Reads object memory at `address`.
    pub fn read_oam(&self, address: Address) -> (out: Result<Byte, Fault>)
        requires
            self.wf(),
        ensures
            out == self@.oam_read(address),
    {
        if address.0 < 0xFE00 || address.0 > 0xFE9F {
            Err(Fault::Prohibited(address))
        } else if self.regs.is_oam_open() {
            Ok(self.oam[address.0 as usize - 0xFE00])
        } else {
            Err(Fault::Gated(address))
        }
    }

    /// Writes object memory at `address` and reports whether the write was
    /// taken.
    pub fn write_oam(&mut self, address: Address, value: Byte) -> (taken: bool)
        requires
            old(self).wf(),
        ensures
            final(self).wf(),
            final(self)@ == old(self)@.oam_written(address, value),
            taken == (0xFE00 <= address.0 <= 0xFE9F && old(self)@.regs.oam_open()),
    {
        if 0xFE00 <= address.0 && address.0 <= 0xFE9F && self.regs.is_oam_open() {
            self.oam.set(address.0 as usize - 0xFE00, value);
            true
        } else {
            false
        }
    }

    /// Copies the sixteen bytes of tile `index` out of the selected bank.
    pub fn get_tile(&self, index: Byte) -> (out: Tile)
        requires
            self.wf(),
        ensures
            out.0@ == self@.tile(index),
    {
        let start: usize = index.0 as usize * TILE_SIZE + self.regs.vram_bank.0 as usize
            * VRAM_BANK_SIZE;
        let mut bytes: Vec<Byte> = Vec::new();
        let mut i: usize = 0;
        while i < TILE_SIZE
            invariant
                self.wf(),
                i <= TILE_SIZE,
                start == index.0 * TILE_SIZE + self.regs.vram_bank.0 * VRAM_BANK_SIZE,
                bytes@ == self@.vram.subrange(start as int, start + i),
            decreases TILE_SIZE - i,
        {
            bytes.push(self.vram[start + i]);
            assert(bytes@ =~= self@.vram.subrange(start as int, start + i + 1));
            i = i + 1;
        }
        Tile(bytes)
    }
}

impl Default for PixelProcessor {
    fn default() -> (out: PixelProcessor)
        ensures
            out.wf(),
            out@ == ppu_reset(),
    {
        PixelProcessor::new()
    }
}

} // verus!
