//! The dot-driven mode machine and the pixel pipeline.
use vstd::prelude::*;
use crate::cpu::bit_value;
use crate::ppu::oam::ObjectAttribute;
use crate::ppu::pixel::Pixel;
use crate::ppu::registers::LcdRegisters;
use crate::ppu::registers::StatusMode;
use crate::ppu::registers::TileAddressingMode;
use crate::ppu::tile::TileAttributes;
use crate::ppu::PixelProcessor;
use crate::ppu::PpuView;
use crate::ppu::FRAME_DOTS;
use crate::ppu::LINE_DOTS;
use crate::ppu::LINE_FETCH;
use crate::ppu::SCREEN_WIDTH;
use crate::types::byte::Byte;

verus! {

/// The mode that the processor is in at dot `dot` of line `ly`: on the 144
/// visible lines 80 dots of object scan, 172 of drawing and 204 of
/// horizontal blank; on the ten lines after them the vertical blank.
pub open spec fn mode_at(ly: int, dot: int) -> StatusMode {
    if ly >= 144 {
        StatusMode::VBlank
    } else if dot < 80 {
        StatusMode::OAM
    } else if dot < 252 {
        StatusMode::Draw
    } else {
        StatusMode::HBlank
    }
}

/// The colour number of column `column` of a tile row with bit planes
/// `low` and `high`; column zero is the leftmost pixel and sits in bit 7.
pub open spec fn color_number(low: Byte, high: Byte, column: int) -> int {
    2 * bit_value(high.bit((7 - column) as u8)) + bit_value(low.bit((7 - column) as u8))
}

/// A five-bit channel widened to eight bits.
pub open spec fn widened(channel: int) -> u8 {
    (channel * 8 + channel / 4) as u8
}

/// Colour `number` of palette `palette` in a palette memory: two bytes,
/// low first, holding red, green and blue in five bits each from bit 0.
pub open spec fn palette_color(ram: Seq<Byte>, palette: int, number: int) -> Pixel {
    let value = ram[palette * 8 + number * 2 + 1].0 * 256 + ram[palette * 8 + number * 2].0;
    Pixel {
        r: widened(value % 32),
        g: widened((value / 32) % 32),
        b: widened((value / 1024) % 32),
    }
}

/// Where the data of tile `index` starts in a bank of video memory.
pub open spec fn tile_data_offset(mode: TileAddressingMode, index: Byte) -> int {
    match mode {
        TileAddressingMode::Unsigned => index.0 * 16,
        TileAddressingMode::Signed => 0x1000 + index.signed() * 16,
    }
}

impl PpuView {
    /// Record `i` of object memory, decoded.
    pub open spec fn object(self, i: int) -> ObjectAttribute {
        ObjectAttribute::decoded(
            self.oam[4 * i],
            self.oam[4 * i + 1],
            self.oam[4 * i + 2],
            self.oam[4 * i + 3],
        )
    }

    /// The numbers of those among the first `n` records that cover the
    /// current line, in order.
    pub open spec fn objects_on_line(self, n: int) -> Seq<u8>
        decreases n,
    {
        if n <= 0 {
            Seq::empty()
        } else if self.object(n - 1).covers_line(
            self.regs.ly.0 as int,
            self.regs.obj_size().rows(),
        ) {
            self.objects_on_line(n - 1).push((n - 1) as u8)
        } else {
            self.objects_on_line(n - 1)
        }
    }

    /// The state after one dot of object scan: at the first dot of the
    /// line the forty records are scanned for those that cover it.
    pub open spec fn scanned(self) -> PpuView {
        if self.line_dot == 0 {
            PpuView { line_objects: self.objects_on_line(40), ..self }
        } else {
            self
        }
    }

    /// The place in bank zero of the background map cell that the pixel
    /// fetched as number `f` of this line falls in.
    pub open spec fn map_cell(self, f: int) -> int {
        let x = ((self.regs.scx.0 / 8) * 8 + f) % 256;
        let y = (self.regs.ly.0 + self.regs.scy.0) % 256;
        (if self.regs.lcdc.bit(3) {
            0x1C00int
        } else {
            0x1800int
        }) + (y / 8) * 32 + x / 8
    }

    /// The background pixel fetched as number `f` of this line: the map
    /// cell gives the tile and, in bank one, its attributes; the tile's
    /// row gives the colour number; the palette gives the colour.
    #[verifier::opaque]
    pub open spec fn background_pixel(self, f: int) -> Pixel {
        let x = ((self.regs.scx.0 / 8) * 8 + f) % 256;
        let y = (self.regs.ly.0 + self.regs.scy.0) % 256;
        let index = self.vram[self.map_cell(f)];
        let attrs = TileAttributes::decoded(self.vram[0x2000 + self.map_cell(f)]);
        let row = if attrs.vflip {
            7 - y % 8
        } else {
            y % 8
        };
        let column = if attrs.hflip {
            7 - x % 8
        } else {
            x % 8
        };
        let data = tile_data_offset(self.regs.tile_addressing(), index) + row * 2 + (
        if attrs.vram_bank {
            0x2000int
        } else {
            0
        });
        palette_color(
            self.bcram,
            attrs.palette as int,
            color_number(self.vram[data], self.vram[data + 1], column),
        )
    }

    /// Whether object `o` lies over column `x` of the screen.
    pub open spec fn object_covers(o: ObjectAttribute, x: int) -> bool {
        o.x.0 <= x + 8 < o.x.0 + 8
    }

    /// The colour number that object `o` shows at column `x` of the
    /// current line.
    pub open spec fn object_color_number(self, o: ObjectAttribute, x: int) -> int {
        let height = self.regs.obj_size().rows();
        let shown_row = self.regs.ly.0 + 16 - o.y.0;
        let row = if o.yflip {
            height - 1 - shown_row
        } else {
            shown_row
        };
        let shown_column = x + 8 - o.x.0;
        let column = if o.xflip {
            7 - shown_column
        } else {
            shown_column
        };
        let tile = if height == 16 {
            (o.tile_index.0 / 2) * 2 + row / 8
        } else {
            o.tile_index.0 as int
        };
        let data = tile * 16 + (row % 8) * 2 + (if o.vram_bank {
            0x2000int
        } else {
            0
        });
        color_number(self.vram[data], self.vram[data + 1], column)
    }

    /// The pixel that the first `n` objects of the line show at column
    /// `x`: that of the first object in order that covers the column with
    /// a colour number other than zero.
    pub open spec fn object_pixel_among(self, x: int, n: int) -> Option<Pixel>
        decreases n,
    {
        if n <= 0 {
            None
        } else {
            match self.object_pixel_among(x, n - 1) {
                Some(pixel) => Some(pixel),
                None => {
                    let o = self.object(self.line_objects[n - 1] as int);
                    if o.covers_line(self.regs.ly.0 as int, self.regs.obj_size().rows())
                        && Self::object_covers(o, x) && self.object_color_number(o, x) != 0 {
                        Some(
                            palette_color(
                                self.ocram,
                                o.pallete as int,
                                self.object_color_number(o, x),
                            ),
                        )
                    } else {
                        None
                    }
                },
            }
        }
    }

    /// The object pixel that goes with the pixel fetched as number `f` of
    /// this line: none while objects are switched off and for the pixels
    /// that fine scrolling throws away.
    #[verifier::opaque]
    pub open spec fn object_pixel(self, f: int) -> Option<Pixel> {
        if self.regs.lcdc.bit(1) && f >= self.discard {
            self.object_pixel_among(f - self.discard, self.line_objects.len() as int)
        } else {
            None
        }
    }

    /// The state at the start of drawing a line: empty queues, nothing
    /// fetched, and the fine scroll noted.
    pub open spec fn line_started(self) -> PpuView {
        PpuView {
            bg_fifo: Seq::empty(),
            obj_fifo: Seq::empty(),
            fetched: 0,
            popped: 0,
            discard: self.regs.scx.0 % 8,
            ..self
        }
    }

    /// Whether the queues take the next eight pixels: they hold at most
    /// eight and the line is not fetched to its end.
    pub open spec fn refill_due(self) -> bool {
        self.bg_fifo.len() <= 8 && self.fetched <= LINE_FETCH - 8
    }

    /// The state with the next pixel fetched into the queues.
    pub open spec fn fetched_one(self) -> PpuView {
        PpuView {
            bg_fifo: self.bg_fifo.push(self.background_pixel(self.fetched as int)),
            obj_fifo: self.obj_fifo.push(self.object_pixel(self.fetched as int)),
            fetched: (self.fetched + 1) as u8,
            ..self
        }
    }

    /// The state with the next `n` pixels fetched into the queues.
    pub open spec fn fetched_more(self, n: int) -> PpuView
        decreases n,
    {
        if n <= 0 {
            self
        } else {
            self.fetched_more(n - 1).fetched_one()
        }
    }

    /// The state after the queues are refilled if that is due.
    pub open spec fn refilled(self) -> PpuView {
        if self.refill_due() {
            self.fetched_more(8)
        } else {
            self
        }
    }

    /// Whether a pixel leaves the queues at this dot: the latency is over,
    /// counting the pixels to be thrown away, and the queues are not
    /// empty.
    pub open spec fn emit_due(self) -> bool {
        self.line_dot + self.discard >= 92 && self.bg_fifo.len() > 0
    }

    /// The state after a pixel has left the queues: past the pixels that
    /// fine scrolling throws away it lands on the frame, the object's
    /// pixel if there is one, else the background's.
    pub open spec fn emitted(self) -> PpuView {
        if !self.emit_due() {
            self
        } else {
            let column = self.popped - self.discard;
            let pixel = match self.obj_fifo[0] {
                Some(p) => p,
                None => self.bg_fifo[0],
            };
            PpuView {
                bg_fifo: self.bg_fifo.subrange(1, self.bg_fifo.len() as int),
                obj_fifo: self.obj_fifo.subrange(1, self.obj_fifo.len() as int),
                popped: (self.popped + 1) as u8,
                frame: if 0 <= column < SCREEN_WIDTH {
                    self.frame.update(self.regs.ly.0 * SCREEN_WIDTH + column, pixel.packed())
                } else {
                    self.frame
                },
                ..self
            }
        }
    }

    /// The state after one dot of drawing.
    pub open spec fn drawn(self) -> PpuView {
        (if self.line_dot == 80 {
            self.line_started()
        } else {
            self
        }).refilled().emitted()
    }

    /// The state with the counters moved on by one dot and the mode set
    /// for the dot that follows. At the last dot of the last line the
    /// frame is complete: it goes to the slot, and the counters start
    /// again from zero.
    pub open spec fn advanced(self) -> PpuView {
        if self.frame_dot == FRAME_DOTS - 1 {
            PpuView {
                buffer: Some(self.frame),
                frame_dot: 0,
                line_dot: 0,
                regs: LcdRegisters { ly: Byte(0), ..self.regs }.with_mode(StatusMode::OAM),
                ..self
            }
        } else if self.line_dot == LINE_DOTS - 1 {
            PpuView {
                frame_dot: (self.frame_dot + 1) as u32,
                line_dot: 0,
                regs: LcdRegisters { ly: Byte((self.regs.ly.0 + 1) as u8), ..self.regs }.with_mode(
                    mode_at(self.regs.ly.0 + 1, 0),
                ),
                ..self
            }
        } else {
            PpuView {
                frame_dot: (self.frame_dot + 1) as u32,
                line_dot: (self.line_dot + 1) as u32,
                regs: self.regs.with_mode(mode_at(self.regs.ly.0 as int, self.line_dot + 1)),
                ..self
            }
        }
    }

    /// The state with the coincidence bit of STAT brought up to date.
    pub open spec fn compared(self) -> PpuView {
        PpuView { regs: self.regs.with_coincidence(), ..self }
    }

    /// The state after the work of the current dot: what the mode that
    /// the counters call for asks.
    pub open spec fn worked(self) -> PpuView {
        match mode_at(self.regs.ly.0 as int, self.line_dot as int) {
            StatusMode::OAM => self.scanned(),
            StatusMode::Draw => self.drawn(),
            StatusMode::HBlank => self,
            StatusMode::VBlank => self,
        }
    }

    /// The state one dot later.
    #[verifier::opaque]
    pub open spec fn stepped(self) -> PpuView {
        self.compared().worked().advanced()
    }
}

/// Widens a five-bit channel to eight bits.
fn widen(channel: u16) -> (out: u8)
    requires
        channel < 32,
    ensures
        out == widened(channel as int),
{
    (channel * 8 + channel / 4) as u8
}

/// Looks up colour `number` of palette `palette` in a palette memory.
fn read_palette(ram: &Vec<Byte>, palette: u8, number: u8) -> (out: Pixel)
    requires
        ram.len() == 64,
        palette < 8,
        number < 4,
    ensures
        out == palette_color(ram@, palette as int, number as int),
{
    let at: usize = palette as usize * 8 + number as usize * 2;
    let value: u16 = ram[at + 1].0 as u16 * 256 + ram[at].0 as u16;
    Pixel { r: widen(value % 32), g: widen((value / 32) % 32), b: widen((value / 1024) % 32) }
}

/// Works out the colour number of a column of a tile row.
fn read_color_number(low: Byte, high: Byte, column: u8) -> (out: u8)
    requires
        column < 8,
    ensures
        out == color_number(low, high, column as int),
        out < 4,
{
    let mut out: u8 = 0;
    if high.is_bit_set(7 - column) {
        out = out + 2;
    }
    if low.is_bit_set(7 - column) {
        out = out + 1;
    }
    out
}

impl PixelProcessor {
    /// Decodes record `i` of object memory.
    pub fn read_object(&self, i: u8) -> (out: ObjectAttribute)
        requires
            self.wf(),
            i < 40,
        ensures
            out == self@.object(i as int),
    {
        let at: usize = 4 * i as usize;
        ObjectAttribute::new(self.oam[at], self.oam[at + 1], self.oam[at + 2], self.oam[at + 3])
    }

    /// One dot of object scan.
    pub fn step_oam(&mut self)
        requires
            old(self).wf(),
        ensures
            final(self).wf(),
            final(self)@ == old(self)@.scanned(),
    {
        if self.line_dot_counter != 0 {
            return ;
        }
        let height = self.read_obj_size().height();
        let mut found: Vec<u8> = Vec::new();
        let mut i: u8 = 0;
        while i < 40
            invariant
                self.wf(),
                i <= 40,
                height == self@.regs.obj_size().rows(),
                found@ == self@.objects_on_line(i as int),
                found@.len() <= i,
                forall|k: int| 0 <= k < found@.len() ==> #[trigger] found@[k] < 40,
            decreases 40 - i,
        {
            if self.read_object(i).is_on_line(self.regs.ly.0, height) {
                found.push(i);
            }
            i = i + 1;
        }
        self.line_objects = found;
    }

    /// Fetches the background pixel that is number `f` of this line.
    fn fetch_background_pixel(&self, f: u8) -> (out: Pixel)
        requires
            self.wf(),
            f < LINE_FETCH,
        ensures
            out == self@.background_pixel(f as int),
    {
        reveal(PpuView::background_pixel);
        let x: usize = ((self.regs.scx.0 / 8) as usize * 8 + f as usize) % 256;
        let y: usize = (self.regs.ly.0 as usize + self.regs.scy.0 as usize) % 256;
        let base: usize = if self.regs.lcdc.is_bit_set(3) {
            0x1C00
        } else {
            0x1800
        };
        let cell: usize = base + (y / 8) * 32 + x / 8;
        let index = self.vram[cell];
        let attrs = TileAttributes::decode(self.vram[0x2000 + cell]);
        let row: usize = if attrs.vflip {
            7 - y % 8
        } else {
            y % 8
        };
        let column: usize = if attrs.hflip {
            7 - x % 8
        } else {
            x % 8
        };
        let start: usize = match self.read_tile_addressing_mode() {
            TileAddressingMode::Unsigned => index.0 as usize * 16,
            TileAddressingMode::Signed => (0x1000 + index.to_signed().0 as i32 * 16) as usize,
        };
        let data: usize = start + row * 2 + if attrs.vram_bank {
            0x2000
        } else {
            0
        };
        let number = read_color_number(self.vram[data], self.vram[data + 1], column as u8);
        read_palette(&self.bcram, attrs.palette, number)
    }

    /// Works out the colour number that object `o` shows at column `x` of
    /// the current line.
    fn read_object_color_number(&self, o: ObjectAttribute, x: u8) -> (out: u8)
        requires
            self.wf(),
            o.covers_line(self@.regs.ly.0 as int, self@.regs.obj_size().rows()),
            PpuView::object_covers(o, x as int),
        ensures
            out == self@.object_color_number(o, x as int),
            out < 4,
    {
        let height: usize = self.read_obj_size().height() as usize;
        let shown_row: usize = self.regs.ly.0 as usize + 16 - o.y.0 as usize;
        let row: usize = if o.yflip {
            height - 1 - shown_row
        } else {
            shown_row
        };
        let shown_column: usize = x as usize + 8 - o.x.0 as usize;
        let column: usize = if o.xflip {
            7 - shown_column
        } else {
            shown_column
        };
        let tile: usize = if height == 16 {
            (o.tile_index.0 as usize / 2) * 2 + row / 8
        } else {
            o.tile_index.0 as usize
        };
        let data: usize = tile * 16 + (row % 8) * 2 + if o.vram_bank {
            0x2000
        } else {
            0
        };
        read_color_number(self.vram[data], self.vram[data + 1], column as u8)
    }

    /// Looks for the object pixel at column `x` of the current line.
    fn find_object_pixel(&self, x: u8) -> (out: Option<Pixel>)
        requires
            self.wf(),
        ensures
            out == self@.object_pixel_among(x as int, self@.line_objects.len() as int),
    {
        let height = self.read_obj_size().height();
        let mut i: usize = 0;
        while i < self.line_objects.len()
            invariant
                self.wf(),
                i <= self.line_objects.len(),
                height == self@.regs.obj_size().rows(),
                self@.object_pixel_among(x as int, i as int) is None,
            decreases self.line_objects.len() - i,
        {
            let o = self.read_object(self.line_objects[i]);
            let covered = o.x.0 as u16 <= x as u16 + 8 && (x as u16) < o.x.0 as u16;
            if o.is_on_line(self.regs.ly.0, height) && covered {
                let number = self.read_object_color_number(o, x);
                if number != 0 {
                    let pixel = read_palette(&self.ocram, o.pallete, number);
                    proof {
                        self.lemma_object_pixel_found(x as int, i as int + 1);
                    }
                    return Some(pixel);
                }
            }
            i = i + 1;
        }
        None
    }

    /// Once an object pixel is found among the first `n` objects it stays
    /// the answer for all of them.
    proof fn lemma_object_pixel_found(&self, x: int, n: int)
        requires
            0 <= n <= self@.line_objects.len(),
            self@.object_pixel_among(x, n) is Some,
        ensures
            self@.object_pixel_among(x, self@.line_objects.len() as int)
                == self@.object_pixel_among(x, n),
        decreases self@.line_objects.len() - n,
    {
        if n < self@.line_objects.len() {
            self.lemma_object_pixel_found(x, n + 1);
        }
    }

    /// Fetches the object pixel that goes with the pixel fetched as number
    /// `f` of this line.
    fn fetch_object_pixel(&self, f: u8) -> (out: Option<Pixel>)
        requires
            self.wf(),
        ensures
            out == self@.object_pixel(f as int),
    {
        reveal(PpuView::object_pixel);
        if self.is_obj_enabled() && f >= self.discard {
            self.find_object_pixel(f - self.discard)
        } else {
            None
        }
    }

    /// Fetches the next pixel into the queues.
    fn fetch_pixel(&mut self)
        requires
            old(self).wf(),
            old(self)@.fetched < LINE_FETCH,
            old(self)@.bg_fifo.len() < 16,
        ensures
            final(self).wf(),
            final(self)@ == old(self)@.fetched_one(),
    {
        let background = self.fetch_background_pixel(self.fetched);
        let object = self.fetch_object_pixel(self.fetched);
        self.bg_fifo.push_back(background);
        self.obj_fifo.push_back(object);
        self.fetched = self.fetched + 1;
    }

    /// Fetches the next eight pixels into the queues if they have room.
    fn refill(&mut self)
        requires
            old(self).wf(),
        ensures
            final(self).wf(),
            final(self)@ == old(self)@.refilled(),
            final(self)@.regs == old(self)@.regs,
    {
        if self.bg_fifo.len() > 8 || self.fetched > LINE_FETCH - 8 {
            return ;
        }
        let ghost start = self@;
        let mut n: u8 = 0;
        while n < 8
            invariant
                n <= 8,
                start.refill_due(),
                self.wf(),
                self@ == start.fetched_more(n as int),
                self@.bg_fifo.len() == start.bg_fifo.len() + n,
                self@.fetched == start.fetched + n,
                self@.regs == start.regs,
            decreases 8 - n,
        {
            self.fetch_pixel();
            n = n + 1;
        }
    }

    /// Lets one pixel leave the queues if one is due.
    fn emit(&mut self)
        requires
            old(self).wf(),
            old(self)@.regs.ly.0 < 144,
        ensures
            final(self).wf(),
            final(self)@ == old(self)@.emitted(),
    {
        if self.line_dot_counter + (self.discard as u32) < 92 {
            return ;
        }
        let background = match self.bg_fifo.pop_front() {
            Some(p) => p,
            None => {
                return ;
            },
        };
        let object = self.obj_fifo.pop_front();
        let pixel = match object {
            Some(Some(p)) => p,
            _ => background,
        };
        if self.popped >= self.discard && ((self.popped - self.discard) as usize) < SCREEN_WIDTH {
            let at: usize = self.regs.ly.0 as usize * SCREEN_WIDTH + (self.popped
                - self.discard) as usize;
            self.frame.set(at, pixel.pack());
        }
        self.popped = self.popped + 1;
    }

    /// One dot of drawing.
    pub fn step_draw(&mut self)
        requires
            old(self).wf(),
            old(self)@.regs.ly.0 < 144,
        ensures
            final(self).wf(),
            final(self)@ == old(self)@.drawn(),
    {
        if self.line_dot_counter == 80 {
            self.bg_fifo.clear();
            self.obj_fifo.clear();
            self.fetched = 0;
            self.popped = 0;
            self.discard = self.regs.scx.0 % 8;
        }
        self.refill();
        self.emit();
    }

    /// Moves the counters on by one dot and sets the mode for the dot that
    /// follows; at the end of the frame hands the frame over.
    pub fn update_line_dot_count(&mut self)
        requires
            old(self).wf(),
        ensures
            final(self).wf(),
            final(self)@ == old(self)@.advanced(),
    {
        if self.frame_dot_counter == FRAME_DOTS - 1 {
            self.buffer = Some(self.frame.clone());
            self.frame_dot_counter = 0;
            self.line_dot_counter = 0;
            self.regs.ly = Byte(0);
            self.write_stat_mode(StatusMode::OAM);
        } else if self.line_dot_counter == LINE_DOTS - 1 {
            self.frame_dot_counter = self.frame_dot_counter + 1;
            self.line_dot_counter = 0;
            self.regs.ly = Byte(self.regs.ly.0 + 1);
            let mode = if self.regs.ly.0 >= 144 {
                StatusMode::VBlank
            } else {
                StatusMode::OAM
            };
            self.write_stat_mode(mode);
        } else {
            self.frame_dot_counter = self.frame_dot_counter + 1;
            self.line_dot_counter = self.line_dot_counter + 1;
            let mode = if self.regs.ly.0 >= 144 {
                StatusMode::VBlank
            } else if self.line_dot_counter < 80 {
                StatusMode::OAM
            } else if self.line_dot_counter < 252 {
                StatusMode::Draw
            } else {
                StatusMode::HBlank
            };
            self.write_stat_mode(mode);
        }
    }

    /// Advances the processor by one dot: brings the coincidence bit up to
    /// date, does the work of the dot, and moves the counters on.
    pub fn step(&mut self)
        requires
            old(self).wf(),
        ensures
            final(self).wf(),
            final(self)@ == old(self)@.stepped(),
    {
        reveal(PpuView::stepped);
        self.regs.stat.write_bit(2, self.regs.ly.0 == self.regs.lyc.0);
        if self.regs.ly.0 < 144 {
            if self.line_dot_counter < 80 {
                self.step_oam();
            } else if self.line_dot_counter < 252 {
                self.step_draw();
            }
        }
        self.update_line_dot_count();
    }
}

impl PpuView {
    /// The two dot counters and LY tell the same place in the frame.
    pub open spec fn counters_agree(self) -> bool {
        &&& self.line_dot < LINE_DOTS
        &&& self.frame_dot < FRAME_DOTS
        &&& self.frame_dot == self.regs.ly.0 * LINE_DOTS + self.line_dot
    }

    /// The state `n` dots later.
    pub open spec fn stepped_times(self, n: nat) -> PpuView
        decreases n,
    {
        if n == 0 {
            self
        } else {
            self.stepped().stepped_times((n - 1) as nat)
        }
    }
}

/// The mode that goes with a place in the frame, counted in dots from its
/// start.
pub open spec fn mode_in_frame(dot: int) -> StatusMode {
    mode_at(dot / 456, dot % 456)
}

/// Fetching pixels touches the queues alone.
proof fn lemma_fetch_keeps_counters(s: PpuView, n: int)
    ensures
        s.fetched_more(n).regs == s.regs,
        s.fetched_more(n).line_dot == s.line_dot,
        s.fetched_more(n).frame_dot == s.frame_dot,
        s.fetched_more(n).buffer == s.buffer,
        s.fetched_more(n).discard == s.discard,
    decreases n,
{
    if n > 0 {
        lemma_fetch_keeps_counters(s, n - 1);
    }
}

/// One dot moves the place in the frame on by one, from the last dot back
/// to the first; the counters stay in agreement; and the mode in STAT is,
/// after the step, the one that goes with the new place. The frame slot is
/// filled by the step from the last dot of the frame and by no other.
pub proof fn lemma_step_counters(s: PpuView)
    requires
        s.counters_agree(),
    ensures
        s.stepped().counters_agree(),
        s.stepped().frame_dot == (s.frame_dot + 1) % 70224,
        s.stepped().regs.mode() == mode_in_frame(s.stepped().frame_dot as int),
        s.frame_dot == 70223 ==> s.stepped().buffer is Some,
        s.frame_dot != 70223 ==> s.stepped().buffer == s.buffer,
{
    reveal(PpuView::stepped);
    let compared = s.compared();
    let started = if compared.line_dot == 80 {
        compared.line_started()
    } else {
        compared
    };
    lemma_fetch_keeps_counters(started, 8);
    let worked = compared.worked();
    assert(worked.regs == compared.regs);
    assert(worked.line_dot == s.line_dot && worked.frame_dot == s.frame_dot);
    assert(worked.buffer == s.buffer);
    assert(compared.regs.ly == s.regs.ly);
    let ly = s.regs.ly.0 as int;
    let dot = s.line_dot as int;
    assert(ly <= 153);
    assert((ly * 456 + dot) / 456 == ly && (ly * 456 + dot) % 456 == dot);
    if s.frame_dot == 70223 {
        assert(ly == 153 && dot == 455);
    } else if dot == 455 {
        assert(((ly + 1) * 456) / 456 == ly + 1 && ((ly + 1) * 456) % 456 == 0);
    } else {
        assert((ly * 456 + dot + 1) / 456 == ly && (ly * 456 + dot + 1) % 456 == dot + 1);
    }
}

/// Over any run of dots the pixel processor walks through the frame in
/// order: after `n` dots it is `n` places on, modulo the 70224 dots of a
/// frame, with the counters in agreement and, once it has stepped, with
/// the mode that goes with the place: on each of the 144 visible lines 80
/// dots of object scan, 172 of drawing and 204 of horizontal blank, then
/// ten lines of vertical blank.
pub proof fn lemma_dot_budget(s: PpuView, n: nat)
    requires
        s.counters_agree(),
    ensures
        s.stepped_times(n).counters_agree(),
        s.stepped_times(n).frame_dot == (s.frame_dot + n) % 70224,
        n > 0 ==> s.stepped_times(n).regs.mode() == mode_in_frame(
            s.stepped_times(n).frame_dot as int,
        ),
    decreases n,
{
    if n > 0 {
        lemma_step_counters(s);
        lemma_dot_budget(s.stepped(), (n - 1) as nat);
        let f = s.frame_dot as int;
        assert(((f + 1) % 70224 + (n - 1)) % 70224 == (f + n) % 70224) by {
            if f == 70223 {
                assert((f + n) % 70224 == (n - 1) % 70224) by {
                    assert(f + n == 70224 + (n - 1));
                    vstd::arithmetic::div_mod::lemma_mod_add_multiples_vanish(n - 1, 70224);
                }
            }
        }
        if n == 1 {
            assert(s.stepped().stepped_times(0) == s.stepped());
        }
    }
}

/// Any 70224 dots in a row make exactly one frame: the processor is back
/// at the place where it started, and of the 70224 steps exactly one, the
/// one taken from the last dot of the frame, completes a frame.
pub proof fn lemma_one_frame(s: PpuView, k: nat)
    requires
        s.counters_agree(),
        k < 70224,
    ensures
        s.stepped_times(70224).frame_dot == s.frame_dot,
        s.stepped_times(k).frame_dot == 70223 <==> k == 70223 - s.frame_dot,
        s.stepped_times(k).frame_dot == 70223 ==> s.stepped_times(k).stepped().buffer is Some,
{
    lemma_dot_budget(s, 70224);
    lemma_dot_budget(s, k);
    lemma_step_counters(s.stepped_times(k));
}

} // verus!
