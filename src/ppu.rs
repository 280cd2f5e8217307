use vstd::prelude::*;

verus! {

#[derive(Debug, Clone, Copy, PartialEq, Eq, Structural)]
pub enum PpuMode {
    HBlank,
    VBlank,
    OamSearch,
    PixelTransfer,
}

impl PpuMode {
    /// The mode number shown in STAT bits 1:0.
    pub open spec fn spec_bits(self) -> u8 {
        match self {
            PpuMode::HBlank => 0,
            PpuMode::VBlank => 1,
            PpuMode::OamSearch => 2,
            PpuMode::PixelTransfer => 3,
        }
    }

    pub fn bits(&self) -> (r: u8)
        ensures
            r == self.spec_bits(),
    {
        match self {
            PpuMode::HBlank => 0,
            PpuMode::VBlank => 1,
            PpuMode::OamSearch => 2,
            PpuMode::PixelTransfer => 3,
        }
    }
}

pub const SCREEN_W: usize = 160;
pub const SCREEN_H: usize = 144;
pub const VRAM_SIZE: usize = 8192;
pub const OAM_SIZE: usize = 160;
pub const LINE_CYCLES: u32 = 456;
pub const WHITE: u32 = 0xFFFFFFFF;

/// ARGB value of each of the four shades.
pub open spec fn shade_argb(shade: u8) -> u32 {
    if shade == 0 {
        0xFFE0F8D0
    } else if shade == 1 {
        0xFF88C070
    } else if shade == 2 {
        0xFF346856
    } else {
        0xFF081820
    }
}

/// ARGB value of colour id `id` under `palette` (two bits per id, id 0 in bits 1:0).
pub open spec fn color_of(palette: u8, id: u8) -> u32 {
    shade_argb((palette >> (id * 2)) & 0x03)
}

/// Colour id of pixel `bit` of a tile row given as its two bit planes.
pub open spec fn pixel_id(lo: u8, hi: u8, bit: u8) -> u8 {
    (((hi >> bit) & 1) * 2 + ((lo >> bit) & 1)) as u8
}

/// Mathematical state of the picture unit.
pub ghost struct PpuView {
    pub vram: Seq<u8>,
    pub oam: Seq<u8>,
    pub buffer: Seq<u32>,
    pub lcdc: u8,
    pub stat: u8,
    pub scy: u8,
    pub scx: u8,
    pub ly: u8,
    pub lyc: u8,
    pub bgp: u8,
    pub obp0: u8,
    pub obp1: u8,
    pub wy: u8,
    pub wx: u8,
    pub mode: PpuMode,
    pub cycle_accumulator: u32,
    pub stat_line: bool,
}

impl PpuView {
    pub open spec fn wf(self) -> bool {
        &&& self.vram.len() == VRAM_SIZE
        &&& self.oam.len() == OAM_SIZE
        &&& self.buffer.len() == SCREEN_W * SCREEN_H
        &&& self.cycle_accumulator < LINE_CYCLES
        &&& self.ly < 154
        &&& self.ly >= 144 ==> self.mode == PpuMode::VBlank
    }

    pub open spec fn lcd_on(self) -> bool {
        self.lcdc & 0x80 != 0
    }

    pub open spec fn read(self, addr: u16) -> u8 {
        if 0x8000 <= addr <= 0x9FFF {
            self.vram[addr - 0x8000]
        } else if 0xFE00 <= addr <= 0xFE9F {
            self.oam[addr - 0xFE00]
        } else if addr == 0xFF40 {
            self.lcdc
        } else if addr == 0xFF41 {
            (self.stat & 0xF8) | (if self.ly == self.lyc {
                0x04u8
            } else {
                0
            }) | self.mode.spec_bits() | 0x80
        } else if addr == 0xFF42 {
            self.scy
        } else if addr == 0xFF43 {
            self.scx
        } else if addr == 0xFF44 {
            self.ly
        } else if addr == 0xFF45 {
            self.lyc
        } else if addr == 0xFF47 {
            self.bgp
        } else if addr == 0xFF48 {
            self.obp0
        } else if addr == 0xFF49 {
            self.obp1
        } else if addr == 0xFF4A {
            self.wy
        } else if addr == 0xFF4B {
            self.wx
        } else {
            0xFF
        }
    }

    pub open spec fn write(self, addr: u16, v: u8) -> PpuView {
        if 0x8000 <= addr <= 0x9FFF {
            PpuView { vram: self.vram.update(addr - 0x8000, v), ..self }
        } else if 0xFE00 <= addr <= 0xFE9F {
            PpuView { oam: self.oam.update(addr - 0xFE00, v), ..self }
        } else if addr == 0xFF40 {
            if v & 0x80 == 0 {
                PpuView { lcdc: v, ly: 0, mode: PpuMode::HBlank, cycle_accumulator: 0, ..self }
            } else {
                PpuView { lcdc: v, ..self }
            }
        } else if addr == 0xFF41 {
            PpuView { stat: (self.stat & 0x07) | (v & 0xF8), ..self }
        } else if addr == 0xFF42 {
            PpuView { scy: v, ..self }
        } else if addr == 0xFF43 {
            PpuView { scx: v, ..self }
        } else if addr == 0xFF45 {
            PpuView { lyc: v, ..self }
        } else if addr == 0xFF47 {
            PpuView { bgp: v, ..self }
        } else if addr == 0xFF48 {
            PpuView { obp0: v, ..self }
        } else if addr == 0xFF49 {
            PpuView { obp1: v, ..self }
        } else if addr == 0xFF4A {
            PpuView { wy: v, ..self }
        } else if addr == 0xFF4B {
            PpuView { wx: v, ..self }
        } else {
            self
        }
    }

    /// VRAM offset of the background tile map.
    pub open spec fn bg_map_offset(self) -> int {
        if self.lcdc & 0x08 != 0 {
            0x1C00
        } else {
            0x1800
        }
    }

    /// VRAM offset of the 16-byte tile `idx` of the background tile data.
    pub open spec fn bg_tile_offset(self, idx: u8) -> int {
        if self.lcdc & 0x10 != 0 {
            idx * 16
        } else {
            0x1000 + (idx as i8) * 16
        }
    }

    /// Background colour id at screen column `x` of line LY.
    pub open spec fn bg_id(self, x: int) -> u8 {
        let bg_y = self.scy.wrapping_add(self.ly);
        let bg_x = self.scx.wrapping_add(x as u8);
        let idx = self.vram[self.bg_map_offset() + (bg_y / 8) * 32 + bg_x / 8];
        let addr = self.bg_tile_offset(idx) + (bg_y % 8) * 2;
        pixel_id(self.vram[addr], self.vram[addr + 1], (7 - bg_x % 8) as u8)
    }

    pub open spec fn sprite_height(self) -> int {
        if self.lcdc & 0x04 != 0 {
            16
        } else {
            8
        }
    }

    pub open spec fn sprite_y(self, i: int) -> int {
        self.oam[4 * i] - 16
    }

    pub open spec fn sprite_x(self, i: int) -> int {
        self.oam[4 * i + 1] - 8
    }

    pub open spec fn sprite_flags(self, i: int) -> u8 {
        self.oam[4 * i + 3]
    }

    /// Whether sprite `i` covers line LY.
    pub open spec fn sprite_on_line(self, i: int) -> bool {
        self.sprite_y(i) <= self.ly < self.sprite_y(i) + self.sprite_height()
    }

    /// Row of the (possibly flipped) sprite drawn on line LY, before 8x16 splitting.
    pub open spec fn sprite_row(self, i: int) -> int {
        let row = self.ly - self.sprite_y(i);
        if self.sprite_flags(i) & 0x40 != 0 {
            self.sprite_height() - 1 - row
        } else {
            row
        }
    }

    /// VRAM offset of the tile row of sprite `i` drawn on line LY.
    pub open spec fn sprite_row_offset(self, i: int) -> int {
        let tile = self.oam[4 * i + 2];
        let row = self.sprite_row(i);
        if self.sprite_height() == 16 {
            let t = tile & 0xFE;
            if row >= 8 {
                (t + 1) * 16 + (row - 8) * 2
            } else {
                t * 16 + row * 2
            }
        } else {
            tile * 16 + row * 2
        }
    }

    /// Colour id of column `col` (0..8) of sprite `i` on line LY.
    pub open spec fn sprite_id(self, i: int, col: int) -> u8 {
        let off = self.sprite_row_offset(i);
        let bit = if self.sprite_flags(i) & 0x20 != 0 {
            col
        } else {
            7 - col
        };
        pixel_id(self.vram[off], self.vram[off + 1], bit as u8)
    }

    /// Whether column `col` of sprite `i` is drawn over the background of line LY.
    pub open spec fn sprite_draws(self, i: int, col: int) -> bool {
        let x = self.sprite_x(i) + col;
        &&& self.sprite_on_line(i)
        &&& 0 <= x < SCREEN_W
        &&& self.sprite_id(i, col) != 0
        &&& !(self.sprite_flags(i) & 0x80 != 0 && self.bg_id(x) != 0)
    }

    pub open spec fn sprite_color(self, i: int, col: int) -> u32 {
        let pal = if self.sprite_flags(i) & 0x10 != 0 {
            self.obp1
        } else {
            self.obp0
        };
        color_of(pal, self.sprite_id(i, col))
    }

    /// `buf` with the first `n` columns of sprite `i` drawn on line LY.
    pub open spec fn sprite_cols(self, buf: Seq<u32>, i: int, n: int) -> Seq<u32> {
        Seq::new(
            buf.len(),
            |j: int|
                {
                    let col = j - self.ly * 160 - self.sprite_x(i);
                    if self.ly * 160 <= j < self.ly * 160 + 160 && 0 <= col < n
                        && self.sprite_draws(i, col) {
                        self.sprite_color(i, col)
                    } else {
                        buf[j]
                    }
                },
        )
    }

    /// `buf` with sprites `0..n` drawn on line LY in OAM order.
    pub open spec fn sprites_upto(self, buf: Seq<u32>, n: nat) -> Seq<u32>
        decreases n,
    {
        if n == 0 {
            buf
        } else {
            self.sprite_cols(self.sprites_upto(buf, (n - 1) as nat), n - 1, 8)
        }
    }

    /// `buf` with the first `n` background pixels of line LY drawn.
    pub open spec fn bg_cols(self, buf: Seq<u32>, n: int) -> Seq<u32> {
        Seq::new(
            buf.len(),
            |j: int|
                if self.ly * 160 <= j < self.ly * 160 + n {
                    color_of(self.bgp, self.bg_id(j - self.ly * 160))
                } else {
                    buf[j]
                },
        )
    }

    /// `buf` with the first `n` pixels of line LY white.
    pub open spec fn white_cols(self, buf: Seq<u32>, n: int) -> Seq<u32> {
        Seq::new(
            buf.len(),
            |j: int|
                if self.ly * 160 <= j < self.ly * 160 + n {
                    WHITE
                } else {
                    buf[j]
                },
        )
    }

    /// The frame buffer after line LY has been rendered.
    pub open spec fn drawn_buffer(self) -> Seq<u32> {
        if !self.lcd_on() {
            self.white_cols(self.buffer, 160)
        } else {
            let bg = self.bg_cols(self.buffer, 160);
            if self.lcdc & 0x02 != 0 {
                self.sprites_upto(bg, 40)
            } else {
                bg
            }
        }
    }

    pub proof fn lemma_sprites_len(self, buf: Seq<u32>, n: nat)
        ensures
            self.sprites_upto(buf, n).len() == buf.len(),
        decreases n,
    {
        if n > 0 {
            self.lemma_sprites_len(buf, (n - 1) as nat);
        }
    }

    /// Whether two states render a line alike: same memory and drawing registers.
    pub open spec fn same_render_inputs(self, other: PpuView) -> bool {
        &&& self.vram == other.vram
        &&& self.oam == other.oam
        &&& self.lcdc == other.lcdc
        &&& self.scy == other.scy
        &&& self.scx == other.scx
        &&& self.ly == other.ly
        &&& self.bgp == other.bgp
        &&& self.obp0 == other.obp0
        &&& self.obp1 == other.obp1
    }

    /// Sprite rendering reads only the memory and the drawing registers.
    pub proof fn lemma_sprites_ignore_buffer(self, other: PpuView, buf: Seq<u32>, n: nat)
        requires
            self.same_render_inputs(other),
        ensures
            self.sprites_upto(buf, n) == other.sprites_upto(buf, n),
        decreases n,
    {
        if n > 0 {
            self.lemma_sprites_ignore_buffer(other, buf, (n - 1) as nat);
            let prev = self.sprites_upto(buf, (n - 1) as nat);
            assert(self.sprite_cols(prev, n - 1, 8) =~= other.sprite_cols(prev, n - 1, 8));
        }
    }

    pub proof fn lemma_drawn_len(self)
        ensures
            self.drawn_buffer().len() == self.buffer.len(),
    {
        self.lemma_sprites_len(self.bg_cols(self.buffer, 160), 40);
    }

    pub open spec fn drawn(self) -> PpuView {
        PpuView { buffer: self.drawn_buffer(), ..self }
    }

    /// Mode, line and accumulator after `cycles` more T-cycles (LCD on), with
    /// the line rendered on entry to HBlank; and whether VBlank was entered.
    pub open spec fn advance(self, cycles: u8) -> (PpuView, bool) {
        let acc = self.cycle_accumulator + cycles;
        if self.ly >= 144 {
            if acc >= 456 {
                if self.ly + 1 >= 154 {
                    (
                        PpuView {
                            cycle_accumulator: (acc - 456) as u32,
                            ly: 0,
                            mode: PpuMode::OamSearch,
                            ..self
                        },
                        false,
                    )
                } else {
                    (
                        PpuView {
                            cycle_accumulator: (acc - 456) as u32,
                            ly: (self.ly + 1) as u8,
                            mode: PpuMode::VBlank,
                            ..self
                        },
                        false,
                    )
                }
            } else {
                (PpuView { cycle_accumulator: acc as u32, mode: PpuMode::VBlank, ..self }, false)
            }
        } else if acc < 80 {
            (PpuView { cycle_accumulator: acc as u32, mode: PpuMode::OamSearch, ..self }, false)
        } else if acc < 252 {
            (
                PpuView { cycle_accumulator: acc as u32, mode: PpuMode::PixelTransfer, ..self },
                false,
            )
        } else if acc < 456 {
            if self.mode != PpuMode::HBlank {
                (
                    PpuView {
                        cycle_accumulator: acc as u32,
                        mode: PpuMode::HBlank,
                        ..self
                    }.drawn(),
                    false,
                )
            } else {
                (PpuView { cycle_accumulator: acc as u32, ..self }, false)
            }
        } else if self.ly + 1 == 144 {
            (
                PpuView {
                    cycle_accumulator: (acc - 456) as u32,
                    ly: 144,
                    mode: PpuMode::VBlank,
                    ..self
                },
                true,
            )
        } else {
            (
                PpuView {
                    cycle_accumulator: (acc - 456) as u32,
                    ly: (self.ly + 1) as u8,
                    mode: PpuMode::OamSearch,
                    ..self
                },
                false,
            )
        }
    }

    /// Level of the STAT interrupt line.
    pub open spec fn stat_signal(self) -> bool {
        (self.ly == self.lyc && self.stat & 0x40 != 0) || (self.mode == PpuMode::OamSearch
            && self.stat & 0x20 != 0) || (self.mode == PpuMode::VBlank && self.stat & 0x10 != 0)
            || (self.mode == PpuMode::HBlank && self.stat & 0x08 != 0)
    }

    /// State after a tick of `cycles`, with the VBlank and STAT interrupt requests.
    pub open spec fn tick_spec(self, cycles: u8) -> (PpuView, bool, bool) {
        if !self.lcd_on() {
            (self, false, false)
        } else {
            let (p, vblank) = self.advance(cycles);
            let sig = p.stat_signal();
            (PpuView { stat_line: sig, ..p }, vblank, sig && !self.stat_line)
        }
    }
}

pub struct Ppu {
    pub vram: Vec<u8>,
    pub oam: Vec<u8>,
    /// 160x144 ARGB pixels, row by row.
    pub buffer: Vec<u32>,
    pub lcdc: u8,
    pub stat: u8,
    pub scy: u8,
    pub scx: u8,
    pub ly: u8,
    pub lyc: u8,
    pub bgp: u8,
    pub obp0: u8,
    pub obp1: u8,
    pub wy: u8,
    pub wx: u8,
    pub mode: PpuMode,
    pub cycle_accumulator: u32,
    pub stat_line: bool,
}

impl Ppu {
    pub open spec fn view(&self) -> PpuView {
        PpuView {
            vram: self.vram@,
            oam: self.oam@,
            buffer: self.buffer@,
            lcdc: self.lcdc,
            stat: self.stat,
            scy: self.scy,
            scx: self.scx,
            ly: self.ly,
            lyc: self.lyc,
            bgp: self.bgp,
            obp0: self.obp0,
            obp1: self.obp1,
            wy: self.wy,
            wx: self.wx,
            mode: self.mode,
            cycle_accumulator: self.cycle_accumulator,
            stat_line: self.stat_line,
        }
    }

    pub open spec fn wf(&self) -> bool {
        self.view().wf()
    }

    /// The power-on state.
    pub open spec fn new_spec() -> PpuView {
        PpuView {
            vram: Seq::new(VRAM_SIZE as nat, |i: int| 0u8),
            oam: Seq::new(OAM_SIZE as nat, |i: int| 0u8),
            buffer: Seq::new((SCREEN_W * SCREEN_H) as nat, |i: int| 0u32),
            lcdc: 0x91,
            stat: 0,
            scy: 0,
            scx: 0,
            ly: 0,
            lyc: 0,
            bgp: 0xFC,
            obp0: 0xFF,
            obp1: 0xFF,
            wy: 0,
            wx: 0,
            mode: PpuMode::OamSearch,
            cycle_accumulator: 0,
            stat_line: false,
        }
    }

    pub fn new() -> (r: Ppu)
        ensures
            r.wf(),
            r.view() == Self::new_spec(),
            r.vram@ == Seq::new(VRAM_SIZE as nat, |i: int| 0u8),
            r.oam@ == Seq::new(OAM_SIZE as nat, |i: int| 0u8),
            r.buffer@ == Seq::new((SCREEN_W * SCREEN_H) as nat, |i: int| 0u32),
            r.lcdc == 0x91 && r.stat == 0 && r.scy == 0 && r.scx == 0 && r.ly == 0,
            r.lyc == 0 && r.bgp == 0xFC && r.obp0 == 0xFF && r.obp1 == 0xFF,
            r.wy == 0 && r.wx == 0,
            r.mode == PpuMode::OamSearch,
            r.cycle_accumulator == 0,
            !r.stat_line,
    {
        let r = Ppu {
            vram: vec![0u8; VRAM_SIZE],
            oam: vec![0u8; OAM_SIZE],
            buffer: vec![0u32; SCREEN_W * SCREEN_H],
            lcdc: 0x91,
            stat: 0,
            scy: 0,
            scx: 0,
            ly: 0,
            lyc: 0,
            bgp: 0xFC,
            obp0: 0xFF,
            obp1: 0xFF,
            wy: 0,
            wx: 0,
            mode: PpuMode::OamSearch,
            cycle_accumulator: 0,
            stat_line: false,
        };
        assert(r.vram@ =~= Seq::new(VRAM_SIZE as nat, |i: int| 0u8));
        assert(r.oam@ =~= Seq::new(OAM_SIZE as nat, |i: int| 0u8));
        assert(r.buffer@ =~= Seq::new((SCREEN_W * SCREEN_H) as nat, |i: int| 0u32));
        r
    }

    pub fn read(&self, address: u16) -> (r: u8)
        requires
            self.wf(),
        ensures
            r == self.view().read(address),
    {
        if 0x8000 <= address && address <= 0x9FFF {
            self.vram[(address - 0x8000) as usize]
        } else if 0xFE00 <= address && address <= 0xFE9F {
            self.oam[(address - 0xFE00) as usize]
        } else if address == 0xFF40 {
            self.lcdc
        } else if address == 0xFF41 {
            (self.stat & 0xF8) | (if self.ly == self.lyc {
                0x04u8
            } else {
                0
            }) | self.mode.bits() | 0x80
        } else if address == 0xFF42 {
            self.scy
        } else if address == 0xFF43 {
            self.scx
        } else if address == 0xFF44 {
            self.ly
        } else if address == 0xFF45 {
            self.lyc
        } else if address == 0xFF47 {
            self.bgp
        } else if address == 0xFF48 {
            self.obp0
        } else if address == 0xFF49 {
            self.obp1
        } else if address == 0xFF4A {
            self.wy
        } else if address == 0xFF4B {
            self.wx
        } else {
            0xFF
        }
    }

    /// Writes a VRAM / OAM byte or a register. LY is read-only; clearing LCDC
    /// bit 7 switches the LCD off and resets LY, the mode and the accumulator.
    pub fn write(&mut self, address: u16, value: u8)
        requires
            old(self).wf(),
        ensures
            final(self).wf(),
            final(self).view() == old(self).view().write(address, value),
    {
        if 0x8000 <= address && address <= 0x9FFF {
            self.vram[(address - 0x8000) as usize] = value;
        } else if 0xFE00 <= address && address <= 0xFE9F {
            self.oam[(address - 0xFE00) as usize] = value;
        } else if address == 0xFF40 {
            self.lcdc = value;
            if (value & 0x80) == 0 {
                self.ly = 0;
                self.mode = PpuMode::HBlank;
                self.cycle_accumulator = 0;
            }
        } else if address == 0xFF41 {
            self.stat = (self.stat & 0x07) | (value & 0xF8);
        } else if address == 0xFF42 {
            self.scy = value;
        } else if address == 0xFF43 {
            self.scx = value;
        } else if address == 0xFF45 {
            self.lyc = value;
        } else if address == 0xFF47 {
            self.bgp = value;
        } else if address == 0xFF48 {
            self.obp0 = value;
        } else if address == 0xFF49 {
            self.obp1 = value;
        } else if address == 0xFF4A {
            self.wy = value;
        } else if address == 0xFF4B {
            self.wx = value;
        }
    }

    /// Advances the mode state machine by `cycles` T-cycles; returns the
    /// (VBlank, STAT) interrupt requests.
    pub fn tick(&mut self, cycles: u8) -> (r: (bool, bool))
        requires
            old(self).wf(),
        ensures
            final(self).wf(),
            (final(self).view(), r.0, r.1) == old(self).view().tick_spec(cycles),
    {
        if !self.is_lcd_enabled() {
            return (false, false);
        }
        let mut vblank_irq = false;
        self.cycle_accumulator = self.cycle_accumulator + cycles as u32;
        if self.ly >= 144 {
            self.mode = PpuMode::VBlank;
            if self.cycle_accumulator >= LINE_CYCLES {
                self.cycle_accumulator = self.cycle_accumulator - LINE_CYCLES;
                self.ly = self.ly + 1;
                if self.ly >= 154 {
                    self.ly = 0;
                    self.mode = PpuMode::OamSearch;
                }
            }
        } else if self.cycle_accumulator < 80 {
            self.mode = PpuMode::OamSearch;
        } else if self.cycle_accumulator < 252 {
            self.mode = PpuMode::PixelTransfer;
        } else if self.cycle_accumulator < LINE_CYCLES {
            if self.mode != PpuMode::HBlank {
                self.mode = PpuMode::HBlank;
                self.draw_scanline();
            }
        } else {
            self.cycle_accumulator = self.cycle_accumulator - LINE_CYCLES;
            self.ly = self.ly + 1;
            if self.ly == 144 {
                self.mode = PpuMode::VBlank;
                vblank_irq = true;
            } else {
                self.mode = PpuMode::OamSearch;
            }
        }
        let stat_signal = (self.ly == self.lyc && (self.stat & 0x40) != 0) || (self.mode
            == PpuMode::OamSearch && (self.stat & 0x20) != 0) || (self.mode == PpuMode::VBlank
            && (self.stat & 0x10) != 0) || (self.mode == PpuMode::HBlank && (self.stat & 0x08)
            != 0);
        let stat_irq = stat_signal && !self.stat_line;
        self.stat_line = stat_signal;
        (vblank_irq, stat_irq)
    }

    /// Renders line LY into the frame buffer: background, then sprites in OAM
    /// order; a white line when the LCD is off.
    pub fn draw_scanline(&mut self)
        requires
            old(self).wf(),
            old(self).ly < 144,
        ensures
            final(self).wf(),
            final(self).view() == old(self).view().drawn(),
    {
        let ghost v0 = self.view();
        let row: usize = self.ly as usize * SCREEN_W;
        proof {
            v0.lemma_drawn_len();
        }
        if !self.is_lcd_enabled() {
            assert(v0.white_cols(v0.buffer, 0) =~= v0.buffer);
            let mut x: usize = 0;
            while x < SCREEN_W
                invariant
                    x <= SCREEN_W,
                    row == v0.ly * 160,
                    v0.ly < 144,
                    v0.wf(),
                    self.view() == (PpuView { buffer: v0.white_cols(v0.buffer, x as int), ..v0 }),
                decreases SCREEN_W - x,
            {
                self.buffer[row + x] = WHITE;
                x = x + 1;
                assert(self.buffer@ =~= v0.white_cols(v0.buffer, x as int));
            }
            return;
        }
        let bg_y = self.scy.wrapping_add(self.ly);
        let map_base: usize = if (self.lcdc & 0x08) != 0 {
            0x1C00
        } else {
            0x1800
        };
        let mut bg_ids: Vec<u8> = Vec::new();
        let mut x: u8 = 0;
        assert(v0.bg_cols(v0.buffer, 0) =~= v0.buffer);
        while x < 160
            invariant
                x <= 160,
                row == v0.ly * 160,
                v0.wf(),
                v0.ly < 144,
                v0.lcd_on(),
                bg_y == v0.scy.wrapping_add(v0.ly),
                map_base == v0.bg_map_offset(),
                bg_ids@.len() == x,
                forall|k: int| 0 <= k < x ==> #[trigger] bg_ids@[k] == v0.bg_id(k),
                self.view() == (PpuView { buffer: v0.bg_cols(v0.buffer, x as int), ..v0 }),
            decreases 160 - x,
        {
            let bg_x = self.scx.wrapping_add(x);
            let map_address = map_base + (bg_y / 8) as usize * 32 + (bg_x / 8) as usize;
            let tile_index = self.vram[map_address];
            let data: usize = if (self.lcdc & 0x10) != 0 {
                tile_index as usize * 16
            } else {
                (0x1000i32 + (tile_index as i8) as i32 * 16) as usize
            };
            let address = data + (bg_y % 8) as usize * 2;
            let id = color_id(self.vram[address], self.vram[address + 1], 7 - bg_x % 8);
            let color = self.get_color(id, self.bgp);
            bg_ids.push(id);
            self.buffer[row + x as usize] = color;
            x = x + 1;
            assert(self.buffer@ =~= v0.bg_cols(v0.buffer, x as int));
        }
        if self.obj_enabled() {
            let ghost v1 = self.view();
            self.draw_sprites(&bg_ids);
            proof {
                v0.lemma_sprites_ignore_buffer(v1, v1.buffer, 40);
            }
        }
    }

    fn get_color(&self, color_id: u8, palette: u8) -> (r: u32)
        requires
            color_id < 4,
        ensures
            r == color_of(palette, color_id),
    {
        let shade = (palette >> (color_id * 2)) & 0x03;
        if shade == 0 {
            0xFFE0F8D0
        } else if shade == 1 {
            0xFF88C070
        } else if shade == 2 {
            0xFF346856
        } else {
            0xFF081820
        }
    }

    fn draw_sprites(&mut self, bg_ids: &Vec<u8>)
        requires
            old(self).wf(),
            old(self).view().lcd_on(),
            old(self).ly < 144,
            bg_ids@.len() == 160,
            forall|k: int| 0 <= k < 160 ==> #[trigger] bg_ids@[k] == old(self).view().bg_id(k),
        ensures
            final(self).view() == (PpuView {
                buffer: old(self).view().sprites_upto(old(self).buffer@, 40),
                ..old(self).view()
            }),
    {
        let ghost v0 = self.view();
        let height: i32 = if self.obj_size() {
            16
        } else {
            8
        };
        let line = self.ly as i32;
        let row_base: usize = self.ly as usize * SCREEN_W;
        let mut i: usize = 0;
        while i < 40
            invariant
                i <= 40,
                v0.wf(),
                v0.ly < 144,
                height == v0.sprite_height(),
                line == v0.ly,
                row_base == v0.ly * 160,
                bg_ids@.len() == 160,
                forall|k: int| 0 <= k < 160 ==> #[trigger] bg_ids@[k] == v0.bg_id(k),
                self.view() == (PpuView { buffer: v0.sprites_upto(v0.buffer, i as nat), ..v0 }),
            decreases 40 - i,
        {
            let offset = i * 4;
            let sprite_y = self.oam[offset] as i32 - 16;
            let sprite_x = self.oam[offset + 1] as i32 - 8;
            let mut tile_index = self.oam[offset + 2];
            let flags = self.oam[offset + 3];
            let priority_below_bg = (flags & 0x80) != 0;
            let y_flip = (flags & 0x40) != 0;
            let x_flip = (flags & 0x20) != 0;
            let palette = if (flags & 0x10) != 0 {
                self.obp1
            } else {
                self.obp0
            };
            let ghost before = self.buffer@;
            proof {
                v0.lemma_sprites_len(v0.buffer, i as nat);
            }
            if line >= sprite_y && line < sprite_y + height {
                let mut row_to_draw = line - sprite_y;
                if y_flip {
                    row_to_draw = height - 1 - row_to_draw;
                }
                if height == 16 {
                    assert(tile_index & 0xFE <= 254) by (bit_vector);
                    tile_index = tile_index & 0xFE;
                    if row_to_draw >= 8 {
                        tile_index = tile_index + 1;
                        row_to_draw = row_to_draw - 8;
                    }
                }
                let row_address = tile_index as usize * 16 + row_to_draw as usize * 2;
                assert(row_address == v0.sprite_row_offset(i as int));
                let byte1 = self.vram[row_address];
                let byte2 = self.vram[row_address + 1];
                let mut x: i32 = 0;
                assert(v0.sprite_cols(before, i as int, 0) =~= before);
                while x < 8
                    invariant
                        0 <= x <= 8,
                        i < 40,
                        v0.wf(),
                        v0.ly < 144,
                        row_base == v0.ly * 160,
                        sprite_x == v0.sprite_x(i as int),
                        v0.sprite_on_line(i as int),
                        byte1 == v0.vram[v0.sprite_row_offset(i as int)],
                        byte2 == v0.vram[v0.sprite_row_offset(i as int) + 1],
                        x_flip == (v0.sprite_flags(i as int) & 0x20 != 0),
                        priority_below_bg == (v0.sprite_flags(i as int) & 0x80 != 0),
                        palette == (if v0.sprite_flags(i as int) & 0x10 != 0 {
                            v0.obp1
                        } else {
                            v0.obp0
                        }),
                        bg_ids@.len() == 160,
                        forall|k: int| 0 <= k < 160 ==> #[trigger] bg_ids@[k] == v0.bg_id(k),
                        before == v0.sprites_upto(v0.buffer, i as nat),
                        before.len() == SCREEN_W * SCREEN_H,
                        self.view() == (PpuView {
                            buffer: v0.sprite_cols(before, i as int, x as int),
                            ..v0
                        }),
                    decreases 8 - x,
                {
                    let pixel_x = sprite_x + x;
                    if pixel_x >= 0 && pixel_x < 160 {
                        let bit_index: u8 = if x_flip {
                            x as u8
                        } else {
                            7 - x as u8
                        };
                        let id = color_id(byte1, byte2, bit_index);
                        let idx = row_base + pixel_x as usize;
                        if id != 0 && !(priority_below_bg && bg_ids[pixel_x as usize] != 0) {
                            let color = self.get_color(id, palette);
                            self.buffer[idx] = color;
                        }
                    }
                    x = x + 1;
                    assert(self.buffer@ =~= v0.sprite_cols(before, i as int, x as int));
                }
            } else {
                assert(self.buffer@ =~= v0.sprite_cols(before, i as int, 8));
            }
            i = i + 1;
        }
    }

    pub fn is_lcd_enabled(&self) -> (r: bool)
        ensures
            r == (self.lcdc & 0x80 != 0),
    {
        (self.lcdc & 0x80) != 0
    }

    pub fn window_tile_map_area(&self) -> (r: u16)
        ensures
            r == (if self.lcdc & 0x40 != 0 {
                0x9C00u16
            } else {
                0x9800u16
            }),
    {
        if (self.lcdc & 0x40) != 0 {
            0x9C00
        } else {
            0x9800
        }
    }

    pub fn is_window_enabled(&self) -> (r: bool)
        ensures
            r == (self.lcdc & 0x20 != 0),
    {
        (self.lcdc & 0x20) != 0
    }

    pub fn tile_data_area(&self) -> (r: u16)
        ensures
            r == (if self.lcdc & 0x10 != 0 {
                0x8000u16
            } else {
                0x8800u16
            }),
    {
        if (self.lcdc & 0x10) != 0 {
            0x8000
        } else {
            0x8800
        }
    }

    pub fn bg_tile_map_area(&self) -> (r: u16)
        ensures
            r == (if self.lcdc & 0x08 != 0 {
                0x9C00u16
            } else {
                0x9800u16
            }),
    {
        if (self.lcdc & 0x08) != 0 {
            0x9C00
        } else {
            0x9800
        }
    }

    /// True for 8x16 sprites.
    pub fn obj_size(&self) -> (r: bool)
        ensures
            r == (self.lcdc & 0x04 != 0),
    {
        (self.lcdc & 0x04) != 0
    }

    pub fn obj_enabled(&self) -> (r: bool)
        ensures
            r == (self.lcdc & 0x02 != 0),
    {
        (self.lcdc & 0x02) != 0
    }

    pub fn bg_window_enabled(&self) -> (r: bool)
        ensures
            r == (self.lcdc & 0x01 != 0),
    {
        (self.lcdc & 0x01) != 0
    }
}

/// Colour id of pixel `bit` of a tile row.
fn color_id(lo: u8, hi: u8, bit: u8) -> (r: u8)
    requires
        bit < 8,
    ensures
        r == pixel_id(lo, hi, bit),
        r < 4,
{
    let h = (hi >> bit) & 1;
    let l = (lo >> bit) & 1;
    assert(h <= 1 && l <= 1) by (bit_vector)
        requires
            h == (hi >> bit) & 1,
            l == (lo >> bit) & 1,
    ;
    h * 2 + l
}

/// Between ticks of at most 252 T-cycles, a visible line whose accumulator has
/// reached 252 is in HBlank.
pub open spec fn hblank_consistent(p: PpuView) -> bool {
    p.ly < 144 && 252 <= p.cycle_accumulator ==> p.mode == PpuMode::HBlank
}

/// LY stays below 154, lines 144.. are VBlank, and a visible line whose
/// accumulator is in 252..456 is in HBlank: every tick keeps these.
pub proof fn lemma_tick_keeps_mode_invariant(p: PpuView, cycles: u8)
    requires
        p.wf(),
        hblank_consistent(p),
        cycles <= 252,
    ensures
        p.tick_spec(cycles).0.wf(),
        p.tick_spec(cycles).0.ly < 154,
        p.tick_spec(cycles).0.ly >= 144 ==> p.tick_spec(cycles).0.mode == PpuMode::VBlank,
        hblank_consistent(p.tick_spec(cycles).0),
{
    p.lemma_drawn_len();
    PpuView { cycle_accumulator: (p.cycle_accumulator + cycles) as u32, mode: PpuMode::HBlank, ..p }.lemma_drawn_len();
}

/// On a visible line, the tick that enters HBlank renders the line, and
/// ticks that stay within HBlank leave the frame buffer as it is.
pub proof fn lemma_line_drawn_once(p: PpuView, cycles: u8)
    requires
        p.wf(),
        p.lcd_on(),
        p.ly < 144,
        252 <= p.cycle_accumulator + cycles < 456,
    ensures
        p.tick_spec(cycles).0.mode == PpuMode::HBlank,
        p.mode != PpuMode::HBlank ==> p.tick_spec(cycles).0.buffer == p.drawn_buffer(),
        p.mode == PpuMode::HBlank ==> p.tick_spec(cycles).0.buffer == p.buffer,
{
    let q = PpuView {
        cycle_accumulator: (p.cycle_accumulator + cycles) as u32,
        mode: PpuMode::HBlank,
        ..p
    };
    assert(q.bg_cols(q.buffer, 160) =~= p.bg_cols(p.buffer, 160));
    q.lemma_sprites_ignore_buffer(p, q.bg_cols(q.buffer, 160), 40);
}

/// Sum of a sequence of tick lengths.
pub open spec fn total_cycles(cs: Seq<u8>) -> int
    decreases cs.len(),
{
    if cs.len() == 0 {
        0
    } else {
        total_cycles(cs.drop_last()) + cs.last()
    }
}

/// The PPU after ticking by each of `cs` in turn, with the number of times
/// LY went back to 0 and the number of VBlank interrupts requested.
pub open spec fn run_ticks(p: PpuView, cs: Seq<u8>) -> (PpuView, nat, nat)
    decreases cs.len(),
{
    if cs.len() == 0 {
        (p, 0, 0)
    } else {
        let (q, wraps, vblanks) = run_ticks(p, cs.drop_last());
        let (r, vb, _) = q.tick_spec(cs.last());
        (
            r,
            wraps + (if r.ly == 0 && q.ly != 0 { 1nat } else { 0 }),
            vblanks + (if vb { 1nat } else { 0 }),
        )
    }
}

proof fn lemma_frame_prefix(p: PpuView, cs: Seq<u8>)
    requires
        p.wf(),
        p.lcd_on(),
        p.ly == 0,
        p.cycle_accumulator == 0,
        total_cycles(cs) <= 70224,
    ensures
        total_cycles(cs) >= 0,
        ({
            let (q, wraps, vblanks) = run_ticks(p, cs);
            let t = total_cycles(cs);
            &&& q.wf()
            &&& q.lcd_on()
            &&& t < 70224 ==> {
                &&& q.ly * 456 + q.cycle_accumulator == t
                &&& wraps == 0
                &&& vblanks == (if t >= 65664 { 1nat } else { 0 })
            }
            &&& t == 70224 ==> q.ly == 0 && q.cycle_accumulator == 0 && wraps == 1 && vblanks == 1
        }),
    decreases cs.len(),
{
    if cs.len() > 0 {
        let init = cs.drop_last();
        lemma_frame_prefix(p, init);
        let (q, w, v) = run_ticks(p, init);
        q.lemma_drawn_len();
        PpuView {
            cycle_accumulator: (q.cycle_accumulator + cs.last()) as u32,
            mode: PpuMode::HBlank,
            ..q
        }.lemma_drawn_len();
    }
}

/// From a reset, ticks that add up to one frame (70 224 T-cycles) bring LY
/// back to 0 exactly once and request exactly one VBlank interrupt.
pub proof fn lemma_one_frame(cs: Seq<u8>)
    requires
        total_cycles(cs) == 70224,
    ensures
        run_ticks(Ppu::new_spec(), cs).1 == 1,
        run_ticks(Ppu::new_spec(), cs).2 == 1,
        run_ticks(Ppu::new_spec(), cs).0.ly == 0,
{
    let p = Ppu::new_spec();
    assert(0x91u8 & 0x80 != 0) by (bit_vector);
    lemma_frame_prefix(p, cs);
}

/// From a reset, ticks that add up to 144 lines (65 664 T-cycles) end on
/// LY 144 having requested the VBlank interrupt exactly once.
pub proof fn lemma_vblank_at_line_144(cs: Seq<u8>)
    requires
        total_cycles(cs) == 65664,
    ensures
        run_ticks(Ppu::new_spec(), cs).2 == 1,
        run_ticks(Ppu::new_spec(), cs).0.ly == 144,
{
    let p = Ppu::new_spec();
    assert(0x91u8 & 0x80 != 0) by (bit_vector);
    lemma_frame_prefix(p, cs);
}

} // verus!
