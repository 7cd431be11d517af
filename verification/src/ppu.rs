use vstd::prelude::*;

verus! {

/// Highest video RAM offset; video RAM holds `VRAM_SIZE + 1` bytes.
pub const VRAM_SIZE: u16 = 0x1FFF;

pub const VBLANK: u8 = 1;
pub const HBLANK: u8 = 0;
pub const OAM_SCAN: u8 = 2;
pub const PIXEL_TRANSFER: u8 = 3;

/// Number of sprite entries in object attribute memory.
pub const MAX_OAM_ENTRIES: usize = 40;
/// Most sprites that one scanline shows.
pub const MAX_SPRITES_PER_LINE: usize = 10;
/// Visible pixels per scanline.
pub const SCREEN_WIDTH: usize = 160;
/// Visible scanlines.
pub const SCREEN_HEIGHT: usize = 144;
/// Clock cycles per scanline.
pub const CYCLES_PER_LINE: u16 = 456;
/// The pixel drawn where the LCD or the background is off.
pub const WHITE: u32 = 0xFFFFFFFF;

/// The opaque grey (as `0xAARRGGBB`) with `level` in every colour channel.
pub open spec fn argb_grey(level: u32) -> u32 {
    0xFF000000u32 | level << 16u32 | level << 8u32 | level
}

/// The grey level of a palette shade: white, light grey, dark grey, black.
pub open spec fn grey_level(shade: u8) -> u32 {
    if shade == 0 {
        255
    } else if shade == 1 {
        170
    } else if shade == 2 {
        85
    } else {
        0
    }
}

/// The shade (0-3) that palette `bgp` gives colour number `color_id` (0-3):
/// bits `2 * color_id` and `2 * color_id + 1`.
pub open spec fn shade_of(bgp: u8, color_id: u8) -> u8 {
    (bgp >> (2 * color_id) as u8) & 0x03
}

/// Bit `i` of byte `b`.
pub open spec fn bit_of(b: u8, i: u8) -> u8 {
    (b >> i) & 1
}

/// The address of row `row` of tile `index`: counted from `0x8000` with
/// unsigned indices when LCDC bit 4 is set, else from `0x9000` with signed ones.
pub open spec fn tile_data_address(lcdc: u8, index: u8, row: int) -> int {
    if lcdc & 0x10 != 0 {
        0x8000 + index * 16 + row * 2
    } else {
        0x9000 + (if index < 128 {
            index as int
        } else {
            index - 256
        }) * 16 + row * 2
    }
}

/// The contents of the picture unit, its memories taken as sequences.
pub struct PpuView {
    pub video_ram: Seq<u8>,
    pub frame_buffer: Seq<u32>,
    pub oam: Seq<u8>,
    pub scanline_sprites: Seq<usize>,
    pub mode: u8,
    pub ly: u8,
    pub ly_cycles: u16,
    pub stat: u8,
    pub lyc: u8,
    pub lcdc: u8,
    pub scy: u8,
    pub scx: u8,
    pub bgp: u8,
    pub obp0: u8,
    pub obp1: u8,
    pub wy: u8,
    pub wx: u8,
    pub window_line_counter: u8,
}

/// The picture processing unit: video RAM, object attribute memory, the LCD
/// registers and the frame buffer it draws into.
pub struct PPU {
    /// Graphic tiles and tile maps, `0x8000-0x9FFF`.
    pub video_ram: Vec<u8>,
    /// One `0xAARRGGBB` pixel per screen position, row after row.
    pub frame_buffer: Vec<u32>,
    pub mode: u8,
    /// Object attribute memory: which tiles build the moving objects.
    pub oam: Vec<u8>,
    pub ly: u8,
    pub ly_cycles: u16,
    pub stat: u8,
    pub lyc: u8,
    pub lcdc: u8,
    pub scy: u8,
    pub scx: u8,
    pub bgp: u8,
    pub obp0: u8,
    pub obp1: u8,
    pub wy: u8,
    pub wx: u8,
    pub window_line_counter: u8,
    /// OAM entries that the current scanline shows.
    pub scanline_sprites: Vec<usize>,
}

impl View for PPU {
    type V = PpuView;

    open spec fn view(&self) -> PpuView {
        PpuView {
            video_ram: self.video_ram@,
            frame_buffer: self.frame_buffer@,
            oam: self.oam@,
            scanline_sprites: self.scanline_sprites@,
            mode: self.mode,
            ly: self.ly,
            ly_cycles: self.ly_cycles,
            stat: self.stat,
            lyc: self.lyc,
            lcdc: self.lcdc,
            scy: self.scy,
            scx: self.scx,
            bgp: self.bgp,
            obp0: self.obp0,
            obp1: self.obp1,
            wy: self.wy,
            wx: self.wx,
            window_line_counter: self.window_line_counter,
        }
    }
}

impl PpuView {
    /// The memories have their sizes.
    pub open spec fn sized(self) -> bool {
        &&& self.video_ram.len() == VRAM_SIZE + 1
        &&& self.frame_buffer.len() == SCREEN_WIDTH * SCREEN_HEIGHT
        &&& self.oam.len() == 160
    }

    /// The unit at power-up: video RAM and OAM filled with `0xFF`, the frame
    /// buffer with `0x00FFFFFF`, no sprites listed, line 0 at cycle 0 in mode 0,
    /// `STAT` `0x85`, `LCDC` `0x91`, `BGP` `0xFC`, sprite palettes `0xFF`, every
    /// other register and the window line counter at 0.
    pub open spec fn is_power_up(self) -> bool {
        &&& self.sized()
        &&& forall|i: int| 0 <= i < self.video_ram.len() ==> self.video_ram[i] == 0xFF
        &&& forall|i: int| 0 <= i < self.frame_buffer.len() ==> self.frame_buffer[i] == 0x00FFFFFF
        &&& forall|i: int| 0 <= i < self.oam.len() ==> self.oam[i] == 0xFF
        &&& self.scanline_sprites == Seq::<usize>::empty()
        &&& self.mode == 0 && self.ly == 0 && self.ly_cycles == 0 && self.lyc == 0
        &&& self.stat == 0x85 && self.lcdc == 0x91 && self.scy == 0 && self.scx == 0
        &&& self.bgp == 0xFC && self.obp0 == 0xFF && self.obp1 == 0xFF
        &&& self.wy == 0 && self.wx == 0 && self.window_line_counter == 0
    }

    /// The memories have their sizes, and on visible lines the window line
    /// counter is at most the line number (0 on line 255, which wraps to line 0).
    pub open spec fn wf(self) -> bool {
        &&& self.sized()
        &&& self.ly < SCREEN_HEIGHT ==> self.window_line_counter <= self.ly
        &&& self.ly == 255 ==> self.window_line_counter == 0
    }

    /// Whether the CPU is locked out of video RAM: pixel transfer with the LCD on.
    pub open spec fn vram_locked(self) -> bool {
        self.mode == PIXEL_TRANSFER && self.lcdc & 0x80 != 0
    }

    /// Whether the CPU is locked out of OAM: OAM scan, or pixel transfer with the LCD on.
    pub open spec fn oam_locked(self) -> bool {
        self.mode == OAM_SCAN || self.vram_locked()
    }

    /// The value that `addr` reads as; locked memory reads as `0xFF`, and
    /// `STAT` shows the current mode in its low bits.
    pub open spec fn register(self, addr: u16) -> u8 {
        if 0x8000 <= addr <= 0x9FFF {
            if self.vram_locked() {
                0xFF
            } else {
                self.video_ram[addr - 0x8000]
            }
        } else if 0xFE00 <= addr <= 0xFE9F {
            if self.oam_locked() {
                0xFF
            } else {
                self.oam[addr - 0xFE00]
            }
        } else if addr == 0xFF40 {
            self.lcdc
        } else if addr == 0xFF41 {
            self.stat | self.mode
        } else if addr == 0xFF42 {
            self.scy
        } else if addr == 0xFF43 {
            self.scx
        } else if addr == 0xFF44 {
            self.ly
        } else if addr == 0xFF45 {
            self.lyc
        } else if addr == 0xFF47 {
            self.bgp
        } else if addr == 0xFF48 {
            self.obp0
        } else if addr == 0xFF49 {
            self.obp1
        } else if addr == 0xFF4A {
            self.wy
        } else {
            self.wx
        }
    }

    /// The unit after `value` is written at `addr`: locked memory ignores the
    /// write; `STAT` keeps only bits 2-6 of the value and the sprite palettes
    /// only bits 2-7.
    pub open spec fn written(self, addr: u16, value: u8) -> PpuView {
        if 0x8000 <= addr <= 0x9FFF {
            if self.vram_locked() {
                self
            } else {
                PpuView { video_ram: self.video_ram.update(addr - 0x8000, value), ..self }
            }
        } else if 0xFE00 <= addr <= 0xFE9F {
            if self.oam_locked() {
                self
            } else {
                PpuView { oam: self.oam.update(addr - 0xFE00, value), ..self }
            }
        } else if addr == 0xFF40 {
            PpuView { lcdc: value, ..self }
        } else if addr == 0xFF41 {
            PpuView { stat: value & 0x7C, ..self }
        } else if addr == 0xFF42 {
            PpuView { scy: value, ..self }
        } else if addr == 0xFF43 {
            PpuView { scx: value, ..self }
        } else if addr == 0xFF45 {
            PpuView { lyc: value, ..self }
        } else if addr == 0xFF47 {
            PpuView { bgp: value, ..self }
        } else if addr == 0xFF48 {
            PpuView { obp0: value & 0xFC, ..self }
        } else if addr == 0xFF49 {
            PpuView { obp1: value & 0xFC, ..self }
        } else if addr == 0xFF4A {
            PpuView { wy: value, ..self }
        } else {
            PpuView { wx: value, ..self }
        }
    }

    /// The colour of the tile-map pixel at (`px`, `py`) of the map at `map_base`.
    pub open spec fn tile_pixel(self, map_base: int, px: int, py: int) -> u32 {
        let index = self.video_ram[map_base + (py / 8) * 32 + px / 8 - 0x8000];
        let address = tile_data_address(self.lcdc, index, py % 8);
        let low = self.video_ram[address - 0x8000];
        let high = self.video_ram[address + 1 - 0x8000];
        let bit = (7 - px % 8) as u8;
        let color_id = (2 * bit_of(high, bit) + bit_of(low, bit)) as u8;
        argb_grey(grey_level(shade_of(self.bgp, color_id)))
    }

    /// Whether the background of this line is drawn: LCD and background enabled.
    pub open spec fn background_on(self) -> bool {
        self.lcdc & 0x80 != 0 && self.lcdc & 0x01 != 0
    }

    /// The first column the window covers.
    pub open spec fn window_start(self) -> u8 {
        if self.wx >= 7 {
            (self.wx - 7) as u8
        } else {
            0
        }
    }

    /// Whether the window covers column `x` of this line (given the background is drawn).
    pub open spec fn window_covers(self, x: int) -> bool {
        self.lcdc & 0x20 != 0 && self.ly >= self.wy && x >= self.window_start()
    }

    /// Whether the window shows anywhere on this line.
    pub open spec fn window_on_line(self) -> bool {
        self.background_on() && self.lcdc & 0x20 != 0 && self.ly >= self.wy && self.window_start()
            < SCREEN_WIDTH
    }

    /// The colour of column `x` of the current line: white when the LCD or the
    /// background is off; else the window pixel where the window covers it, and
    /// the scrolled background pixel elsewhere.
    pub open spec fn pixel(self, x: int) -> u32 {
        if !self.background_on() {
            WHITE
        } else if self.window_covers(x) {
            let map = if self.lcdc & 0x40 != 0 {
                0x9C00
            } else {
                0x9800
            };
            self.tile_pixel(map, x - self.window_start(), self.window_line_counter as int)
        } else {
            let map = if self.lcdc & 0x08 != 0 {
                0x9C00
            } else {
                0x9800
            };
            self.tile_pixel(map, (self.scx + x) % 256, (self.scy + self.ly) % 256)
        }
    }

    /// Whether OAM entry `i` lies on the current line, for sprites 16 lines
    /// tall when LCDC bit 2 is set and 8 otherwise.
    pub open spec fn sprite_on_line(self, i: int) -> bool {
        let top = self.oam[i * 4] - 16;
        let height: int = if self.lcdc & 0x04 != 0 {
            16
        } else {
            8
        };
        top <= self.ly && top + height > self.ly
    }

    /// The OAM entries among the first `n` that the current line shows: those
    /// on the line, in order, stopping at ten.
    pub open spec fn sprites_among(self, n: int) -> Seq<usize>
        decreases n,
    {
        if n <= 0 {
            Seq::empty()
        } else {
            let before = self.sprites_among(n - 1);
            if before.len() < MAX_SPRITES_PER_LINE && self.sprite_on_line(n - 1) {
                before.push((n - 1) as usize)
            } else {
                before
            }
        }
    }

    /// The OAM entries the current line shows; none when sprites are off (LCDC bit 1).
    pub open spec fn line_sprites(self) -> Seq<usize> {
        if self.lcdc & 0x02 == 0 {
            Seq::empty()
        } else {
            self.sprites_among(MAX_OAM_ENTRIES as int)
        }
    }

    /// The unit after drawing the current line: its row of the frame buffer
    /// holds `pixel(x)` for each column, the sprites of the line are listed, and
    /// the window line counter moves on when the window showed.
    pub open spec fn rendered(self) -> PpuView {
        let row = self.ly * SCREEN_WIDTH;
        PpuView {
            frame_buffer: Seq::new(
                self.frame_buffer.len(),
                |i: int|
                    if row <= i < row + SCREEN_WIDTH {
                        self.pixel(i - row)
                    } else {
                        self.frame_buffer[i]
                    },
            ),
            scanline_sprites: self.line_sprites(),
            window_line_counter: if self.window_on_line() {
                (self.window_line_counter + 1) as u8
            } else {
                self.window_line_counter
            },
            ..self
        }
    }

    /// The mode for the current point of the line, and whether entering it
    /// (when it changes) requests the `STAT` interrupt: VBlank from line 144,
    /// OAM scan for the first 80 cycles, pixel transfer until cycle 252, HBlank after.
    pub open spec fn mode_entered(self) -> (PpuView, u8) {
        let mode = if self.ly >= 144 {
            VBLANK
        } else if self.ly_cycles < 80 {
            OAM_SCAN
        } else if self.ly_cycles < 252 {
            PIXEL_TRANSFER
        } else {
            HBLANK
        };
        let enabled = if mode == VBLANK {
            self.stat & 0x10 != 0
        } else if mode == OAM_SCAN {
            self.stat & 0x20 != 0
        } else if mode == HBLANK {
            self.stat & 0x08 != 0
        } else {
            false
        };
        let request = if mode != self.mode && enabled {
            0x02u8
        } else {
            0u8
        };
        (PpuView { mode, ..self }, request)
    }

    /// One finished line: the line is drawn if visible, `LY` moves on (wrapping
    /// past 153 to 0, where the window line counter restarts), line 144
    /// requests VBlank, and `LY == LYC` sets the coincidence bit of `STAT`
    /// (requesting the `STAT` interrupt when bit 6 enables it) or clears it.
    pub open spec fn line_finished(self) -> (PpuView, u8) {
        let p0 = PpuView { ly_cycles: (self.ly_cycles - CYCLES_PER_LINE) as u16, ..self };
        let p1 = if self.ly < SCREEN_HEIGHT {
            p0.rendered()
        } else {
            p0
        };
        let ly = p1.ly.wrapping_add(1);
        let p2 = if ly > 153 {
            PpuView { ly: 0, window_line_counter: 0, ..p1 }
        } else {
            PpuView { ly, ..p1 }
        };
        let vblank = if p2.ly == 144 {
            0x01u8
        } else {
            0u8
        };
        if p2.ly == p2.lyc {
            let stat = p2.stat | 0x04;
            let request = if stat & 0x40 != 0 {
                0x02u8
            } else {
                0u8
            };
            (PpuView { stat, ..p2 }, vblank | request)
        } else {
            (PpuView { stat: p2.stat & !0x04u8, ..p2 }, vblank)
        }
    }

    /// Finishes every whole line in the elapsed cycles, collecting the
    /// interrupt requests.
    pub open spec fn lines_finished(self) -> (PpuView, u8)
        decreases self.ly_cycles,
    {
        if self.ly_cycles >= CYCLES_PER_LINE {
            let (next, request) = self.line_finished();
            let (last, more) = next.lines_finished();
            (last, request | more)
        } else {
            (self, 0)
        }
    }

    /// The unit after `cycles` clock cycles, and the interrupts they request:
    /// bit 0 VBlank, bit 1 `STAT`.
    pub open spec fn updated(self, cycles: u8) -> (PpuView, u8) {
        let (entered, request) = self.mode_entered();
        let (last, more) = PpuView {
            ly_cycles: (entered.ly_cycles + cycles) as u16,
            ..entered
        }.lines_finished();
        (last, request | more)
    }
}

/// The pixel that palette `bgp` gives colour number `color_id`.
fn palette_pixel(bgp: u8, color_id: u8) -> (pixel: u32)
    requires
        color_id < 4,
    ensures
        pixel == argb_grey(grey_level(shade_of(bgp, color_id))),
{
    let shade = match color_id {
        0 => (bgp & 0x03) as u32,
        1 => ((bgp >> 2u8) & 0x03) as u32,
        2 => ((bgp >> 4u8) & 0x03) as u32,
        _ => ((bgp >> 6u8) & 0x03) as u32,
    };
    assert((bgp >> 0u8) & 0x03 == bgp & 0x03 && bgp & 0x03 <= 3 && (bgp >> 2u8) & 0x03 <= 3 && (bgp >> 4u8) & 0x03 <= 3 && (bgp >> 6u8)
        & 0x03 <= 3) by (bit_vector);
    let pixel_color: u32 = match shade {
        0 => 255,  // White
        1 => 170,  // Light gray
        2 => 85,  // Dark gray
        _ => 0,  // Black
    };
    0xFF000000 | pixel_color << 16u32 | pixel_color << 8u32 | pixel_color
}

impl PPU {
    pub fn new() -> (ppu: Self)
        ensures
            ppu@.wf(),
            ppu@.is_power_up(),
    {
        Self {
            video_ram: vec![0xFF; VRAM_SIZE as usize + 1],
            frame_buffer: vec![0x00FFFFFFu32; 160 * 144],
            mode: 0,
            oam: vec![0xFF; 160],  // 160 bytes for OAM
            ly: 0,
            ly_cycles: 0,
            lyc: 0x00,
            stat: 0x85,
            lcdc: 0x91,
            scy: 0,
            scx: 0,
            bgp: 0xFC,
            obp0: 0xFF,
            obp1: 0xFF,
            wy: 0,
            wx: 0,
            window_line_counter: 0,
            scanline_sprites: Vec::new(),
        }
    }

    /// Whether `addr` can be read: video RAM, OAM, or one of the LCD registers
    /// `0xFF40-0xFF45` and `0xFF47-0xFF4B`.
    pub open spec fn is_readable(addr: u16) -> bool {
        ||| 0x8000 <= addr <= 0x9FFF
        ||| 0xFE00 <= addr <= 0xFE9F
        ||| 0xFF40 <= addr <= 0xFF45
        ||| 0xFF47 <= addr <= 0xFF4B
    }

    /// Whether `addr` can be written: as for reading, except `LY` (`0xFF44`).
    pub open spec fn is_writable(addr: u16) -> bool {
        PPU::is_readable(addr) && addr != 0xFF44
    }

    pub fn read_byte(&self, addr: u16) -> (value: u8)
        requires
            self@.sized(),
            PPU::is_readable(addr),
        ensures
            value == self@.register(addr),
    {
        match addr {
            0x8000..=0x9FFF => {
                if self.mode == PIXEL_TRANSFER && self.lcdc & 0x80 != 0 {
                    return 0xFF;
                }
                self.video_ram[(addr - 0x8000) as usize]
            },
            0xFE00..=0xFE9F => {
                if self.mode == OAM_SCAN || self.mode == PIXEL_TRANSFER && self.lcdc & 0x80 != 0 {
                    return 0xFF;
                }
                self.oam[(addr - 0xFE00) as usize]
            },
            0xFF40 => self.lcdc,
            0xFF41 => self.stat | self.mode,
            0xFF42 => self.scy,
            0xFF43 => self.scx,
            0xFF44 => self.ly,
            0xFF45 => self.lyc,
            0xFF47 => self.bgp,
            0xFF48 => self.obp0,
            0xFF49 => self.obp1,
            0xFF4A => self.wy,
            _ => self.wx,
        }
    }

    pub fn write_byte(&mut self, addr: u16, value: u8)
        requires
            old(self)@.sized(),
            PPU::is_writable(addr),
        ensures
            final(self)@ == old(self)@.written(addr, value),
    {
        match addr {
            0x8000..=0x9FFF => {
                if self.mode == PIXEL_TRANSFER && self.lcdc & 0x80 != 0 {
                    return;
                }
                self.video_ram[(addr - 0x8000) as usize] = value;
            },
            0xFE00..=0xFE9F => {
                if self.mode == OAM_SCAN || self.mode == PIXEL_TRANSFER && self.lcdc & 0x80 != 0 {
                    return;
                }
                self.oam[(addr - 0xFE00) as usize] = value;
            },
            0xFF40 => self.lcdc = value,
            0xFF41 => self.stat = value & 0x7C,  // only bits 2-6 are writable
            0xFF42 => self.scy = value,
            0xFF43 => self.scx = value,
            0xFF45 => self.lyc = value,
            0xFF47 => self.bgp = value,
            0xFF48 => self.obp0 = value & 0xFC,  // lower 2 bits are ignored
            0xFF49 => self.obp1 = value & 0xFC,  // lower 2 bits are ignored
            0xFF4A => self.wy = value,
            _ => self.wx = value,
        }
    }

    /// The colour of the tile-map pixel at (`px`, `py`) of the map at `map_base`.
    fn tile_pixel(&self, map_base: u16, px: u16, py: u16) -> (pixel: u32)
        requires
            self@.sized(),
            map_base == 0x9800 || map_base == 0x9C00,
            px < 256,
            py < 256,
        ensures
            pixel == self@.tile_pixel(map_base as int, px as int, py as int),
    {
        let tile_x = px / 8;
        let tile_y = py / 8;
        let tile_map_offset = map_base + (tile_y * 32 + tile_x);
        let tile_index = self.video_ram[tile_map_offset as usize - 0x8000];

        let tile_data = py % 8;
        let tile_addr = if self.lcdc & 0x10 != 0 {
            0x8000 + (tile_index as u16) * 16 + tile_data * 2
        } else {
            let signed = tile_index as i8 as i16;
            assert((tile_index < 128 ==> (tile_index as i8 as i16) == tile_index as i16) && (tile_index
                >= 128 ==> (tile_index as i8 as i16) == tile_index - 256)) by (bit_vector);
            let product: i16 = signed * 16;
            let offset = product as u16;
            let step: u16 = tile_data * 2;
            let addr = (0x9000u16).wrapping_add(offset).wrapping_add(step);
            proof {
                lemma_signed_tile_address(product, offset, step, addr);
            }
            addr
        };
        let byte_low = self.video_ram[tile_addr as usize - 0x8000];
        let byte_high = self.video_ram[(tile_addr + 1) as usize - 0x8000];

        let bit_index = (7 - (px % 8)) as u8;
        let color_id = ((byte_high >> bit_index) & 1) << 1u8 | ((byte_low >> bit_index) & 1);
        assert(((byte_high >> bit_index) & 1) << 1u8 | ((byte_low >> bit_index) & 1) == 2 * (
        (byte_high >> bit_index) & 1) + ((byte_low >> bit_index) & 1) && ((byte_high >> bit_index)
            & 1) <= 1 && ((byte_low >> bit_index) & 1) <= 1) by (bit_vector);
        palette_pixel(self.bgp, color_id)
    }

    /// Lists the OAM entries that the current line shows (see `line_sprites`).
    fn oam_scan(&mut self)
        requires
            old(self)@.sized(),
        ensures
            final(self)@ == (PpuView { scanline_sprites: old(self)@.line_sprites(), ..old(self)@ }),
    {
        self.scanline_sprites.clear();

        if self.lcdc & 0x02 == 0 {
            return;  // Sprites are disabled
        }

        let sprite_height: i16 = if self.lcdc & 0x04 != 0 {
            16
        } else {
            8
        };

        let mut i: usize = 0;
        while i < MAX_OAM_ENTRIES
            invariant_except_break
                self.scanline_sprites@ == old(self)@.sprites_among(i as int),
                self.scanline_sprites.len() < MAX_SPRITES_PER_LINE,
            invariant
                i <= MAX_OAM_ENTRIES,
                self@.sized(),
                self.lcdc & 0x02 != 0,
                self@ == (PpuView { scanline_sprites: self@.scanline_sprites, ..old(self)@ }),
                sprite_height as int == if self.lcdc & 0x04 != 0 {
                    16int
                } else {
                    8int
                },
            ensures
                self@ == (PpuView { scanline_sprites: old(self)@.line_sprites(), ..old(self)@ }),
            decreases MAX_OAM_ENTRIES - i,
        {
            let sprite_y = self.oam[i * 4] as i16 - 16;

            if sprite_y <= self.ly as i16 && sprite_y + sprite_height > self.ly as i16 {
                self.scanline_sprites.push(i);
                assert(self.scanline_sprites@ == old(self)@.sprites_among(i as int + 1));
                if self.scanline_sprites.len() >= 10 {
                    proof {
                        lemma_sprites_stop_at_ten(old(self)@, i as int + 1, MAX_OAM_ENTRIES as int);
                    }
                    break;  // Maximum 10 sprites per scanline
                }
            }
            i += 1;
        }
    }

    /// Draws the current line into the frame buffer (see `rendered`).
    pub fn render_scanline(&mut self)
        requires
            old(self)@.sized(),
            old(self).ly < SCREEN_HEIGHT,
            old(self)@.window_on_line() ==> old(self).window_line_counter < 255,
        ensures
            final(self)@ == old(self)@.rendered(),
    {
        let window_width: u8 = 160;
        let mut window_drawn = false;

        self.oam_scan();
        let ghost scanned = self@;
        let row = self.ly as usize * 160;

        let mut x: u8 = 0;
        while x < window_width
            invariant
                window_width == 160,
                x <= 160,
                old(self).ly < SCREEN_HEIGHT,
                row == old(self).ly * SCREEN_WIDTH,
                scanned == (PpuView { scanline_sprites: old(self)@.line_sprites(), ..old(self)@ }),
                self@.sized(),
                self@ == (PpuView { frame_buffer: self@.frame_buffer, ..scanned }),
                forall|i: int|
                    0 <= i < self.frame_buffer.len() ==> #[trigger] self.frame_buffer@[i] == if row
                        <= i < row + x {
                        old(self)@.pixel(i - row)
                    } else {
                        old(self).frame_buffer@[i]
                    },
                window_drawn == (old(self)@.window_on_line() && old(self)@.window_start() < x),
            decreases 160 - x,
        {
            let bg_map_y: u16 = (self.scy as u16 + self.ly as u16) % 256;
            let bg_map_x: u16 = (self.scx as u16 + x as u16) % 256;

            if self.lcdc & 0x80 == 0 {
                // LCD is off, fill with white
                self.frame_buffer[row + x as usize] = 0xFFFFFFFF;
                x += 1;
                continue;
            }
            if self.lcdc & 0x01 == 0 {
                // Background display is disabled, fill with white
                self.frame_buffer[row + x as usize] = 0xFFFFFFFF;
                x += 1;
                continue;
            }

            let bg_map = if self.lcdc & 0x08 != 0 {
                0x9C00
            } else {
                0x9800
            };
            let background = self.tile_pixel(bg_map, bg_map_x, bg_map_y);
            self.frame_buffer[row + x as usize] = background;

            let should_draw_at_position = self.lcdc & 0x20 != 0 && self.ly >= self.wy && x
                >= self.wx.saturating_sub(7);
            if should_draw_at_position {
                window_drawn = true;

                let win_x: u16 = (x - (self.wx.saturating_sub(7))) as u16;
                let win_y: u16 = self.window_line_counter as u16;
                let window_map = if self.lcdc & 0x40 != 0 {
                    0x9C00
                } else {
                    0x9800
                };
                let window = self.tile_pixel(window_map, win_x, win_y);
                self.frame_buffer[row + x as usize] = window;
            }
            x += 1;
        }

        if window_drawn {
            self.window_line_counter += 1;
        }
        assert(self.frame_buffer@ =~= old(self)@.rendered().frame_buffer);
    }

    /// Advances the unit by `cycles` clock cycles: sets the mode for the point
    /// of the line reached, then finishes each whole line elapsed (see
    /// `updated`). Returns the interrupts requested: bit 0 VBlank, bit 1 `STAT`.
    pub fn update_ly(&mut self, cycles: u8) -> (requests: u8)
        requires
            old(self)@.wf(),
            old(self).ly_cycles + cycles <= u16::MAX,
        ensures
            (final(self)@, requests) == old(self)@.updated(cycles),
            final(self)@.wf(),
    {
        let mut bitmask: u8 = 0;

        let mode_before = self.mode;

        if self.ly >= 144 {
            self.mode = VBLANK;
            if mode_before != self.mode {
                if self.stat & 0x10 != 0 {
                    bitmask |= 0x02;
                }
            }
        } else if self.ly_cycles < 80 {
            self.mode = OAM_SCAN;  // OAM scan
            if mode_before != self.mode {
                if self.stat & 0x20 != 0 {
                    bitmask |= 0x02;
                }
            }
        } else if self.ly_cycles < 252 {
            self.mode = PIXEL_TRANSFER;  // Pixel transfer
        } else {
            self.mode = HBLANK;  // HBlank
            if mode_before != self.mode {
                if self.stat & 0x08 != 0 {
                    bitmask |= 0x02;
                }
            }
        };
        proof {
            lemma_or_facts(0x02, 0, 0);
        }
        assert(self@ == old(self)@.mode_entered().0);
        assert(bitmask == old(self)@.mode_entered().1);

        self.ly_cycles += cycles as u16;
        let ghost start = self@;
        let ghost first = bitmask;
        proof {
            lemma_or_facts(first, 0, 0);
        }
        while self.ly_cycles >= 456
            invariant
                self@.wf(),
                (self@.lines_finished().0, bitmask | self@.lines_finished().1) == (
                start.lines_finished().0,
                first | start.lines_finished().1,
                ),
            decreases self.ly_cycles,
        {
            let ghost before = self@;
            let ghost before_mask = bitmask;
            self.ly_cycles -= 456;
            if self.ly < 144 {
                self.render_scanline();
            }
            self.ly = self.ly.wrapping_add(1);
            if self.ly > 153 {
                self.ly = 0;
                self.window_line_counter = 0;
            }

            let mut request: u8 = 0;
            if self.ly == 144 {
                request = 0x01;
            }

            // STAT coincidence flag and interrupt
            if self.ly == self.lyc {
                self.stat |= 0x04;
                if self.stat & 0x40 != 0 {
                    request |= 0x02;
                }
            } else {
                self.stat &= !0x04;
            }
            bitmask |= request;
            proof {
                let r = request;
                lemma_or_facts(0x02, 0, 0);
                lemma_or_facts(0x01, 0, 0);
                lemma_or_facts(0, 0, 0);
                assert((self@, request) == before.line_finished());
                lemma_or_facts(before_mask, r, self@.lines_finished().1);
            }
        }
        proof {
            lemma_or_facts(bitmask, 0, 0);
        }
        bitmask
    }
}

/// Once ten sprites are listed, looking at further OAM entries adds none.
proof fn lemma_sprites_stop_at_ten(view: PpuView, n: int, m: int)
    requires
        0 <= n <= m,
        view.sprites_among(n).len() >= MAX_SPRITES_PER_LINE,
    ensures
        view.sprites_among(m) == view.sprites_among(n),
    decreases m - n,
{
    if m > n {
        lemma_sprites_stop_at_ten(view, n, m - 1);
    }
}

/// The signed tile addressing of `0x9000` plus a 16-bit offset, added with
/// wrapping, lands where the signed sum does.
proof fn lemma_signed_tile_address(product: i16, offset: u16, step: u16, address: u16)
    requires
        -2048 <= product <= 2032,
        offset == product as u16,
        step < 16,
        address == (0x9000u16).wrapping_add(offset).wrapping_add(step),
    ensures
        address == 0x9000 + product + step,
{
    assert((product >= 0 ==> offset == product) && (product < 0 ==> offset == product + 0x10000))
        by (bit_vector)
        requires
            offset == product as u16,
    ;
}

proof fn lemma_or_facts(a: u8, b: u8, c: u8)
    by (bit_vector)
    ensures
        a | 0 == a,
        0 | a == a,
        (a | b) | c == a | (b | c),
{
}

/// Reading an LCD register right after writing it gives back the value, with
/// `STAT` keeping bits 2-6 (and showing the mode in bits 0-1) and the sprite
/// palettes keeping bits 2-7; unlocked video RAM and OAM give back the byte.
pub proof fn lemma_ppu_write_then_read(ppu: PpuView, addr: u16, value: u8)
    requires
        ppu.sized(),
        PPU::is_writable(addr),
    ensures
        addr == 0xFF40 || addr == 0xFF42 || addr == 0xFF43 || addr == 0xFF45 || addr == 0xFF47
            || addr == 0xFF4A || addr == 0xFF4B ==> ppu.written(addr, value).register(addr)
            == value,
        addr == 0xFF41 ==> ppu.written(addr, value).register(addr) == (value & 0x7C) | ppu.mode,
        addr == 0xFF48 || addr == 0xFF49 ==> ppu.written(addr, value).register(addr) == value
            & 0xFC,
        0x8000 <= addr <= 0x9FFF && !ppu.vram_locked() ==> ppu.written(addr, value).register(addr)
            == value,
        0xFE00 <= addr <= 0xFE9F && !ppu.oam_locked() ==> ppu.written(addr, value).register(addr)
            == value,
{
}

/// Finishing lines keeps `LY` within the 154 lines of a frame.
proof fn lemma_lines_keep_ly(ppu: PpuView)
    requires
        ppu.ly <= 153,
    ensures
        ppu.lines_finished().0.ly <= 153,
    decreases ppu.ly_cycles,
{
    if ppu.ly_cycles >= CYCLES_PER_LINE {
        lemma_lines_keep_ly(ppu.line_finished().0);
    }
}

/// Advancing the picture unit keeps `LY` within the 154 lines of a frame.
pub proof fn lemma_update_keeps_ly(ppu: PpuView, cycles: u8)
    requires
        ppu.ly <= 153,
    ensures
        ppu.updated(cycles).0.ly <= 153,
{
    let entered = ppu.mode_entered().0;
    lemma_lines_keep_ly(PpuView { ly_cycles: (entered.ly_cycles + cycles) as u16, ..entered });
}

/// The window is drawn from the tile map that LCDC bit 6 picks and the
/// background from the one that bit 3 picks: on a drawn line, a column that
/// the window covers shows the pixel of the window map (`0x9C00` when bit 6 is
/// set, `0x9800` when clear) at the window's own coordinates, whatever bit 3
/// says; any other column shows the scrolled pixel of the background map
/// (`0x9C00` when bit 3 is set, `0x9800` when clear), whatever bit 6 says.
pub proof fn lemma_tile_maps(view: PpuView, x: int)
    requires
        view.sized(),
        view.ly < SCREEN_HEIGHT,
        0 <= x < SCREEN_WIDTH,
        view.background_on(),
    ensures
        ({
            let at = view.ly * SCREEN_WIDTH + x;
            let shown = view.rendered().frame_buffer[at];
            let bit3_flipped = PpuView { lcdc: view.lcdc ^ 0x08, ..view };
            let bit6_flipped = PpuView { lcdc: view.lcdc ^ 0x40, ..view };
            &&& view.window_covers(x) ==> shown == view.tile_pixel(
                if view.lcdc & 0x40 != 0 { 0x9C00 } else { 0x9800 },
                x - view.window_start(),
                view.window_line_counter as int,
            )
            &&& view.window_covers(x) ==> bit3_flipped.rendered().frame_buffer[at] == shown
            &&& !view.window_covers(x) ==> shown == view.tile_pixel(
                if view.lcdc & 0x08 != 0 { 0x9C00 } else { 0x9800 },
                (view.scx + x) % 256,
                (view.scy + view.ly) % 256,
            )
            &&& !view.window_covers(x) ==> bit6_flipped.rendered().frame_buffer[at] == shown
        }),
{
    let l = view.lcdc;
    assert((l ^ 0x08) & 0x80 == l & 0x80 && (l ^ 0x08) & 0x01 == l & 0x01 && (l ^ 0x08) & 0x20 == l
        & 0x20 && (l ^ 0x08) & 0x10 == l & 0x10 && (l ^ 0x08) & 0x40 == l & 0x40 && (l ^ 0x40) & 0x80
        == l & 0x80 && (l ^ 0x40) & 0x01 == l & 0x01 && (l ^ 0x40) & 0x20 == l & 0x20 && (l ^ 0x40)
        & 0x10 == l & 0x10 && (l ^ 0x40) & 0x08 == l & 0x08) by (bit_vector);
    let at = view.ly * SCREEN_WIDTH + x;
    assert(0 <= at < view.frame_buffer.len()) by (nonlinear_arith)
        requires
            0 <= view.ly < SCREEN_HEIGHT,
            0 <= x < SCREEN_WIDTH,
            at == view.ly * SCREEN_WIDTH + x,
            view.frame_buffer.len() == SCREEN_WIDTH * SCREEN_HEIGHT,
    ;
}

/// A line lasts 456 clock cycles: advancing the unit by `cycles` from a point
/// inside a line moves the cycle count on modulo 456 and, when the line ends,
/// moves `LY` on to the next line (from line 153 back to line 0).
pub proof fn lemma_line_timing(ppu: PpuView, cycles: u8)
    requires
        ppu.ly <= 153,
        ppu.ly_cycles < CYCLES_PER_LINE,
    ensures
        ppu.updated(cycles).0.ly_cycles == (ppu.ly_cycles + cycles) % 456,
        ppu.updated(cycles).0.ly == if ppu.ly_cycles + cycles < 456 {
            ppu.ly
        } else if ppu.ly == 153 {
            0
        } else {
            (ppu.ly + 1) as u8
        },
{
    let total = ppu.ly_cycles + cycles;
    let entered = ppu.mode_entered().0;
    let start = PpuView { ly_cycles: total as u16, ..entered };
    if total < 456 {
        vstd::arithmetic::div_mod::lemma_small_mod(total as nat, 456);
        assert(start.lines_finished() == (start, 0u8));
    } else {
        vstd::arithmetic::div_mod::lemma_fundamental_div_mod_converse(total, 456, 1, total - 456);
        let next = start.line_finished().0;
        assert(next.ly_cycles == total - 456);
        assert(next.lines_finished() == (next, 0u8));
    }
}

/// Advancing the picture unit leaves video RAM, OAM and the palettes as they
/// were: drawing only reads them.
pub proof fn lemma_update_keeps_memory(ppu: PpuView, cycles: u8)
    ensures
        ppu.updated(cycles).0.video_ram == ppu.video_ram,
        ppu.updated(cycles).0.oam == ppu.oam,
        ppu.updated(cycles).0.bgp == ppu.bgp,
        ppu.updated(cycles).0.lcdc == ppu.lcdc,
{
    let entered = ppu.mode_entered().0;
    lemma_lines_keep_memory(PpuView { ly_cycles: (entered.ly_cycles + cycles) as u16, ..entered });
}

proof fn lemma_lines_keep_memory(ppu: PpuView)
    ensures
        ppu.lines_finished().0.video_ram == ppu.video_ram,
        ppu.lines_finished().0.oam == ppu.oam,
        ppu.lines_finished().0.bgp == ppu.bgp,
        ppu.lines_finished().0.lcdc == ppu.lcdc,
    decreases ppu.ly_cycles,
{
    if ppu.ly_cycles >= CYCLES_PER_LINE {
        lemma_lines_keep_memory(ppu.line_finished().0);
    }
}

} // verus!
