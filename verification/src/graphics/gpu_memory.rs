//! The PPU's memory and registers: VRAM, OAM, the LCD registers
//! 0xFF40 - 0xFF4B, the STAT interrupt line and the frame buffer.
// For the cgb specific io we will continue to write them to Io rather than here
use vstd::prelude::*;
use std::collections::VecDeque;
use super::oam_search::Sprite;

verus! {

pub const LCDC_REG: u16 = 0xFF40;
pub const STAT_REG: u16 = 0xFF41;  // LCD Status
pub const SCY_REG: u16 = 0xFF42;  // Used to scroll the background
pub const SCX_REG: u16 = 0xFF43;
pub const LY_REG: u16 = 0xFF44;
pub const LYC_REG: u16 = 0xFF45;
pub const BGP_REG: u16 = 0xFF47;  // Background Palette
pub const OBP0_REG: u16 = 0xFF48;  // Sprite Palette
pub const OBP1_REG: u16 = 0xFF49;  // Sprite Palette
pub const WY_REG: u16 = 0xFF4A;  // Top left coordinates of the window
pub const WX_REG: u16 = 0xFF4B;  // Think this is only important when drawing

pub const OAM_START: u16 = 0xFE00;
pub const OAM_END: u16 = 0xFE9F;
pub const VRAM_START: u16 = 0x8000;
pub const VRAM_END: u16 = 0x9FFF;
pub const PPUIO_START: u16 = 0xFF40;
pub const PPUIO_END: u16 = 0xFF4B;
pub const UNUSED_START: u16 = 0xFEA0;
pub const UNUSED_END: u16 = 0xFEFF;

pub const LY_MAX: u8 = 153;
pub const DMA_MAX_CYCLES: u16 = 159;

pub const BYTES_PER_PIXEL: usize = 4;
pub const NUM_PIXELS_X: usize = 160;
pub const NUM_PIXELS_Y: usize = 144;
pub const BYTES_PER_ROW: usize = 640;
pub const NUM_PIXEL_BYTES: usize = 92_160;
pub const VRAM_SIZE: usize = 8_192;
pub const OAM_SIZE: usize = 160;

/// A pixel as the bytes of the frame buffer hold it (BGRA).
pub type Color = [u8; 4];

/// The four shades of the display, lightest first.
pub open spec fn color_of(i: u8) -> Color {
    if i % 4 == 0 {
        [0xF0, 0xF8, 0xF8, 0xFF]
    } else if i % 4 == 1 {
        [0xD0, 0xDA, 0xE7, 0xFF]
    } else if i % 4 == 2 {
        [0x9E, 0x91, 0xE0, 0xFF]
    } else {
        [0x75, 0x6C, 0x91, 0xFF]
    }
}

/// The shade of color number `i` (0 - 3) of the palette register `p`.
pub open spec fn shade_of(p: u8, i: int) -> u8 {
    if i == 0 {
        p & 0x03
    } else if i == 1 {
        (p >> 2u8) & 0x03
    } else if i == 2 {
        (p >> 4u8) & 0x03
    } else {
        (p >> 6u8) & 0x03
    }
}

/// The four colors that the palette register `p` selects.
pub open spec fn palette_of(p: u8) -> [Color; 4] {
    [color_of(shade_of(p, 0)), color_of(shade_of(p, 1)), color_of(shade_of(p, 2)), color_of(
        shade_of(p, 3),
    )]
}

/// The shade of `i` (taken modulo 4).
pub fn palette_color(i: u8) -> (c: Color)
    ensures
        c == color_of(i),
{
    match i % 4 {
        0 => [0xF0, 0xF8, 0xF8, 0xFF],  // #F8F8F0
        1 => [0xD0, 0xDA, 0xE7, 0xFF],  // #E7DAD0
        2 => [0x9E, 0x91, 0xE0, 0xFF],  // #E0919E
        _ => [0x75, 0x6C, 0x91, 0xFF],  // #916C75
    }
}

/// The colors of palette register `p`.
fn palette(p: u8) -> (c: [Color; 4])
    ensures
        c == palette_of(p),
{
    [
        palette_color(p & 0x03),
        palette_color((p >> 2) & 0x03),
        palette_color((p >> 4) & 0x03),
        palette_color((p >> 6) & 0x03),
    ]
}

/// STAT interrupt sources: LYC=LY.
pub open spec fn lyc_source(stat: u8) -> bool {
    (stat & 0x40) == 0x40 && (stat & 0x04) == 0x04
}

/// STAT interrupt sources: mode 2.
pub open spec fn oam_source(stat: u8) -> bool {
    (stat & 0x20) == 0x20 && (stat & 0x03) == 0x02
}

/// STAT interrupt sources: mode 0.
pub open spec fn hblank_source(stat: u8) -> bool {
    (stat & 0x08) == 0x08 && (stat & 0x03) == 0x00
}

/// STAT interrupt sources: mode 1.
pub open spec fn vblank_source(stat: u8) -> bool {
    (stat & 0x10) == 0x10 && (stat & 0x03) == 0x01
}

/// The STAT interrupt line: some enabled source matches.
pub open spec fn stat_line(stat: u8) -> bool {
    lyc_source(stat) || oam_source(stat) || hblank_source(stat) || vblank_source(stat)
}

// Theres a lot of stuff. Clean it up? Split up?
pub struct GpuMemory {
    pub pixels: Vec<u8>,
    pub vram: Vec<u8>,  // 0x8000 - 0x9FFF
    pub oam: Vec<u8>,  // OAM 0xFE00 - 0xFE9F  40 sprites, each takes 4 bytes
    pub lcdc: u8,  // 0xFF40
    pub stat: u8,  // 0xFF41
    pub scy: u8,  // 0xFF42
    pub scx: u8,  // 0xFF43
    pub ly: u8,  // 0xFF44
    pub lyc: u8,  // 0xFF45
    pub dma: u8,  // 0xFF46
    pub bgp: u8,  // 0xFF47
    pub obp0: u8,  // 0xFF48
    pub obp1: u8,  // 0xFF49
    pub wy: u8,  // 0xFF4A
    pub wx: u8,  // 0xFF4B
    pub window_line_counter: u8,
    pub dma_transfer: bool,
    pub dma_cycles: usize,
    pub dma_delay_cycles: usize,
    pub stat_int: bool,
    pub stat_low_to_high: bool,
    pub vblank_int: bool,
    pub dmg_stat_quirk: Option<u8>,
    pub dmg_stat_quirk_delay: bool,
    pub sprite_list: Vec<Sprite>,
    pub bg_pixel_fifo: VecDeque<Color>,
    pub bg_colors: [Color; 4],
    pub obp0_colors: [Color; 4],
    pub obp1_colors: [Color; 4],
}

/// `g` after the STAT interrupt line is sampled: a rising edge is recorded
/// in `stat_low_to_high`.
pub open spec fn line_checked(g: GpuMemory) -> GpuMemory {
    let line = stat_line(g.stat);
    GpuMemory {
        stat_int: line,
        stat_low_to_high: g.stat_low_to_high || (!g.stat_int && line),
        ..g
    }
}

/// `g` with the LYC=LY flag (STAT bit 2) set to `equal`, then sampled.
pub open spec fn ly_flag_set(g: GpuMemory, equal: bool) -> GpuMemory {
    line_checked(
        GpuMemory { stat: if equal { g.stat | 0x04 } else { g.stat & 0xFB }, ..g },
    )
}

/// `g` after `data` is written to the PPU register at `addr`: STAT keeps
/// its mode and LYC flag bits, LY is read only, LYC is compared with LY at
/// once while the PPU runs, and a palette write also sets the colors it
/// selects (color 0 of a sprite palette stays white).
pub open spec fn ppu_written(g: GpuMemory, addr: u16, data: u8) -> GpuMemory {
    if addr == LCDC_REG {
        GpuMemory { lcdc: data, ..g }
    } else if addr == STAT_REG {
        line_checked(GpuMemory { stat: (0x80u8 | (data & 0xE8)) | (g.stat & 0x07), ..g })
    } else if addr == SCY_REG {
        GpuMemory { scy: data, ..g }
    } else if addr == SCX_REG {
        GpuMemory { scx: data, ..g }
    } else if addr == LY_REG {
        g
    } else if addr == LYC_REG {
        if g.spec_ppu_enabled() {
            ly_flag_set(GpuMemory { lyc: data, ..g }, data == g.ly)
        } else {
            GpuMemory { lyc: data, ..g }
        }
    } else if addr == BGP_REG {
        GpuMemory { bgp: data, bg_colors: palette_of(data), ..g }
    } else if addr == OBP0_REG {
        GpuMemory { obp0: data, obp0_colors: palette_of(data & 0xFC), ..g }
    } else if addr == OBP1_REG {
        GpuMemory { obp1: data, obp1_colors: palette_of(data & 0xFC), ..g }
    } else if addr == WY_REG {
        GpuMemory { wy: data, ..g }
    } else {
        GpuMemory { wx: data, ..g }
    }
}

impl GpuMemory {
    /// The buffers have their hardware sizes and LY stays on the 154 lines.
    pub open spec fn wf(&self) -> bool {
        &&& self.pixels@.len() == NUM_PIXEL_BYTES
        &&& self.vram@.len() == VRAM_SIZE
        &&& self.oam@.len() == OAM_SIZE
        &&& self.ly <= LY_MAX
    }

    /// The value of a PPU register as `read_ppu_io` gives it.
    pub open spec fn ppu_reg(&self, addr: u16) -> u8 {
        if addr == LCDC_REG {
            self.lcdc
        } else if addr == STAT_REG {
            self.stat
        } else if addr == SCY_REG {
            self.scy
        } else if addr == SCX_REG {
            self.scx
        } else if addr == LY_REG {
            self.ly
        } else if addr == LYC_REG {
            self.lyc
        } else if addr == BGP_REG {
            self.bgp
        } else if addr == OBP0_REG {
            self.obp0
        } else if addr == OBP1_REG {
            self.obp1
        } else if addr == WY_REG {
            self.wy
        } else {
            self.wx
        }
    }

    pub open spec fn spec_ppu_enabled(&self) -> bool {
        (self.lcdc & 0x80) == 0x80
    }

    /// The power-on state: blank memories, registers at 0, default colors.
    pub open spec fn is_fresh(&self) -> bool {
        &&& self.wf()
        &&& forall|i: int| 0 <= i < NUM_PIXEL_BYTES ==> #[trigger] self.pixels@[i] == 0
        &&& forall|i: int| 0 <= i < VRAM_SIZE ==> #[trigger] self.vram@[i] == 0
        &&& forall|i: int| 0 <= i < OAM_SIZE ==> #[trigger] self.oam@[i] == 0
        &&& self.lcdc == 0 && self.stat == 0 && self.scy == 0 && self.scx == 0
        &&& self.ly == 0 && self.lyc == 0 && self.dma == 0 && self.bgp == 0
        &&& self.obp0 == 0 && self.obp1 == 0 && self.wy == 0 && self.wx == 0
        &&& self.window_line_counter == 0
        &&& !self.stat_int && !self.stat_low_to_high && !self.vblank_int && !self.dma_transfer
        &&& self.dma_cycles == 0 && self.dma_delay_cycles == 0
        &&& self.dmg_stat_quirk.is_none() && !self.dmg_stat_quirk_delay
        &&& self.sprite_list@.len() == 0 && self.bg_pixel_fifo@.len() == 0
        &&& self.bg_colors == palette_of(0xE4) && self.obp0_colors == palette_of(0xE4)
        &&& self.obp1_colors == palette_of(0xE4)
    }

    pub fn new() -> (g: GpuMemory)
        ensures
            g.is_fresh(),
    {
        GpuMemory {
            pixels: vec![0; NUM_PIXEL_BYTES],
            vram: vec![0; VRAM_SIZE],
            oam: vec![0; OAM_SIZE],
            lcdc: 0,
            stat: 0,
            scy: 0,
            scx: 0,
            ly: 0,
            lyc: 0,
            dma: 0,
            bgp: 0,
            obp0: 0,
            obp1: 0,
            wy: 0,
            wx: 0,
            window_line_counter: 0,
            dma_transfer: false,
            dma_cycles: 0,
            dma_delay_cycles: 0,
            stat_int: false,
            stat_low_to_high: false,
            vblank_int: false,
            dmg_stat_quirk: None,
            dmg_stat_quirk_delay: false,
            sprite_list: Vec::new(),
            bg_pixel_fifo: VecDeque::new(),
            bg_colors: palette(0xE4),
            obp0_colors: palette(0xE4),
            obp1_colors: palette(0xE4),
        }
    }

    // This will only handle io related to ppu
    pub fn read_ppu_io(&self, addr: u16) -> (b: u8)
        requires
            PPUIO_START <= addr <= PPUIO_END,
            addr != 0xFF46,
        ensures
            b == self.ppu_reg(addr),
    {
        match addr {
            LCDC_REG => self.lcdc,
            STAT_REG => self.stat,
            SCY_REG => self.scy,
            SCX_REG => self.scx,
            LY_REG => self.ly,
            LYC_REG => self.lyc,
            BGP_REG => self.bgp,
            OBP0_REG => self.obp0,
            OBP1_REG => self.obp1,
            WY_REG => self.wy,
            _ => self.wx,
        }
    }

    /// Writes a PPU register. STAT keeps its mode and LYC flag bits; LY is
    /// read only; a palette write also sets the colors it selects.
    pub fn write_ppu_io(&mut self, addr: u16, data: u8)
        requires
            old(self).wf(),
            PPUIO_START <= addr <= PPUIO_END,
            addr != 0xFF46,
        ensures
            final(self).wf(),
            *final(self) == ppu_written(*old(self), addr, data),
    {
        match addr {
            LCDC_REG => self.lcdc = data,
            STAT_REG => {
                self.stat = 0x80 | (data & 0xE8) | (self.stat & 0x07);
                self.check_interrupt_sources();
            },
            SCY_REG => self.scy = data,
            SCX_REG => self.scx = data,
            LY_REG => {},  // read only
            LYC_REG => {
                self.lyc = data;
                if self.is_ppu_enabled() {
                    // https://github.com/Gekkio/mooneye-test-suite/blob/main/acceptance/ppu/stat_lyc_onoff.s#L56
                    let eq = self.ly_compare();
                    self.update_stat_ly(eq);
                }
            },
            BGP_REG => self.set_bg_palette(data),
            OBP0_REG => self.set_obp0_palette(data),
            OBP1_REG => self.set_obp1_palette(data),
            WY_REG => self.wy = data,
            _ => {
                // https://gbdev.io/pandocs/pixel_fifo.html#the-window  implement this eventually
                self.wx = data
            },
        }
    }

    /// Register values left behind by the DMG boot ROM.
    pub fn dmg_init(&mut self)
        requires
            old(self).wf(),
        ensures
            final(self).wf(),
            *final(self) == (GpuMemory {
                lcdc: 0x91,
                stat: 0x85,
                scy: 0,
                scx: 0,
                ly: 0,
                lyc: 0,
                dma: 0xFF,
                bgp: 0xFC,
                obp0: 0,
                obp1: 0,
                wy: 0,
                wx: 0,
                ..*old(self)
            }),
    {
        self.lcdc = 0x91;
        self.stat = 0x85;
        self.scy = 0x00;
        self.scx = 0x00;
        self.ly = 0x00;
        self.lyc = 0x00;
        self.dma = 0xFF;
        self.bgp = 0xFC;
        self.obp0 = 0x00;  // Unitialized (0x00 or 0xFF)
        self.obp1 = 0x00;  // Unitialized (0x00 or 0xFF)
        self.wy = 0x00;
        self.wx = 0x00;
    }

    /// Sets LY and updates the LYC=LY flag.
    pub fn set_ly(&mut self, val: u8)
        requires
            old(self).wf(),
            val <= LY_MAX,
        ensures
            final(self).wf(),
            *final(self) == ly_flag_set((GpuMemory { ly: val, ..*old(self) }), old(self).lyc == val),
    {
        self.ly = val;
        let eq = self.ly_compare();
        self.update_stat_ly(eq);
    }

    // Check should also occur when LCD is shut down and enabled again
    pub fn ly_compare(&self) -> (b: bool)
        ensures
            b == (self.lyc == self.ly),
    {
        self.lyc == self.ly
    }

    pub fn update_stat_ly(&mut self, equal: bool)
        ensures
            *final(self) == ly_flag_set(*old(self), equal),
    {
        if equal {
            self.stat = self.stat | 0b0000_0100;
        } else {
            self.stat = self.stat & 0b1111_1011;
        }
        self.check_interrupt_sources();
    }

    // Dont call this except on state transitions
    /// Sets the mode bits of STAT; entering mode 1 on line 144 raises the
    /// vblank interrupt.
    pub fn set_stat_mode(&mut self, mode: u8)
        requires
            mode < 4,
        ensures
            *final(self) == line_checked(
                (GpuMemory {
                    vblank_int: mode == 1 && old(self).ly == 144,
                    stat: (old(self).stat & 0xFC) | mode,
                    ..*old(self)
                }),
            ),
    {
        if mode == 0x01 && self.ly == 144 {
            self.vblank_int = true;
        } else {
            self.vblank_int = false;
        }
        self.stat = (self.stat & 0b1111_1100) | mode;  // Set the mode flag
        self.check_interrupt_sources();
    }

    // Only request interrupts on low to high
    pub fn check_interrupt_sources(&mut self)
        ensures
            *final(self) == line_checked(*old(self)),
    {
        let mut new_stat_int = false;

        if self.lyc_int_match() || self.oam_int_match() || self.hblank_int_match()
            || self.vblank_int_match() {
            new_stat_int = true;
        }
        if !self.stat_int && new_stat_int {
            // The actual interrupt will be requested in adv_cyles
            self.stat_low_to_high = true;
        }
        self.stat_int = new_stat_int;
    }

    pub fn lyc_int_match(&self) -> (b: bool)
        ensures
            b == lyc_source(self.stat),
    {
        let source = (self.stat & 0b0100_0000) == 0b0100_0000;
        let flag = (self.stat & 0b0000_0100) == 0b0000_0100;
        source && flag
    }

    pub fn oam_int_match(&self) -> (b: bool)
        ensures
            b == oam_source(self.stat),
    {
        let source = (self.stat & 0b0010_0000) == 0b0010_0000;
        let flag = (self.stat & 0b0000_0011) == 0b0000_0010;
        source && flag
    }

    pub fn hblank_int_match(&self) -> (b: bool)
        ensures
            b == hblank_source(self.stat),
    {
        let source = (self.stat & 0b0000_1000) == 0b0000_1000;
        let flag = (self.stat & 0b0000_0011) == 0b0000_0000;
        source && flag
    }

    pub fn vblank_int_match(&self) -> (b: bool)
        ensures
            b == vblank_source(self.stat),
    {
        let source = (self.stat & 0b0001_0000) == 0b0001_0000;
        let flag = (self.stat & 0b0000_0011) == 0b0000_0001;
        source && flag
    }

    pub fn get_lcd_mode(&self) -> (m: u8)
        ensures
            m == self.stat & 0x03,
    {
        self.stat & 0x03
    }

    fn set_bg_palette(&mut self, data: u8)
        ensures
            *final(self) == (GpuMemory { bgp: data, bg_colors: palette_of(data), ..*old(self) }),
    {
        self.bgp = data;
        self.bg_colors = palette(data);
    }

    fn set_obp0_palette(&mut self, data: u8)
        ensures
            *final(self) == (GpuMemory {
                obp0: data,
                obp0_colors: palette_of(data & 0xFC),
                ..*old(self)
            }),
    {
        self.obp0 = data;
        // For sprites color index 0 should be transparent
        self.obp0_colors = palette(data & 0xFC);
    }

    fn set_obp1_palette(&mut self, data: u8)
        ensures
            *final(self) == (GpuMemory {
                obp1: data,
                obp1_colors: palette_of(data & 0xFC),
                ..*old(self)
            }),
    {
        self.obp1 = data;
        // For sprites color index 0 should be transparent
        self.obp1_colors = palette(data & 0xFC);
    }

    // When bit 0 is cleared, the background and window become white (disabled)
    pub fn is_bgw_enabled(&self) -> (b: bool)
        ensures
            b == ((self.lcdc & 0x01) == 0x01),
    {
        (self.lcdc & 0x01) == 0x01
    }

    // Are sprites enabled or not (bit 1 of lcdc)
    pub fn is_spr_enabled(&self) -> (b: bool)
        ensures
            b == ((self.lcdc & 0x02) == 0x02),
    {
        (self.lcdc & 0x02) == 0x02
    }

    // Are sprites a single tile or 2 stacked vertically (bit 2 of lcdc)
    pub fn is_big_sprite(&self) -> (b: bool)
        ensures
            b == ((self.lcdc & 0x04) == 0x04),
    {
        (self.lcdc & 0x04) == 0x04
    }

    // Bit 3 controls what area to look for the bg tile map area
    // Returns the start and end address of vram containing the 32x32 tile map
    pub fn get_bg_tile_map(&self) -> (r: (u16, u16))
        ensures
            r == (if (self.lcdc & 0x08) == 0x08 { (0x9C00u16, 0x9FFFu16) } else { (
                0x9800u16,
                0x9BFFu16,
            ) }),
    {
        if (self.lcdc & 0x08) == 0x08 {
            (0x9C00, 0x9FFF)
        } else {
            (0x9800, 0x9BFF)
        }
    }

    // Bit4 of lcdc gives Background and Window Tile data area
    // 1 will mean indexing from 0x8000, and 0 will mean addressing from 0x8800
    // However 8800 addressing actually means indexing from 0x9000
    pub fn get_addr_mode_start(&self) -> (a: u16)
        ensures
            a == (if (self.lcdc & 0x10) == 0x10 { 0x8000u16 } else { 0x9000u16 }),
    {
        if (self.lcdc & 0x10) == 0x10 {
            0x8000
        } else {
            0x9000
        }
    }

    /// Bit 4 of LCDC: tiles are indexed unsigned from 0x8000.
    pub fn get_addr_mode(&self) -> (b: bool)
        ensures
            b == ((self.lcdc & 0x10) == 0x10),
    {
        (self.lcdc & 0x10) == 0x10
    }

    // Bit 5 controls whether the window is displayed or not.
    pub fn is_window_enabled(&self) -> (b: bool)
        ensures
            b == ((self.lcdc & 0x20) == 0x20),
    {
        (self.lcdc & 0x20) == 0x20
    }

    // Bit 6 controls what area to look for the window tile map area
    pub fn get_window_tile_map(&self) -> (r: (u16, u16))
        ensures
            r == (if (self.lcdc & 0x40) == 0x40 { (0x9C00u16, 0x9FFFu16) } else { (
                0x9800u16,
                0x9BFFu16,
            ) }),
    {
        if (self.lcdc & 0x40) == 0x40 {
            (0x9C00, 0x9FFF)
        } else {
            (0x9800, 0x9BFF)
        }
    }

    // LCD and PPU enabled when bit 7 of lcdc register is 1
    pub fn is_ppu_enabled(&self) -> (b: bool)
        ensures
            b == self.spec_ppu_enabled(),
    {
        (self.lcdc & 0x80) == 0x80
    }

    /// The scroll registers as `(x, y)`.
    pub fn get_scx_scy(&self) -> (r: (u8, u8))
        ensures
            r == (self.scx, self.scy),
    {
        (self.scx, self.scy)
    }

    pub fn get_window_pos(&self) -> (r: (u8, u8))
        ensures
            r == (self.wx, self.wy),
    {
        (self.wx, self.wy)
    }

    pub fn is_window_visible(&self) -> (b: bool)
        ensures
            b == (self.ly >= self.wy && self.ly < self.wy + 144 && self.wx <= 166 && self.wy
                <= 143),
    {
        (self.ly >= self.wy) && ((self.ly as u16) < (self.wy as u16) + 144) && (self.wx <= 166)
            && (self.wy <= 143)
    }

    /* Just to make some things cleaner elsewhere */
    pub fn ly(&self) -> (v: usize)
        ensures
            v == self.ly,
    {
        self.ly as usize
    }

    pub fn scx(&self) -> (v: usize)
        ensures
            v == self.scx,
    {
        self.scx as usize
    }

    pub fn scy(&self) -> (v: usize)
        ensures
            v == self.scy,
    {
        self.scy as usize
    }

    pub fn wx(&self) -> (v: usize)
        ensures
            v == self.wx,
    {
        self.wx as usize
    }

    pub fn wy(&self) -> (v: usize)
        ensures
            v == self.wy,
    {
        self.wy as usize
    }
}

} // verus!
