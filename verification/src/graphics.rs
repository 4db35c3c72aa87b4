//! The pixel processing unit: a state machine over the four PPU modes that
//! owns video memory, OAM and the LCD registers.
pub mod dma;
pub mod gpu_memory;
pub mod hblank;
pub mod lcdc;
pub mod oam_search;
pub mod picture_generation;
pub mod ppu;
pub mod vblank;

use vstd::prelude::*;
use crate::io::{Io, if_index};
use self::gpu_memory::{
    GpuMemory, line_checked, ly_flag_set, ppu_written, LCDC_REG, STAT_REG, PPUIO_START,
    PPUIO_END, VRAM_START, VRAM_END, OAM_START, OAM_END, UNUSED_START, UNUSED_END,
    NUM_PIXELS_X, VRAM_SIZE, OAM_SIZE,
};
use self::hblank::HBlank;
use self::oam_search::{OamSearch, MAX_CYCLES as OSEARCH_CYCLES, searched};
use self::picture_generation::{PictureGeneration, SCANLINE_CYCLES, pixel_of, tile_addr, dots_run};
use self::hblank::mode_entered;
use self::ppu::{PpuState, MODE_HBLANK, MODE_PICTGEN};
use self::vblank::{VBlank, MAX_VBLANK_CYCLES};

verus! {

pub const BYTES_PER_TILE: usize = 16;
pub const DMA_SRC_MUL: u16 = 0x0100;

pub struct Graphics {
    pub state: PpuState,
    pub gpu_data: GpuMemory,
    pub frame_ready: bool,
    pub cycles: usize,
}

/// The 64 color numbers of the 8x8 tile whose 16 bytes start at offset
/// `a` of `vram`, row by row: row `r` weaves bytes `2r` and `2r + 1`.
pub open spec fn tile_pixels(vram: Seq<u8>, a: int) -> Seq<u8> {
    Seq::new(64, |i: int| pixel_of(vram[a + 2 * (i / 8)], vram[a + 2 * (i / 8) + 1], i % 8))
}

/// Every address of the `len` bytes from `location` lies in VRAM, or in
/// OAM and the unused area after it.
pub open spec fn block_in_range(location: u16, len: int) -> bool {
    ||| VRAM_START <= location && location + len <= VRAM_END + 1
    ||| OAM_START <= location && location + len <= UNUSED_END + 1
}

/// `g` after the PPU is switched off: mode 0 with nothing left to wait,
/// LY back at 0, no STAT edge pending.
pub open spec fn ppu_disabled(g: Graphics) -> Graphics {
    let m = line_checked(
        GpuMemory {
            vblank_int: false,
            stat: (g.gpu_data.stat & 0xFC) | MODE_HBLANK,
            ..g.gpu_data
        },
    );
    let l = ly_flag_set(GpuMemory { ly: 0, ..m }, m.lyc == 0);
    Graphics {
        state: PpuState::HBlank(HBlank { cycles_counter: 0, cycles_to_run: 0 }),
        gpu_data: GpuMemory { stat_low_to_high: false, ..l },
        ..g
    }
}

/// IF after the PPU's pending STAT and vblank requests of `g` are raised.
pub open spec fn raised_if(flags: u8, g: GpuMemory) -> u8 {
    let f = if g.stat_low_to_high {
        flags | 0xE2
    } else {
        flags
    };
    if g.vblank_int {
        f | 0xE1
    } else {
        f
    }
}

/// The PPU after its pending requests are handed to IF, and after a STAT
/// write held back by the DMG quirk lands (one call after it was made).
pub open spec fn events_delivered(g: Graphics) -> Graphics {
    let cleared = GpuMemory { stat_low_to_high: false, vblank_int: false, ..g.gpu_data };
    let gpu = match g.gpu_data.dmg_stat_quirk {
        Some(v) => if !g.gpu_data.dmg_stat_quirk_delay {
            GpuMemory { dmg_stat_quirk: None, ..ppu_written(cleared, STAT_REG, v) }
        } else {
            GpuMemory { dmg_stat_quirk_delay: false, ..cleared }
        },
        None => cleared,
    };
    Graphics { gpu_data: gpu, frame_ready: g.frame_ready || g.gpu_data.vblank_int, ..g }
}

impl Graphics {
    /// `r` is the PPU after its modes ran `cycles` clock cycles from `old`,
    /// before the requests they made reach IF.
    pub open spec fn rendered(r: Graphics, old: Graphics, cycles: usize) -> bool {
        &&& r.wf()
        &&& r.cycles == (old.cycles + cycles) % (usize::MAX + 1)
        &&& r.frame_ready == old.frame_ready
        &&& Graphics::mode_moved(r, old, cycles)
        &&& Graphics::drawn(r, old, cycles)
        &&& r.gpu_data.vram == old.gpu_data.vram
        &&& r.gpu_data.oam == old.gpu_data.oam
    }

    /// `new`, `io_new` are the PPU and the I/O page `cycles` clock cycles
    /// after `old`, `io_old`: with the LCD off nothing moves; else the modes
    /// run, then the STAT and vblank requests they made are added to IF (a
    /// vblank marks the frame ready) and a held back STAT write lands.
    pub open spec fn ran(new: Graphics, old: Graphics, io_new: Io, io_old: Io, cycles: usize) -> bool {
        if !old.gpu_data.spec_ppu_enabled() {
            new == old && io_new == io_old
        } else {
            exists|r: Graphics|
                #[trigger] Graphics::rendered(r, old, cycles) && new == events_delivered(r)
                    && io_new.is_with_if(io_old, raised_if(io_old.ifired(), r.gpu_data))
        }
    }

    /// What the modes draw in `cycles` clock cycles: pixel transfer runs
    /// dot by dot as `dots_run` says (drawing into the frame), ending either
    /// mid line with every cycle spent or in HBlank once the line is
    /// complete; the other modes leave the frame as it was.
    pub open spec fn drawn(new: Graphics, old: Graphics, cycles: usize) -> bool {
        match old.state {
            PpuState::PictureGeneration(p) => {
                exists|ps: Seq<PictureGeneration>, gs: Seq<GpuMemory>|
                    #[trigger] dots_run(ps, gs, p, old.gpu_data) && ps.len() - 1 <= cycles && ({
                        let q = ps.last();
                        if q.push_x < NUM_PIXELS_X {
                            ps.len() - 1 == cycles && new.state == PpuState::PictureGeneration(q)
                                && new.gpu_data == gs.last()
                        } else {
                            new.gpu_data == mode_entered(gs.last(), MODE_HBLANK) && new.state
                                == PpuState::HBlank(
                                HBlank {
                                    cycles_counter: 0,
                                    cycles_to_run: if q.cycles_counter <= SCANLINE_CYCLES
                                        - OSEARCH_CYCLES {
                                        (SCANLINE_CYCLES - OSEARCH_CYCLES - q.cycles_counter) as usize
                                    } else {
                                        0
                                    },
                                },
                            )
                        }
                    })
            },
            _ => new.gpu_data.pixels@ == old.gpu_data.pixels@,
        }
    }

    /// How the PPU mode and LY move on in `cycles` clock cycles: OAM search
    /// scans the sprites and hands over to a fresh pixel transfer, which
    /// ends in HBlank; HBlank ends the line (into OAM search, or VBlank
    /// after line 143), and VBlank ends the frame back at line 0.
    pub open spec fn mode_moved(new: Graphics, old: Graphics, cycles: usize) -> bool {
        let ly = old.gpu_data.ly;
        match old.state {
            PpuState::OamSearch(o) => {
                &&& new.gpu_data.ly == ly
                &&& new.gpu_data.sprite_list@ == searched(
                    old.gpu_data.sprite_list@,
                    old.gpu_data,
                    (o.cycles_counter / 2) as int,
                    (cycles / 2) as nat,
                )
                &&& if o.cycles_counter + cycles < OSEARCH_CYCLES {
                    new.state == PpuState::OamSearch(
                        OamSearch { cycles_counter: (o.cycles_counter + cycles) as usize },
                    )
                } else {
                    new.state.is_fresh_pictgen()
                }
            },
            PpuState::PictureGeneration(_) => {
                &&& new.gpu_data.ly == ly
                &&& (new.state is PictureGeneration || new.state is HBlank)
            },
            PpuState::HBlank(h) => if h.cycles_counter + cycles < h.cycles_to_run {
                new.gpu_data.ly == ly && new.state == PpuState::HBlank(
                    HBlank { cycles_counter: (h.cycles_counter + cycles) as usize, ..h },
                )
            } else {
                &&& new.gpu_data.ly == ly + 1
                &&& new.gpu_data.ly < 144 ==> new.state == PpuState::OamSearch(
                    OamSearch { cycles_counter: 0 },
                )
                &&& new.gpu_data.ly == 144 ==> new.state == VBlank::entry_state()
            },
            PpuState::VBlank(v) => if v.cycles_counter + cycles >= MAX_VBLANK_CYCLES {
                new.gpu_data.ly == 0 && new.state == PpuState::OamSearch(
                    OamSearch { cycles_counter: 0 },
                )
            } else {
                new.state matches PpuState::VBlank(w) && w.cycles_counter == v.cycles_counter
                    + cycles
            },
            PpuState::Empty => new.state is Empty,
        }
    }

    /// Each mode's counters stay in range and LY agrees with the mode.
    pub open spec fn state_fits(&self) -> bool {
        match self.state {
            PpuState::OamSearch(o) => o.cycles_counter < OSEARCH_CYCLES && self.gpu_data.ly < 144,
            PpuState::PictureGeneration(p) => p.push_x < NUM_PIXELS_X && self.gpu_data.ly < 144,
            PpuState::HBlank(h) => {
                &&& self.gpu_data.ly < 144
                &&& h.cycles_to_run <= SCANLINE_CYCLES
                &&& h.cycles_counter <= SCANLINE_CYCLES
                &&& (h.cycles_counter < h.cycles_to_run || h.cycles_to_run == 0)
            },
            PpuState::VBlank(v) => v.fits(self.gpu_data.ly),
            PpuState::Empty => false,
        }
    }

    pub open spec fn wf(&self) -> bool {
        self.gpu_data.wf() && self.state_fits()
    }

    /// The CPU can reach VRAM in every mode but mode 3.
    pub open spec fn vram_open(&self) -> bool {
        !(self.state matches PpuState::PictureGeneration(_))
    }

    /// The CPU can reach OAM in modes 0 and 1.
    pub open spec fn oam_open(&self) -> bool {
        self.state matches PpuState::HBlank(_) || self.state matches PpuState::VBlank(_)
    }

    /// What the CPU reads at `addr` (VRAM, OAM or the unused area after it):
    /// 0xFF from a blocked memory, 0 from the unused area unless mode 2
    /// blocks it.
    pub open spec fn byte_at(&self, addr: u16) -> u8 {
        if VRAM_START <= addr <= VRAM_END {
            if self.vram_open() {
                self.gpu_data.vram@[addr - VRAM_START]
            } else {
                0xFF
            }
        } else if OAM_START <= addr <= OAM_END {
            if self.oam_open() {
                self.gpu_data.oam@[addr - OAM_START]
            } else {
                0xFF
            }
        } else if self.state matches PpuState::OamSearch(_) {
            0xFF
        } else {
            0
        }
    }

    /// `new` is `old` after the CPU wrote `data` at `addr`: the memory it
    /// names changes if the current mode lets the CPU in, nothing else does.
    pub open spec fn cpu_written(new: Graphics, old: Graphics, addr: u16, data: u8) -> bool {
        if VRAM_START <= addr <= VRAM_END && old.vram_open() {
            &&& new == Graphics { gpu_data: GpuMemory { vram: new.gpu_data.vram, ..old.gpu_data }, ..old }
            &&& new.gpu_data.vram@ == old.gpu_data.vram@.update(addr - VRAM_START, data)
        } else if OAM_START <= addr <= OAM_END && old.oam_open() {
            &&& new == Graphics { gpu_data: GpuMemory { oam: new.gpu_data.oam, ..old.gpu_data }, ..old }
            &&& new.gpu_data.oam@ == old.gpu_data.oam@.update(addr - OAM_START, data)
        } else {
            new == old
        }
    }

    pub open spec fn with_dma_transfer(self, b: bool) -> Graphics {
        Graphics { gpu_data: GpuMemory { dma_transfer: b, ..self.gpu_data }, ..self }
    }

    /// The PPU after a write of `data` to the LCD register `addr`: clearing
    /// LCDC bit 7 switches the PPU off; a STAT write outside mode 3 (or while
    /// LY == LYC) first writes 0xFF and holds the value back.
    pub open spec fn after_io_write(self, addr: u16, data: u8) -> Graphics {
        if addr == LCDC_REG {
            let g = Graphics { gpu_data: GpuMemory { lcdc: data, ..self.gpu_data }, ..self };
            if (data & 0x80) == 0x80 {
                g
            } else {
                ppu_disabled(g)
            }
        } else if addr == STAT_REG {
            let g = self.gpu_data;
            if (g.stat & 0x03) != MODE_PICTGEN || g.lyc == g.ly {
                Graphics {
                    gpu_data: ppu_written(
                        GpuMemory { dmg_stat_quirk: Some(data), dmg_stat_quirk_delay: true, ..g },
                        STAT_REG,
                        0xFF,
                    ),
                    ..self
                }
            } else {
                Graphics {
                    gpu_data: GpuMemory { dmg_stat_quirk: None, dmg_stat_quirk_delay: false, ..g },
                    ..self
                }
            }
        } else {
            Graphics { gpu_data: ppu_written(self.gpu_data, addr, data), ..self }
        }
    }

    pub fn new() -> (g: Graphics)
        ensures
            g.wf(),
            g.state == VBlank::init_state(),
            g.gpu_data.is_fresh(),
            !g.frame_ready && g.cycles == 0,
    {
        let mut gpu_mem = GpuMemory::new();
        let state = ppu::init(&mut gpu_mem);
        Graphics { state, gpu_data: gpu_mem, frame_ready: false, cycles: 0 }
    }
    // When ppu is not enabled we should be in hblank so these read/writes should always work
    pub fn read_byte(&self, addr: u16) -> (b: u8)
        requires
            self.wf(),
            VRAM_START <= addr <= VRAM_END || OAM_START <= addr <= UNUSED_END,
        ensures
            b == self.byte_at(addr),
    {
        match &self.state {
            PpuState::OamSearch(os) => os.read_byte(&self.gpu_data, addr),
            PpuState::PictureGeneration(pg) => pg.read_byte(&self.gpu_data, addr),
            PpuState::HBlank(hb) => hb.read_byte(&self.gpu_data, addr),
            PpuState::VBlank(vb) => vb.read_byte(&self.gpu_data, addr),
            PpuState::Empty => 0xFF,
        }
    }

    pub fn write_byte(&mut self, addr: u16, data: u8)
        requires
            old(self).wf(),
            VRAM_START <= addr <= VRAM_END || OAM_START <= addr <= UNUSED_END,
        ensures
            final(self).wf(),
            Graphics::cpu_written(*final(self), *old(self), addr, data),
    {
        match &mut self.state {
            PpuState::OamSearch(os) => os.write_byte(&mut self.gpu_data, addr, data),
            PpuState::PictureGeneration(pg) => pg.write_byte(&mut self.gpu_data, addr, data),
            PpuState::HBlank(hb) => hb.write_byte(&mut self.gpu_data, addr, data),
            PpuState::VBlank(vb) => vb.write_byte(&mut self.gpu_data, addr, data),
            PpuState::Empty => {},
        }
    }

    // I dont think anything stops dma from reading memory ranges above 0xDF9F so...
    /// A read by the DMA unit, which ignores the PPU mode. An address in
    /// the OAM range reads VRAM at the same offset.
    pub fn read_byte_for_dma(&self, addr: u16) -> (b: u8)
        requires
            self.gpu_data.wf(),
            VRAM_START <= addr <= VRAM_END || OAM_START <= addr <= UNUSED_END,
        ensures
            VRAM_START <= addr <= VRAM_END ==> b == self.gpu_data.vram@[addr - VRAM_START],
            OAM_START <= addr <= OAM_END ==> b == self.gpu_data.vram@[addr - OAM_START],
            UNUSED_START <= addr <= UNUSED_END ==> b == 0,
    {
        if addr >= VRAM_START && addr <= VRAM_END {
            self.gpu_data.vram[(addr - VRAM_START) as usize]
        } else if addr >= OAM_START && addr <= OAM_END {
            self.gpu_data.vram[(addr - OAM_START) as usize]
        } else {
            0x00
        }
    }

    // addr should be from 0 - 159 inclusive
    pub fn write_byte_for_dma(&mut self, addr: u16, data: u8)
        requires
            old(self).wf(),
            addr < 160,
        ensures
            final(self).wf(),
            *final(self) == (Graphics {
                gpu_data: GpuMemory { oam: final(self).gpu_data.oam, ..old(self).gpu_data },
                ..*old(self)
            }),
            final(self).gpu_data.oam@ == old(self).gpu_data.oam@.update(addr as int, data),
    {
        self.gpu_data.oam.set(addr as usize, data);
    }

    pub fn read_io_byte(&self, addr: u16) -> (b: u8)
        requires
            PPUIO_START <= addr <= PPUIO_END,
            addr != 0xFF46,
        ensures
            b == self.gpu_data.ppu_reg(addr),
    {
        self.gpu_data.read_ppu_io(addr)
    }

    /// Writes an LCD register. Clearing LCDC bit 7 switches the PPU off; a
    /// STAT write is subject to the DMG quirk.
    pub fn write_io_byte(&mut self, addr: u16, data: u8)
        requires
            old(self).wf(),
            PPUIO_START <= addr <= PPUIO_END,
            addr != 0xFF46,
        ensures
            final(self).wf(),
            *final(self) == old(self).after_io_write(addr, data),
    {
        if addr == LCDC_REG {
            self.gpu_data.write_ppu_io(addr, data);
            if !self.gpu_data.is_ppu_enabled() {
                self.disable_ppu();
            }  // Should I do anything when re-enabling?
        } else if addr == STAT_REG {
            // For 1 cycle write 0xFF and whatever resulting interrupts
            if self.stat_quirk(data) {
                self.gpu_data.write_ppu_io(addr, 0xFF);
            }
        } else {
            self.gpu_data.write_ppu_io(addr, data);
        }
    }

    /// Hands the pending STAT and vblank requests to IF (a vblank also marks
    /// the frame ready) and lets a held back STAT write land.
    pub fn deliver_events(&mut self, io: &mut Io)
        requires
            old(self).wf(),
            old(io).wf(),
        ensures
            final(self).wf(),
            final(io).wf(),
            *final(self) == events_delivered(*old(self)),
            final(io).is_with_if(*old(io), raised_if(old(io).ifired(), old(self).gpu_data)),
    {
        // Need to do it this way since no direct access to ifired from gpu_memory.rs
        if self.gpu_data.stat_low_to_high {
            io.request_stat_interrupt();
            self.gpu_data.stat_low_to_high = false;
        }
        // Its okay to check after every cycle since vblank_int is only set on the transition
        // to mode 1 and never afterwards. Thus its not possible that we accidently trigger two
        // vblank interrupts for a single vblank period as set_stat_mode(1) is never called again
        if self.gpu_data.vblank_int {
            io.request_vblank_interrupt();
            self.gpu_data.vblank_int = false;
            self.frame_ready = true;
        }
        // A STAT write held back by stat_quirk lands on the call after the
        // one that follows the write.
        match self.gpu_data.dmg_stat_quirk {
            Some(val) => {
                if !self.gpu_data.dmg_stat_quirk_delay {
                    self.gpu_data.write_ppu_io(STAT_REG, val);
                    self.gpu_data.dmg_stat_quirk = None;
                } else {
                    self.gpu_data.dmg_stat_quirk_delay = false;
                }
            },
            None => {},
        }
        proof {
            assert(final(io).io@ =~= old(io).io@.update(if_index(), raised_if(old(io).ifired(), old(self).gpu_data)));
        }
    }

    pub fn dmg_init(&mut self)
        requires
            old(self).wf(),
        ensures
            final(self).wf(),
            *final(self) == (Graphics {
                gpu_data: GpuMemory {
                    lcdc: 0x91,
                    stat: 0x85,
                    scy: 0,
                    scx: 0,
                    ly: 0,
                    lyc: 0,
                    dma: 0xFF,
                    bgp: 0xFC,
                    obp0: 0,
                    obp1: 0,
                    wy: 0,
                    wx: 0,
                    ..old(self).gpu_data
                },
                ..*old(self)
            }),
    {
        self.gpu_data.dmg_init();
    }

    // https://www.reddit.com/r/Gameboy/comments/a1c8h0/what_happens_when_a_gameboy_screen_is_disabled/
    pub fn disable_ppu(&mut self)
        requires
            old(self).gpu_data.wf(),
        ensures
            final(self).wf(),
            *final(self) == ppu_disabled(*old(self)),
    {
        // Supposed to have an internal clock for LCD that also gets reset to 0?
        self.state = ppu::disable(&mut self.gpu_data);
        self.gpu_data.set_ly(0);
        self.gpu_data.stat_low_to_high = false;  // Just in case
    }

    /// On the DMG a STAT write outside mode 3, or while LY == LYC, first
    /// writes 0xFF for a cycle: the value is held back and `true` returned.
    pub fn stat_quirk(&mut self, data: u8) -> (b: bool)
        ensures
            b == ((old(self).gpu_data.stat & 0x03) != MODE_PICTGEN || old(self).gpu_data.lyc
                == old(self).gpu_data.ly),
            *final(self) == (Graphics {
                gpu_data: GpuMemory {
                    dmg_stat_quirk: if b { Some(data) } else { None },
                    dmg_stat_quirk_delay: b,
                    ..old(self).gpu_data
                },
                ..*old(self)
            }),
    {
        let mode = self.gpu_data.get_lcd_mode();
        let st = self.gpu_data.stat;
        assert(st & 0x03 <= 3) by (bit_vector);
        if self.gpu_data.ly_compare() || mode == 2 || mode == 1 || mode == 0 {
            self.gpu_data.dmg_stat_quirk = Some(data);
            self.gpu_data.dmg_stat_quirk_delay = true;
            true
        } else {
            self.gpu_data.dmg_stat_quirk = None;
            self.gpu_data.dmg_stat_quirk_delay = false;
            false
        }
    }

    pub fn dma_transfer_active(&self) -> (b: bool)
        ensures
            b == self.gpu_data.dma_transfer,
    {
        self.gpu_data.dma_transfer
    }

    pub fn set_dma_transfer(&mut self, active: bool)
        ensures
            *final(self) == old(self).with_dma_transfer(active),
    {
        self.gpu_data.dma_transfer = active;
    }

    pub fn stop_dma_transfer(&mut self)
        ensures
            *final(self) == (Graphics {
                gpu_data: GpuMemory { dma_transfer: false, dma_cycles: 0, ..old(self).gpu_data },
                ..*old(self)
            }),
    {
        self.gpu_data.dma_transfer = false;
        self.gpu_data.dma_cycles = 0;
    }

    pub fn get_dma_src(&self) -> (a: u16)
        ensures
            a == self.gpu_data.dma * 0x100,
    {
        (self.gpu_data.dma as u16) * DMA_SRC_MUL
    }

    pub fn dma_cycles(&self) -> (c: usize)
        ensures
            c == self.gpu_data.dma_cycles,
    {
        self.gpu_data.dma_cycles
    }

    pub fn dma_delay(&self) -> (c: usize)
        ensures
            c == self.gpu_data.dma_delay_cycles,
    {
        self.gpu_data.dma_delay_cycles
    }

    pub fn incr_dma_cycles(&mut self)
        requires
            old(self).gpu_data.dma_cycles < usize::MAX,
        ensures
            *final(self) == (Graphics {
                gpu_data: GpuMemory {
                    dma_cycles: (old(self).gpu_data.dma_cycles + 1) as usize,
                    ..old(self).gpu_data
                },
                ..*old(self)
            }),
    {
        self.gpu_data.dma_cycles = self.gpu_data.dma_cycles + 1;
    }

    /// Counts the start delay down; the transfer begins when it reaches 0.
    pub fn decr_dma_delay(&mut self)
        requires
            old(self).gpu_data.dma_delay_cycles > 0,
        ensures
            *final(self) == (Graphics {
                gpu_data: GpuMemory {
                    dma_delay_cycles: (old(self).gpu_data.dma_delay_cycles - 1) as usize,
                    dma_transfer: old(self).gpu_data.dma_transfer
                        || old(self).gpu_data.dma_delay_cycles == 1,
                    ..old(self).gpu_data
                },
                ..*old(self)
            }),
    {
        self.gpu_data.dma_delay_cycles = self.gpu_data.dma_delay_cycles - 1;
        if self.gpu_data.dma_delay_cycles == 0 {
            self.gpu_data.dma_transfer = true;
        }
    }

    /// Whether a frame is complete (a vblank began since the last
    /// `end_frame`).
    pub fn frame_ready(&self) -> (b: bool)
        ensures
            b == self.frame_ready,
    {
        self.frame_ready
    }

    /// The cycles run since the last `end_frame`.
    pub fn frame_cycles(&self) -> (c: usize)
        ensures
            c == self.cycles,
    {
        self.cycles
    }

    /// The RGBA pixels of the screen, row by row.
    pub fn pixels(&self) -> (p: &Vec<u8>)
        ensures
            p@ == self.gpu_data.pixels@,
    {
        &self.gpu_data.pixels
    }

    /// Marks the shown frame as consumed and restarts the cycle count.
    pub fn end_frame(&mut self)
        ensures
            *final(self) == (Graphics { frame_ready: false, cycles: 0, ..*old(self) }),
    {
        self.cycles = 0;
        self.frame_ready = false;
    }
    /// Runs the PPU for `cycles` clock cycles while the LCD is on, then
    /// hands its interrupt requests to IF.
    pub fn adv_cycles(&mut self, io: &mut Io, cycles: usize)
        requires
            old(self).wf(),
            old(io).wf(),
            cycles <= usize::MAX - MAX_VBLANK_CYCLES,
        ensures
            final(self).wf(),
            final(io).wf(),
            !old(self).gpu_data.spec_ppu_enabled() ==> *final(self) == *old(self) && *final(io)
                == *old(io),
            old(self).gpu_data.spec_ppu_enabled() ==> {
                &&& final(self).cycles == (old(self).cycles + cycles) % (usize::MAX + 1)
                &&& old(self).frame_ready ==> final(self).frame_ready
                &&& final(io).if_grown(*old(io))
                &&& Graphics::mode_moved(*final(self), *old(self), cycles)
                &&& final(self).gpu_data.vram == old(self).gpu_data.vram
                &&& final(self).gpu_data.oam == old(self).gpu_data.oam
            },
            Graphics::ran(*final(self), *old(self), *final(io), *old(io), cycles),
    {
        if !self.gpu_data.is_ppu_enabled() {
            return;
        }
        self.cycles = self.cycles.wrapping_add(cycles);
        let mut state = PpuState::Empty;
        std::mem::swap(&mut state, &mut self.state);
        let next = match state {
            PpuState::OamSearch(os) => os.render(&mut self.gpu_data, cycles),
            PpuState::PictureGeneration(pg) => pg.render(&mut self.gpu_data, cycles),
            PpuState::HBlank(hb) => hb.render(&mut self.gpu_data, cycles),
            PpuState::VBlank(vb) => vb.render(&mut self.gpu_data, cycles),
            PpuState::Empty => PpuState::Empty,
        };
        self.state = next;
        let ghost before = *io;
        let ghost g = self.gpu_data;
        let ghost r = *self;
        self.deliver_events(io);
        proof {
            lemma_raised_keeps(before.ifired(), g);
            assert(Graphics::rendered(r, *old(self), cycles));
        }
    }

    /// The 64 color numbers of tile `tile_no` as the background uses it
    /// (addressed by LCDC bit 4), row by row.
    pub fn weave_tile_from_index(&self, tile_no: u8) -> (tile: Vec<u8>)
        requires
            self.gpu_data.wf(),
        ensures
            tile@ == tile_pixels(self.gpu_data.vram@, tile_addr(tile_no, self.gpu_data.lcdc) - VRAM_START),
    {
        let addr = PictureGeneration::calculate_addr(tile_no, &self.gpu_data);
        let base = (addr - VRAM_START) as usize;
        let ghost want = tile_pixels(self.gpu_data.vram@, base as int);
        let mut tile: Vec<u8> = Vec::new();
        let mut r: usize = 0;
        while r < 8
            invariant
                r <= 8,
                base + 16 <= VRAM_SIZE,
                self.gpu_data.wf(),
                want == tile_pixels(self.gpu_data.vram@, base as int),
                tile@.len() == 8 * r,
                forall|i: int| 0 <= i < 8 * r ==> tile@[i] == #[trigger] want[i],
            decreases 8 - r,
        {
            let byte0 = self.gpu_data.vram[base + 2 * r];
            let byte1 = self.gpu_data.vram[base + 2 * r + 1];
            let mut row = weave_bytes(byte0, byte1);
            let ghost prev = tile@;
            tile.append(&mut row);
            assert forall|i: int| 0 <= i < 8 * (r + 1) implies tile@[i] == #[trigger] want[i] by {
                if i >= 8 * r {
                    assert(i / 8 == r as int);
                    assert(i % 8 == i - 8 * r);
                }
            }
            r = r + 1;
        }
        assert(tile@ =~= want);
        tile
    }

    // Write multiple bytes into memory starting from location
    /// Writes `data` from `location` on, byte by byte, as the CPU would.
    pub fn write_bytes(&mut self, location: u16, data: &Vec<u8>)
        requires
            old(self).wf(),
            block_in_range(location, data@.len() as int),
        ensures
            final(self).wf(),
            *final(self) == (Graphics {
                gpu_data: GpuMemory {
                    vram: final(self).gpu_data.vram,
                    oam: final(self).gpu_data.oam,
                    ..old(self).gpu_data
                },
                ..*old(self)
            }),
            forall|a: int|
                0 <= a < VRAM_SIZE ==> #[trigger] final(self).gpu_data.vram@[a] == if old(self).vram_open()
                    && location - VRAM_START <= a < location - VRAM_START + data@.len() {
                    data@[a - (location - VRAM_START)]
                } else {
                    old(self).gpu_data.vram@[a]
                },
            forall|a: int|
                0 <= a < OAM_SIZE ==> #[trigger] final(self).gpu_data.oam@[a] == if old(self).oam_open()
                    && location - OAM_START <= a < location - OAM_START + data@.len() {
                    data@[a - (location - OAM_START)]
                } else {
                    old(self).gpu_data.oam@[a]
                },
    {
        let mut i: usize = 0;
        while i < data.len()
            invariant
                i <= data@.len(),
                block_in_range(location, data@.len() as int),
                self.wf(),
                *self == (Graphics {
                    gpu_data: GpuMemory {
                        vram: self.gpu_data.vram,
                        oam: self.gpu_data.oam,
                        ..old(self).gpu_data
                    },
                    ..*old(self)
                }),
                forall|a: int|
                    0 <= a < VRAM_SIZE ==> #[trigger] self.gpu_data.vram@[a] == if old(self).vram_open()
                        && location - VRAM_START <= a < location - VRAM_START + i {
                        data@[a - (location - VRAM_START)]
                    } else {
                        old(self).gpu_data.vram@[a]
                    },
                forall|a: int|
                    0 <= a < OAM_SIZE ==> #[trigger] self.gpu_data.oam@[a] == if old(self).oam_open()
                        && location - OAM_START <= a < location - OAM_START + i {
                        data@[a - (location - OAM_START)]
                    } else {
                        old(self).gpu_data.oam@[a]
                    },
            decreases data@.len() - i,
        {
            let addr = location + i as u16;
            self.write_byte(addr, data[i]);
            i = i + 1;
        }
    }
}

/// Weaves the two bit planes of a tile row into its eight color numbers
/// (0 - 3), leftmost pixel first: bit 7 of `byte1` and of `byte0` make the
/// first one.
pub fn weave_bytes(byte0: u8, byte1: u8) -> (row: Vec<u8>)
    ensures
        row@ == Seq::new(8, |k: int| pixel_of(byte0, byte1, k)),
{
    let mut tile_row: Vec<u8> = Vec::new();
    let mut shift: u8 = 0;
    while shift < 8
        invariant
            shift <= 8,
            tile_row@.len() == shift,
            forall|k: int| 0 <= k < shift ==> tile_row@[k] == #[trigger] pixel_of(byte0, byte1, k),
        decreases 8 - shift,
    {
        let p1 = (byte1 >> (7 - shift)) & 0x01;
        let p0 = (byte0 >> (7 - shift)) & 0x01;
        tile_row.push((p1 << 1u8) | p0);
        shift = shift + 1;
    }
    assert(tile_row@ =~= Seq::new(8, |k: int| pixel_of(byte0, byte1, k)));
    tile_row
}

/// Raising interrupt requests only ever sets bits of IF.
proof fn lemma_raised_keeps(f: u8, g: GpuMemory)
    ensures
        raised_if(f, g) & f == f,
{
    let a: u8 = f | 0xE2;
    let b: u8 = f | 0xE1;
    let c: u8 = a | 0xE1;
    assert(a & f == f) by (bit_vector)
        requires
            a == f | 0xE2,
    ;
    assert(b & f == f) by (bit_vector)
        requires
            b == f | 0xE1,
    ;
    assert(c & f == f) by (bit_vector)
        requires
            c == (f | 0xE2) | 0xE1,
    ;
    let r = raised_if(f, g);
    assert(r == f || r == a || r == b || r == c);
    assert(f & f == f) by (bit_vector);
}

/// A CPU write to VRAM in a mode that lets the CPU in is what a read of
/// that address gives afterwards; in mode 3 both are blocked.
pub proof fn lemma_vram_read_after_write(new: Graphics, old: Graphics, addr: u16, data: u8)
    requires
        old.wf(),
        Graphics::cpu_written(new, old, addr, data),
        VRAM_START <= addr <= VRAM_END,
    ensures
        old.vram_open() ==> new.byte_at(addr) == data,
        !old.vram_open() ==> new == old && new.byte_at(addr) == 0xFF,
{
}

} // verus!
