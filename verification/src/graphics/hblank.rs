//! Mode 0: waits out the rest of the scanline, then starts the next line.
use vstd::prelude::*;
use super::gpu_memory::{
    GpuMemory, line_checked, ly_flag_set, VRAM_START, VRAM_END, OAM_START, OAM_END, UNUSED_START,
    UNUSED_END,
};
use super::oam_search::OamSearch;
use super::vblank::VBlank;
use super::ppu::{PpuState, MODE_OSEARCH, MODE_VBLANK};

verus! {

// mode 0
pub struct HBlank {
    pub cycles_counter: usize,
    pub cycles_to_run: usize,
}

/// The PPU memory when a line ends: the window line counter counts the
/// line if the window showed on it, LY moves on, the sprite list empties.
pub open spec fn line_ended(g: GpuMemory) -> GpuMemory {
    let window_shown = (g.lcdc & 0x20) == 0x20 && (g.ly >= g.wy && g.ly < g.wy + 144 && g.wx
        <= 166 && g.wy <= 143);
    let counted = GpuMemory {
        window_line_counter: if window_shown {
            ((g.window_line_counter + 1) % 256) as u8
        } else {
            g.window_line_counter
        },
        ..g
    };
    ly_flag_set((GpuMemory { ly: (g.ly + 1) as u8, ..counted }), g.lyc == g.ly + 1)
}

/// The PPU memory after entering `mode` (the vblank interrupt is raised
/// when mode 1 begins on line 144).
pub open spec fn mode_entered(g: GpuMemory, mode: u8) -> GpuMemory {
    line_checked(
        (GpuMemory { vblank_int: mode == 1 && g.ly == 144, stat: (g.stat & 0xFC) | mode, ..g }),
    )
}

impl HBlank {
    pub fn new(cycles_remaining: usize) -> (s: PpuState)
        ensures
            s == PpuState::HBlank(HBlank { cycles_counter: 0, cycles_to_run: cycles_remaining }),
    {
        PpuState::HBlank(HBlank { cycles_counter: 0, cycles_to_run: cycles_remaining })
    }

    // HBlank may go to either Itself, OamSearch, or VBlank
    fn next(self, gpu_mem: &mut GpuMemory) -> (s: PpuState)
        requires
            old(gpu_mem).wf(),
            old(gpu_mem).ly < 144,
        ensures
            final(gpu_mem).wf(),
            self.cycles_counter < self.cycles_to_run ==> s == PpuState::HBlank(self) && *final(
            gpu_mem) == *old(gpu_mem),
            self.cycles_counter >= self.cycles_to_run ==> ({
                let ended = line_ended(*old(gpu_mem));
                final(gpu_mem).sprite_list@.len() == 0 && if ended.ly < 144 {
                    s == PpuState::OamSearch(OamSearch { cycles_counter: 0 }) && *final(gpu_mem) == (
                    GpuMemory {
                        sprite_list: final(gpu_mem).sprite_list,
                        ..mode_entered(ended, MODE_OSEARCH)
                    })
                } else {
                    s == VBlank::entry_state() && *final(gpu_mem) == (GpuMemory {
                        sprite_list: final(gpu_mem).sprite_list,
                        ..mode_entered(ended, MODE_VBLANK)
                    })
                }
            }),
    {
        if self.cycles_counter < self.cycles_to_run {
            // Nothing occurs during HBlank, its just to synchronize the number of cycles
            // a scanline takes as picturegeneration takes a variable number of cycles
            PpuState::HBlank(self)
        } else {
            // Do here because https://gbdev.io/pandocs/Scrolling.html#window
            if gpu_mem.is_window_enabled() && gpu_mem.is_window_visible() {
                gpu_mem.window_line_counter = gpu_mem.window_line_counter.wrapping_add(1);
            }
            let next_ly = gpu_mem.ly + 1;
            gpu_mem.set_ly(next_ly);
            // Moving to start of next scanline, so new search will be done
            gpu_mem.sprite_list.clear();

            if gpu_mem.ly < 144 {
                gpu_mem.set_stat_mode(MODE_OSEARCH);
                OamSearch::new()
            } else {
                gpu_mem.set_stat_mode(MODE_VBLANK);
                VBlank::new()
            }
        }
    }

    pub fn render(self, gpu_mem: &mut GpuMemory, cycles: usize) -> (s: PpuState)
        requires
            old(gpu_mem).wf(),
            old(gpu_mem).ly < 144,
            self.cycles_counter < self.cycles_to_run || self.cycles_to_run == 0,
            self.cycles_counter + cycles <= usize::MAX,
        ensures
            final(gpu_mem).vram == old(gpu_mem).vram && final(gpu_mem).oam == old(gpu_mem).oam,
            final(gpu_mem).wf(),
            final(gpu_mem).pixels == old(gpu_mem).pixels,
            self.cycles_counter + cycles < self.cycles_to_run ==> s == PpuState::HBlank(
                HBlank { cycles_counter: (self.cycles_counter + cycles) as usize, ..self },
            ) && *final(gpu_mem) == *old(gpu_mem),
            self.cycles_counter + cycles >= self.cycles_to_run ==> final(gpu_mem).ly == old(
            gpu_mem).ly + 1 && (final(gpu_mem).ly < 144 ==> s == PpuState::OamSearch(
                OamSearch { cycles_counter: 0 },
            )) && (final(gpu_mem).ly == 144 ==> s == VBlank::entry_state()),
    {
        let mut this = self;
        this.cycles_counter = this.cycles_counter + cycles;
        this.next(gpu_mem)
    }

    pub fn read_byte(&self, gpu_mem: &GpuMemory, addr: u16) -> (b: u8)
        requires
            gpu_mem.wf(),
            VRAM_START <= addr <= VRAM_END || OAM_START <= addr <= UNUSED_END,
        ensures
            VRAM_START <= addr <= VRAM_END ==> b == gpu_mem.vram@[addr - VRAM_START],
            OAM_START <= addr <= OAM_END ==> b == gpu_mem.oam@[addr - OAM_START],
            UNUSED_START <= addr <= UNUSED_END ==> b == 0,
    {
        if addr >= VRAM_START && addr <= VRAM_END {
            gpu_mem.vram[(addr - VRAM_START) as usize]
        } else if addr >= OAM_START && addr <= OAM_END {
            gpu_mem.oam[(addr - OAM_START) as usize]
        } else {
            0x00
        }
    }

    pub fn write_byte(&mut self, gpu_mem: &mut GpuMemory, addr: u16, data: u8)
        requires
            old(gpu_mem).wf(),
            VRAM_START <= addr <= VRAM_END || OAM_START <= addr <= UNUSED_END,
        ensures
            final(gpu_mem).wf(),
            *final(self) == *old(self),
            VRAM_START <= addr <= VRAM_END ==> *final(gpu_mem) == (GpuMemory {
                vram: final(gpu_mem).vram,
                ..*old(gpu_mem)
            }) && final(gpu_mem).vram@ == old(gpu_mem).vram@.update(addr - VRAM_START, data),
            OAM_START <= addr <= OAM_END ==> *final(gpu_mem) == (GpuMemory {
                oam: final(gpu_mem).oam,
                ..*old(gpu_mem)
            }) && final(gpu_mem).oam@ == old(gpu_mem).oam@.update(addr - OAM_START, data),
            UNUSED_START <= addr <= UNUSED_END ==> *final(gpu_mem) == *old(gpu_mem),
    {
        if addr >= VRAM_START && addr <= VRAM_END {
            gpu_mem.vram.set((addr - VRAM_START) as usize, data);
        } else if addr >= OAM_START && addr <= OAM_END {
            gpu_mem.oam.set((addr - OAM_START) as usize, data);
        }
    }
}

} // verus!
