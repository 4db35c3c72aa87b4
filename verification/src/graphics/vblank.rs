//! Mode 1: the ten lines 144 - 153 of the vertical blank.
use vstd::prelude::*;
use super::gpu_memory::{
    GpuMemory, ly_flag_set, VRAM_START, VRAM_END, OAM_START, OAM_END, UNUSED_START, UNUSED_END,
};
use super::hblank::mode_entered;
use super::oam_search::OamSearch;
use super::ppu::{PpuState, MODE_OSEARCH};

verus! {

// mode 1
pub struct VBlank {
    pub cycles_counter: usize,
    pub line_counter: usize,
}

pub const MAX_LINE_CYCLES: usize = 456;
pub const MAX_VBLANK_CYCLES: usize = 4560;

impl VBlank {
    /// The state on entering mode 1 from line 143.
    pub open spec fn entry_state() -> PpuState {
        PpuState::VBlank(VBlank { cycles_counter: 0, line_counter: 0 })
    }

    /// The state at power on: 53 cycles before the end of mode 1.
    pub open spec fn init_state() -> PpuState {
        PpuState::VBlank(VBlank { cycles_counter: (MAX_VBLANK_CYCLES - 53) as usize, line_counter: 0 })
    }

    /// LY cannot pass line 153 before the blank ends: the lines still to
    /// come fit below 154.
    pub open spec fn fits(&self, ly: u8) -> bool {
        &&& self.cycles_counter < MAX_VBLANK_CYCLES
        &&& self.line_counter <= self.cycles_counter
        &&& ly + (self.line_counter + (MAX_VBLANK_CYCLES - 1 - self.cycles_counter))
            / MAX_LINE_CYCLES as int <= 153
    }

    pub fn new() -> (s: PpuState)
        ensures
            s == VBlank::entry_state(),
    {
        PpuState::VBlank(VBlank { cycles_counter: 0, line_counter: 0 })
    }

    // On boot, only emulate 53 cycles. Ran another emulator to determine this
    // but dont truly know if its correct. Makes more sense than starting
    // in oam_search state though to get mooneye boot_hwio-dmgABCmgb to pass
    pub fn init() -> (s: PpuState)
        ensures
            s == VBlank::init_state(),
    {
        PpuState::VBlank(VBlank { cycles_counter: MAX_VBLANK_CYCLES - 53, line_counter: 0 })
    }

    // vblank may go to itself, or oamsearch
    fn next(self, gpu_mem: &mut GpuMemory) -> (s: PpuState)
        requires
            old(gpu_mem).wf(),
            self.line_counter <= self.cycles_counter,
            self.cycles_counter >= MAX_VBLANK_CYCLES || old(gpu_mem).ly + (self.line_counter + (
            MAX_VBLANK_CYCLES - 1 - self.cycles_counter)) / MAX_LINE_CYCLES as int <= 153,
        ensures
            final(gpu_mem).wf(),
            self.cycles_counter >= MAX_VBLANK_CYCLES ==> s == PpuState::OamSearch(
                OamSearch { cycles_counter: 0 },
            ) && final(gpu_mem).sprite_list@.len() == 0 && *final(gpu_mem) == (GpuMemory {
                sprite_list: final(gpu_mem).sprite_list,
                ..ly_flag_set(
                    (GpuMemory {
                        ly: 0,
                        ..mode_entered(
                            (GpuMemory { window_line_counter: 0, ..*old(gpu_mem) }),
                            MODE_OSEARCH,
                        )
                    }),
                    old(gpu_mem).lyc == 0,
                )
            }),
            self.cycles_counter < MAX_VBLANK_CYCLES && self.line_counter >= MAX_LINE_CYCLES ==> s
                == PpuState::VBlank(
                VBlank { line_counter: (self.line_counter - MAX_LINE_CYCLES) as usize, ..self },
            ) && *final(gpu_mem) == ly_flag_set(
                (GpuMemory { ly: (old(gpu_mem).ly + 1) as u8, ..*old(gpu_mem) }),
                old(gpu_mem).lyc == old(gpu_mem).ly + 1,
            ),
            self.cycles_counter < MAX_VBLANK_CYCLES && self.line_counter < MAX_LINE_CYCLES ==> s
                == PpuState::VBlank(self) && *final(gpu_mem) == *old(gpu_mem),
            s matches PpuState::VBlank(v) ==> v.fits(final(gpu_mem).ly),
    {
        let mut this = self;
        if this.cycles_counter >= MAX_VBLANK_CYCLES {
            gpu_mem.window_line_counter = 0;
            gpu_mem.set_stat_mode(MODE_OSEARCH);
            gpu_mem.set_ly(0);  // I think this is supposed to be set earlier. Research more
            gpu_mem.sprite_list.clear();
            return OamSearch::new();
        }
        if this.line_counter >= MAX_LINE_CYCLES {
            let next_ly = gpu_mem.ly + 1;
            gpu_mem.set_ly(next_ly);
            this.line_counter = this.line_counter - MAX_LINE_CYCLES;
        }
        PpuState::VBlank(this)
    }

    /// The counters `cycles` dots later.
    pub open spec fn after_cycles(self, cycles: usize) -> VBlank {
        VBlank {
            cycles_counter: (self.cycles_counter + cycles) as usize,
            line_counter: (self.line_counter + cycles) as usize,
        }
    }

    /// Lets `cycles` dots of mode 1 pass: at its end the PPU enters mode 2 at
    /// line 0 with the window line counter and the sprite list cleared;
    /// before it, LY moves to the next line once a line's dots are spent,
    /// and nothing else changes.
    pub fn render(self, gpu_mem: &mut GpuMemory, cycles: usize) -> (s: PpuState)
        requires
            old(gpu_mem).wf(),
            self.fits(old(gpu_mem).ly),
            cycles <= usize::MAX - MAX_VBLANK_CYCLES,
        ensures
            self.cycles_counter + cycles >= MAX_VBLANK_CYCLES ==> final(gpu_mem).sprite_list@.len() == 0
                && *final(gpu_mem) == (GpuMemory {
                sprite_list: final(gpu_mem).sprite_list,
                ..ly_flag_set(
                    (GpuMemory {
                        ly: 0,
                        ..mode_entered(
                            (GpuMemory { window_line_counter: 0, ..*old(gpu_mem) }),
                            MODE_OSEARCH,
                        )
                    }),
                    old(gpu_mem).lyc == 0,
                )
            }),
            self.cycles_counter + cycles < MAX_VBLANK_CYCLES && self.line_counter + cycles
                >= MAX_LINE_CYCLES ==> s == PpuState::VBlank(
                VBlank {
                    line_counter: (self.line_counter + cycles - MAX_LINE_CYCLES) as usize,
                    ..self.after_cycles(cycles)
                },
            ) && *final(gpu_mem) == ly_flag_set(
                (GpuMemory { ly: (old(gpu_mem).ly + 1) as u8, ..*old(gpu_mem) }),
                old(gpu_mem).lyc == old(gpu_mem).ly + 1,
            ),
            self.cycles_counter + cycles < MAX_VBLANK_CYCLES && self.line_counter + cycles
                < MAX_LINE_CYCLES ==> s == PpuState::VBlank(self.after_cycles(cycles)) && *final(
                gpu_mem) == *old(gpu_mem),
            final(gpu_mem).vram == old(gpu_mem).vram && final(gpu_mem).oam == old(gpu_mem).oam,
            final(gpu_mem).wf(),
            self.cycles_counter + cycles >= MAX_VBLANK_CYCLES ==> s == PpuState::OamSearch(
                OamSearch { cycles_counter: 0 },
            ) && final(gpu_mem).ly == 0 && final(gpu_mem).window_line_counter == 0,
            self.cycles_counter + cycles < MAX_VBLANK_CYCLES ==> (s matches PpuState::VBlank(v) && v.fits(
                final(gpu_mem).ly,
            ) && v.cycles_counter == self.cycles_counter + cycles),
    {
        let mut this = self;
        this.cycles_counter = this.cycles_counter + cycles;
        this.line_counter = this.line_counter + cycles;
        this.next(gpu_mem)
    }

    pub fn read_byte(&self, gpu_mem: &GpuMemory, addr: u16) -> (b: u8)
        requires
            gpu_mem.wf(),
            VRAM_START <= addr <= VRAM_END || OAM_START <= addr <= UNUSED_END,
        ensures
            VRAM_START <= addr <= VRAM_END ==> b == gpu_mem.vram@[addr - VRAM_START],
            OAM_START <= addr <= OAM_END ==> b == gpu_mem.oam@[addr - OAM_START],
            UNUSED_START <= addr <= UNUSED_END ==> b == 0,
    {
        if addr >= VRAM_START && addr <= VRAM_END {
            gpu_mem.vram[(addr - VRAM_START) as usize]
        } else if addr >= OAM_START && addr <= OAM_END {
            gpu_mem.oam[(addr - OAM_START) as usize]
        } else {
            0x00
        }
    }

    pub fn write_byte(&mut self, gpu_mem: &mut GpuMemory, addr: u16, data: u8)
        requires
            old(gpu_mem).wf(),
            VRAM_START <= addr <= VRAM_END || OAM_START <= addr <= UNUSED_END,
        ensures
            final(gpu_mem).wf(),
            *final(self) == *old(self),
            VRAM_START <= addr <= VRAM_END ==> *final(gpu_mem) == (GpuMemory {
                vram: final(gpu_mem).vram,
                ..*old(gpu_mem)
            }) && final(gpu_mem).vram@ == old(gpu_mem).vram@.update(addr - VRAM_START, data),
            OAM_START <= addr <= OAM_END ==> *final(gpu_mem) == (GpuMemory {
                oam: final(gpu_mem).oam,
                ..*old(gpu_mem)
            }) && final(gpu_mem).oam@ == old(gpu_mem).oam@.update(addr - OAM_START, data),
            UNUSED_START <= addr <= UNUSED_END ==> *final(gpu_mem) == *old(gpu_mem),
    {
        if addr >= VRAM_START && addr <= VRAM_END {
            gpu_mem.vram.set((addr - VRAM_START) as usize, data);
        } else if addr >= OAM_START && addr <= OAM_END {
            gpu_mem.oam.set((addr - OAM_START) as usize, data);
        }
    }
}

} // verus!
