/*
	PPU executes as a state machine.
	Mode: 2 -> 3 -> 0 repeated for 144 scanlines
	Mode: 1 repeated for 10 scanlines after above
*/
use vstd::prelude::*;
use super::gpu_memory::{GpuMemory, line_checked};
use super::oam_search::OamSearch;
use super::picture_generation::PictureGeneration;
use super::vblank::VBlank;
use super::hblank::HBlank;

verus! {

pub const MODE_HBLANK: u8 = 0;
pub const MODE_VBLANK: u8 = 1;
pub const MODE_OSEARCH: u8 = 2;
pub const MODE_PICTGEN: u8 = 3;

/// The PPU mode the state machine is in. `Empty` only stands in while a
/// state is being replaced.
pub enum PpuState {
    OamSearch(OamSearch),
    PictureGeneration(PictureGeneration),
    HBlank(HBlank),
    VBlank(VBlank),
    Empty,
}

impl PpuState {
    /// A mode 3 state that has just begun.
    pub open spec fn is_fresh_pictgen(&self) -> bool {
        match self {
            PpuState::PictureGeneration(p) => p.is_initial(),
            _ => false,
        }
    }
}

// Mooneye test boot_hwio-dmgABCmgb only passes if this is vblank near its end
pub fn init(_gpu_mem: &mut GpuMemory) -> (s: PpuState)
    ensures
        s == VBlank::init_state(),
        *final(_gpu_mem) == *old(_gpu_mem),
{
    VBlank::init()
}

/// Enters mode 3 directly.
pub fn enable(gpu_mem: &mut GpuMemory) -> (s: PpuState)
    requires
        old(gpu_mem).wf(),
    ensures
        final(gpu_mem).wf(),
        s.is_fresh_pictgen(),
        *final(gpu_mem) == line_checked(
            (GpuMemory {
                vblank_int: false,
                stat: (old(gpu_mem).stat & 0xFC) | MODE_PICTGEN,
                ..*old(gpu_mem)
            }),
        ),
{
    gpu_mem.set_stat_mode(MODE_PICTGEN);
    PpuState::PictureGeneration(PictureGeneration::new())
}

/// Enters mode 0 with no cycles left to wait.
pub fn disable(gpu_mem: &mut GpuMemory) -> (s: PpuState)
    requires
        old(gpu_mem).wf(),
    ensures
        final(gpu_mem).wf(),
        s == PpuState::HBlank(HBlank { cycles_counter: 0, cycles_to_run: 0 }),
        *final(gpu_mem) == line_checked(
            (GpuMemory {
                vblank_int: false,
                stat: (old(gpu_mem).stat & 0xFC) | MODE_HBLANK,
                ..*old(gpu_mem)
            }),
        ),
{
    gpu_mem.set_stat_mode(MODE_HBLANK);
    HBlank::new(0)
}

} // verus!
