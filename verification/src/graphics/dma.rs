//! OAM DMA: after a two cycle delay, copies 160 bytes from `DMA * 0x100`
//! into OAM, one byte per call, while the bus it reads from is blocked.
use vstd::prelude::*;
use crate::bus::BusType;
use crate::graphics::Graphics;
use super::gpu_memory::{VRAM_START, VRAM_END};

verus! {

pub const DMA_REG: u16 = 0xFF46;
pub const DMA_SRC_MUL: u16 = 0x0100;
pub const DMA_MAX_CYCLES: u16 = 159;

pub struct OamDma {
    pub dma: u8,
    pub value: u8,
    pub cycles: u16,
    pub delay_cycles: usize,
    pub in_transfer: bool,
    pub bus_conflict: BusType,
}

/// The bus that a transfer reading from `src` occupies.
pub open spec fn conflict_of(src: u16) -> BusType {
    if VRAM_START <= src <= VRAM_END {
        BusType::Video
    } else if src <= 0x7FFF || (0xA000 <= src <= 0xFDFF) {
        BusType::External
    } else {
        BusType::Free
    }
}

/// What a read of `addr` gives while the DMA unit holds `d`: the byte in
/// flight for an address on the blocked bus, 0xFF for OAM during a
/// transfer, nothing (the read goes through) otherwise.
pub open spec fn conflict_read(d: OamDma, addr: u16) -> Option<u8> {
    if d.bus_conflict == BusType::Free {
        None
    } else if VRAM_START <= addr <= VRAM_END && d.bus_conflict == BusType::Video {
        Some(d.value)
    } else if (addr <= 0x7FFF || (0xA000 <= addr <= 0xFDFF)) && d.bus_conflict == BusType::External {
        Some(d.value)
    } else if 0xFE00 <= addr <= 0xFE9F && d.in_transfer {
        Some(0xFF)
    } else {
        None
    }
}

impl OamDma {
    pub open spec fn wf(&self) -> bool {
        self.cycles <= DMA_MAX_CYCLES
    }

    /// The address the transfer reads next.
    pub open spec fn src_addr(&self) -> u16 {
        (self.dma * 0x100 + self.cycles) as u16
    }

    pub fn new() -> (d: OamDma)
        ensures
            d.wf(),
            d.dma == 0 && d.value == 0 && d.cycles == 0 && d.delay_cycles == 0,
            !d.in_transfer && d.bus_conflict == BusType::Free,
    {
        OamDma {
            dma: 0,  // 0xFF46
            value: 0,
            cycles: 0,
            delay_cycles: 0,
            in_transfer: false,
            bus_conflict: BusType::Free,
        }
    }

    pub fn read_dma(&self, addr: u16) -> (b: u8)
        requires
            addr == DMA_REG,
        ensures
            b == self.dma,
    {
        self.dma
    }

    /// Writing DMA starts the countdown to a transfer; sources 0xFE00 and
    /// above are taken from 0xDE00 and up instead.
    pub fn write_dma(&mut self, addr: u16, data: u8)
        requires
            addr == DMA_REG,
            old(self).wf(),
        ensures
            final(self).wf(),
            *final(self) == (OamDma {
                dma: if data >= 0xFE { data & 0xDF } else { data },
                delay_cycles: 2,
                ..*old(self)
            }),
    {
        if data >= 0xFE {
            self.dma = data & 0xDF;
        } else {
            self.dma = data;
        }
        self.start_dma_countdown();
    }

    /// Call this method when there is a bus conflict during dma transfer
    /// Return this value when there is a bus conflict
    pub fn get_value(&self) -> (b: u8)
        ensures
            b == self.value,
    {
        self.value
    }

    pub fn set_value(&mut self, value: u8)
        ensures
            *final(self) == (OamDma { value, ..*old(self) }),
    {
        self.value = value;
    }

    pub fn start_dma_countdown(&mut self)
        ensures
            *final(self) == (OamDma { delay_cycles: 2, ..*old(self) }),
    {
        self.delay_cycles = 2;
    }

    pub fn dma_active(&self) -> (b: bool)
        ensures
            b == self.in_transfer,
    {
        self.in_transfer
    }

    pub fn calc_addr(&self) -> (a: u16)
        requires
            self.wf(),
        ensures
            a == self.src_addr(),
    {
        (self.dma as u16) * DMA_SRC_MUL + self.cycles
    }

    // Supposed to be but not really enforced 0x0000 - 0xDF00
    pub fn get_src(&self) -> (a: u16)
        ensures
            a == self.dma * 0x100,
    {
        (self.dma as u16) * DMA_SRC_MUL
    }

    // 0x00 - 0x9F
    pub fn cycles(&self) -> (c: u16)
        ensures
            c == self.cycles,
    {
        self.cycles
    }

    pub fn delay_rem(&self) -> (d: usize)
        ensures
            d == self.delay_cycles,
    {
        self.delay_cycles
    }

    /// Counts one transferred byte; after the 160th the transfer ends.
    pub fn incr_cycles(&mut self, graphics: &mut Graphics)
        requires
            old(self).wf(),
            old(graphics).wf(),
        ensures
            final(self).wf(),
            final(graphics).wf(),
            old(self).cycles < DMA_MAX_CYCLES ==> *final(self) == (OamDma {
                cycles: (old(self).cycles + 1) as u16,
                ..*old(self)
            }) && *final(graphics) == *old(graphics),
            old(self).cycles == DMA_MAX_CYCLES ==> *final(self) == (OamDma {
                in_transfer: false,
                cycles: 0,
                bus_conflict: BusType::Free,
                ..*old(self)
            }) && *final(graphics) == old(graphics).with_dma_transfer(false),
    {
        self.cycles = self.cycles + 1;
        if self.cycles > DMA_MAX_CYCLES {
            self.stop_dma_transfer();
            graphics.set_dma_transfer(false);
        }
    }

    pub fn stop_dma_transfer(&mut self)
        ensures
            *final(self) == (OamDma {
                in_transfer: false,
                cycles: 0,
                bus_conflict: BusType::Free,
                ..*old(self)
            }),
    {
        self.in_transfer = false;
        self.cycles = 0;
        self.bus_conflict = BusType::Free;
    }

    /// Counts down the delay; at zero the transfer starts.
    pub fn decr_delay(&mut self, graphics: &mut Graphics)
        requires
            old(self).wf(),
            old(graphics).wf(),
            old(self).delay_cycles > 0,
        ensures
            final(self).wf(),
            final(graphics).wf(),
            old(self).delay_cycles > 1 ==> *final(self) == (OamDma {
                delay_cycles: (old(self).delay_cycles - 1) as usize,
                ..*old(self)
            }) && *final(graphics) == *old(graphics),
            old(self).delay_cycles == 1 ==> *final(self) == (OamDma {
                delay_cycles: 0,
                in_transfer: true,
                cycles: 0,
                bus_conflict: conflict_of((old(self).dma * 0x100) as u16),
                ..*old(self)
            }) && *final(graphics) == old(graphics).with_dma_transfer(true),
    {
        self.delay_cycles = self.delay_cycles - 1;
        if self.delay_cycles == 0 {
            self.start_dma_transfer();
            graphics.set_dma_transfer(true);
        }
    }

    pub fn start_dma_transfer(&mut self)
        ensures
            *final(self) == (OamDma {
                in_transfer: true,
                cycles: 0,
                bus_conflict: conflict_of((old(self).dma * 0x100) as u16),
                ..*old(self)
            }),
    {
        self.in_transfer = true;
        self.cycles = 0;
        let src = self.calc_addr();
        self.bus_conflict = if src >= VRAM_START && src <= VRAM_END {
            BusType::Video
        } else if src <= 0x7FFF || (src >= 0xA000 && src <= 0xFDFF) {
            BusType::External
        } else {
            BusType::Free
        };
    }

    /// Register values left behind by the DMG boot ROM.
    pub fn dmg_init(&mut self)
        ensures
            *final(self) == (OamDma { dma: 0xFF, ..*old(self) }),
    {
        self.dma = 0xFF;
    }

    pub fn has_conflict(&self) -> (b: bool)
        ensures
            b == (self.bus_conflict != BusType::Free),
    {
        self.bus_conflict.is_some()
    }

    // If the addr falls within a certain range and that range happens
    // to be the range of a bus in use by dma transfer, return the value seen
    pub fn check_bus_conflicts(&self, addr: u16) -> (r: Option<u8>)
        ensures
            r == conflict_read(*self, addr),
    {
        if self.has_conflict() {
            if addr >= VRAM_START && addr <= VRAM_END && self.bus_conflict == BusType::Video {
                Some(self.value)
            } else if (addr <= 0x7FFF || (addr >= 0xA000 && addr <= 0xFDFF)) && self.bus_conflict
                == BusType::External {
                Some(self.value)
            } else if addr >= 0xFE00 && addr <= 0xFE9F {
                if self.in_transfer {
                    Some(0xFF)
                } else {
                    None
                }
            } else {
                None
            }
        } else {
            None
        }
    }
}

} // verus!
