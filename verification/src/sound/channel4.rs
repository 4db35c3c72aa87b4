//! Channel 4: noise from a linear feedback shift register, with a length
//! counter and a volume envelope.
use vstd::prelude::*;
use super::{LenPat, VolEnv};
use super::{NR41, NR42, NR43, NR44};
use super::tone_sweep::FRAME_SEQ_CYCLES;
use crate::cpu::CPU_FREQ;

verus! {

pub struct Ch4 {
    pub len: LenPat,  // NR41 (Doesnt use duty)
    pub volenv: VolEnv,  // NR42
    pub pcounter: PolyCounter,  // NR43
    pub counter: Counter,  // NR44 (Only the bottom two bits)
    pub frame_seq: u8,
    pub internal_cycles: usize,
    pub lfsr: u16,  // Only 15 bits wide though
}

pub struct PolyCounter {
    pub shift_freq: u8,  // Bit 4-7
    pub width: bool,  // Bit 3 (0 is 15 bits and 1 is 7 bits)
    pub ratio: u8,  // Bit 0-2
    pub freq_timer: u16,
}

pub struct Counter {
    pub restart: bool,  // Bit 7 (1 = restart sound)
    pub len_enable: bool,  // Bit 6 (1 = stop output when len in nr41 expires)
}

pub const COUNTER_MASK: u8 = 0x3F;

/// The shift register one clock later: bits 0 and 1 XORed enter at bit 14
/// (and at bit 6 in 7-bit mode) as the register shifts right.
pub open spec fn lfsr_step(lfsr: u16, width: bool) -> u16 {
    let xor = (lfsr & 0x01) ^ ((lfsr >> 1u16) & 0x01);
    let l = ((lfsr & 0x7FFF) >> 1u16) | (xor << 14u16);
    if width {
        (l & 0xFFBF) | (xor << 6u16)
    } else {
        l
    }
}

impl PolyCounter {
    pub open spec fn wf(&self) -> bool {
        self.shift_freq <= 15 && self.ratio <= 7
    }

    pub open spec fn value(&self) -> u8 {
        (self.shift_freq << 4u8) | (if self.width { 0x08u8 } else { 0u8 }) | self.ratio
    }

    pub open spec fn after_set(self, data: u8) -> PolyCounter {
        PolyCounter {
            shift_freq: (data >> 4) & 0x0F,
            width: (data >> 3) & 0x01 == 0x01,
            ratio: data & 0x07,
            ..self
        }
    }

    /// The noise clock's frequency: 1048576 / r / 2^(s + 1) Hz (plus the
    /// rounding of the integer divisions), a ratio code 0 counting as r = 0.5.
    pub open spec fn frequency(&self) -> int {
        let base: int = if self.ratio == 0 { 2097152int } else { 1048576int / (self.ratio as int) };
        (base + 1) / ((1u32 << (self.shift_freq + 1) as u32) as int)
    }

    /// The timer's reload value: the cycles per noise clock, in 16 bits.
    pub open spec fn period(&self) -> u16 {
        (4194304int / self.frequency()) as u16
    }

    /// The timer after `cycles` more cycles (their low 16 bits); it reloads
    /// on reaching 0 or passing below it.
    pub open spec fn after_cycles(self, cycles: usize) -> PolyCounter {
        let c = cycles as u16;
        if self.freq_timer <= c {
            PolyCounter { freq_timer: self.period(), ..self }
        } else {
            PolyCounter { freq_timer: (self.freq_timer - c) as u16, ..self }
        }
    }

    pub fn new() -> (p: PolyCounter)
        ensures
            p.wf(),
            p == (PolyCounter { shift_freq: 0, width: false, ratio: 0, freq_timer: 0 }),
    {
        PolyCounter { shift_freq: 0, width: false, ratio: 0, freq_timer: 0 }
    }

    pub fn set(&mut self, data: u8)
        ensures
            final(self).wf(),
            *final(self) == old(self).after_set(data),
    {
        self.shift_freq = (data >> 4) & 0x0F;
        self.width = (data >> 3) & 0x01 == 0x01;
        self.ratio = data & 0x07;
        assert((data >> 4) & 0x0F <= 15 && data & 0x07 <= 7) by (bit_vector);
    }

    pub fn get(&self) -> (b: u8)
        ensures
            b == self.value(),
    {
        let w: u8 = if self.width { 0x08 } else { 0 };
        (self.shift_freq << 4u8) | w | self.ratio
    }

    /// Counts the timer down; returns whether the LFSR is clocked: the
    /// timer expired and reloaded to a nonzero period (a period that does
    /// not fit in 16 bits gives the LFSR no clocks).
    pub fn decr_timer(&mut self, cycles: usize) -> (clocked: bool)
        requires
            old(self).wf(),
        ensures
            final(self).wf(),
            *final(self) == old(self).after_cycles(cycles),
            clocked == (old(self).freq_timer <= cycles as u16 && old(self).period() != 0),
    {
        let prev_timer = self.freq_timer;
        self.freq_timer = prev_timer.wrapping_sub(cycles as u16);
        if self.freq_timer == 0 || (self.freq_timer > prev_timer) {
            self.reload_timer();
            /* Obscure Behaviour */
            // Using a noise channel clock shift of 14 or 15 results in the
            // LFSR receiving no clocks.
            return self.freq_timer != 0;
        }
        false
    }

    pub fn reload_timer(&mut self)
        requires
            old(self).wf(),
        ensures
            final(self).wf(),
            *final(self) == (PolyCounter { freq_timer: old(self).period(), ..*old(self) }),
    {
        let r = self.ratio as u32;
        let base: u32 = if self.ratio == 0 {
            2097152
        } else {
            assert(1048576u32 / r >= 149796u32) by (nonlinear_arith)
                requires
                    1 <= r <= 7,
            ;
            1048576 / r
        };
        let s = self.shift_freq as u32 + 1;
        assert(1u32 << s <= 65536 && 1u32 << s >= 2) by (bit_vector)
            requires
                1 <= s <= 16,
        ;
        let d: u32 = 1u32 << s;
        let frequency = (base + 1) / d;
        assert(frequency >= 1) by (nonlinear_arith)
            requires
                base + 1 >= d,
                d > 0,
                frequency as int == (base + 1) as int / d as int,
        ;
        self.freq_timer = ((CPU_FREQ as u32) / frequency) as u16;  // Minimum is 8 T-cycles
    }
}

impl Counter {
    pub open spec fn value(&self) -> u8 {
        COUNTER_MASK | (if self.restart { 0x80u8 } else { 0u8 }) | (if self.len_enable {
            0x40u8
        } else {
            0u8
        })
    }

    pub open spec fn after_set(data: u8) -> Counter {
        Counter { restart: (data >> 7) & 0x01 == 0x01, len_enable: (data >> 6) & 0x01 == 0x01 }
    }

    pub fn new() -> (c: Counter)
        ensures
            c == (Counter { restart: false, len_enable: false }),
    {
        Counter { restart: false, len_enable: false }
    }

    pub fn set(&mut self, data: u8)
        ensures
            *final(self) == Counter::after_set(data),
    {
        self.restart = (data >> 7) & 0x01 == 0x01;
        self.len_enable = (data >> 6) & 0x01 == 0x01;
    }

    pub fn get(&self) -> (b: u8)
        ensures
            b == self.value(),
    {
        let r: u8 = if self.restart { 0x80 } else { 0 };
        let l: u8 = if self.len_enable { 0x40 } else { 0 };
        COUNTER_MASK | r | l
    }

    pub fn should_restart(&self) -> (b: bool)
        ensures
            b == self.restart,
    {
        self.restart
    }

    pub fn should_stop(&self) -> (b: bool)
        ensures
            b == self.len_enable,
    {
        self.len_enable
    }
}

impl Ch4 {
    pub open spec fn wf(&self) -> bool {
        &&& self.len.wf() && self.len.mask == 0x3F
        &&& self.volenv.wf()
        &&& self.pcounter.wf()
        &&& self.frame_seq < 8
    }

    pub open spec fn reg(&self, addr: u16) -> u8 {
        if addr == NR41 {
            self.len.value()
        } else if addr == NR42 {
            self.volenv.value()
        } else if addr == NR43 {
            self.pcounter.value()
        } else {
            self.counter.value()
        }
    }

    /// A trigger reloads length, envelope and noise timer and fills the
    /// shift register, with the frame sequencer quirks.
    pub open spec fn after_trigger(self) -> Ch4 {
        let l = self.len.after_reload();
        let v0 = VolEnv { timer: self.volenv.period(), cur_vol: self.volenv.initial_vol, ..self.volenv };
        let v = if self.frame_seq == 6 {
            VolEnv { timer: (v0.timer + 1) as u32, ..v0 }
        } else {
            v0
        };
        let l2 = if self.frame_seq % 2 == 0 && l.timer == l.mask + 1 && self.counter.len_enable {
            LenPat { timer: l.mask as u32, ..l }
        } else {
            l
        };
        Ch4 {
            len: l2,
            volenv: v,
            lfsr: 0x7FFF,
            pcounter: PolyCounter { freq_timer: self.pcounter.period(), ..self.pcounter },
            ..self
        }
    }

    pub open spec fn after_write(self, addr: u16, data: u8) -> Ch4 {
        if addr == NR41 {
            Ch4 { len: self.len.after_set(data | 0xC0), ..self }
        } else if addr == NR42 {
            Ch4 { volenv: self.volenv.after_set(data), ..self }
        } else if addr == NR43 {
            Ch4 { pcounter: self.pcounter.after_set(data), ..self }
        } else {
            let c = Counter::after_set(data);
            let l = if c.len_enable && !self.counter.len_enable && self.len.timer != 0
                && self.frame_seq % 2 == 0 {
                self.len.after_decr()
            } else {
                self.len
            };
            let t = Ch4 { counter: c, len: l, ..self };
            if c.restart {
                t.after_trigger()
            } else {
                t
            }
        }
    }

    pub open spec fn written(new: Ch4, old: Ch4, addr: u16, data: u8) -> bool {
        new == old.after_write(addr, data)
    }

    /// The noise channel as it powers on.
    pub open spec fn initial() -> Ch4 {
        Ch4 {
            len: LenPat { duty: 0, length: 0, timer: 0, enable: false, mask: 0x3F },
            volenv: VolEnv { initial_vol: 0, dir_up: false, sweep: 0, timer: 0, cur_vol: 0 },
            pcounter: PolyCounter { shift_freq: 0, width: false, ratio: 0, freq_timer: 0 },
            counter: Counter { restart: false, len_enable: false },
            frame_seq: 0,
            internal_cycles: 0,
            lfsr: 0,
        }
    }

    pub fn new() -> (c: Ch4)
        ensures
            c.wf(),
            c == Ch4::initial(),
    {
        Ch4 {
            len: LenPat::new(0x3F),
            volenv: VolEnv::new(),
            pcounter: PolyCounter::new(),
            counter: Counter::new(),
            frame_seq: 0,
            internal_cycles: 0,
            lfsr: 0,
        }
    }

    pub fn read_byte(&self, addr: u16) -> (b: u8)
        requires
            NR41 <= addr <= NR44,
        ensures
            b == self.reg(addr),
    {
        if addr == NR41 {
            self.len.get()
        } else if addr == NR42 {
            self.volenv.get()
        } else if addr == NR43 {
            self.pcounter.get()
        } else {
            self.counter.get()
        }
    }

    pub fn write_byte(&mut self, addr: u16, data: u8)
        requires
            old(self).wf(),
            NR41 <= addr <= NR44,
        ensures
            final(self).wf(),
            *final(self) == old(self).after_write(addr, data),
    {
        if addr == NR41 {
            self.len.set(data | 0xC0);  // Dont use duty (bit 6-7)
        } else if addr == NR42 {
            self.volenv.set(data);
        } else if addr == NR43 {
            self.pcounter.set(data);
        } else {
            let prev_len_enable = self.counter.len_enable;
            self.counter.set(data);
            if self.counter.len_enable && !prev_len_enable && self.len.timer != 0 && (
            self.frame_seq % 2) == 0 {
                self.len.decr_len();
            }
            if self.counter.restart {
                self.on_trigger();
            }
        }
    }

    /// Runs `cycles` clock cycles: the noise timer may clock the shift
    /// register, and the frame sequencer clocks length (even steps) and the
    /// envelope (step 7).
    /// The channel `cycles` clock cycles later: the polynomial counter
    /// runs (shifting the LFSR when it expires), and the 512 Hz frame
    /// sequencer clocks the length counter on even steps and the volume
    /// envelope on step 7.
    pub open spec fn after_cycles(self, cycles: usize) -> Ch4 {
        let ic = if self.internal_cycles + cycles > usize::MAX {
            (self.internal_cycles + cycles - (usize::MAX + 1)) as usize
        } else {
            (self.internal_cycles + cycles) as usize
        };
        let t = Ch4 {
            internal_cycles: ic,
            pcounter: self.pcounter.after_cycles(cycles),
            lfsr: if self.pcounter.freq_timer <= cycles as u16 && self.pcounter.period() != 0 {
                lfsr_step(self.lfsr, self.pcounter.width)
            } else {
                self.lfsr
            },
            ..self
        };
        if ic >= FRAME_SEQ_CYCLES {
            let u = Ch4 {
                frame_seq: ((t.frame_seq + 1) % 8) as u8,
                internal_cycles: (ic - FRAME_SEQ_CYCLES) as usize,
                ..t
            };
            if u.frame_seq % 2 == 0 {
                if u.counter.len_enable && u.len.enable {
                    Ch4 { len: u.len.after_decr(), ..u }
                } else {
                    u
                }
            } else if u.frame_seq == 7 && u.volenv.sweep != 0 && u.volenv.timer != 0 {
                Ch4 { volenv: u.volenv.after_tick(), ..u }
            } else {
                u
            }
        } else {
            t
        }
    }

    pub fn adv_cycles(&mut self, cycles: usize)
        requires
            old(self).wf(),
        ensures
            final(self).wf(),
            *final(self) == old(self).after_cycles(cycles),
    {
        self.internal_cycles = self.internal_cycles.wrapping_add(cycles);
        self.clock_polycounter(cycles);
        if self.internal_cycles >= FRAME_SEQ_CYCLES {
            self.frame_seq = (self.frame_seq + 1) % 8;
            self.internal_cycles = self.internal_cycles.wrapping_sub(FRAME_SEQ_CYCLES);
            if self.frame_seq % 2 == 0 {
                self.clock_length();
            } else if self.frame_seq == 7 {
                self.clock_volenv();
            }
        }
    }

    pub fn clock_length(&mut self)
        requires
            old(self).wf(),
        ensures
            final(self).wf(),
            *final(self) == if old(self).counter.len_enable && old(self).len.enable {
                Ch4 { len: old(self).len.after_decr(), ..*old(self) }
            } else {
                *old(self)
            },
    {
        if self.counter.len_enable && self.len.enable {
            self.len.decr_len();
        }
    }

    pub fn clock_volenv(&mut self)
        requires
            old(self).wf(),
        ensures
            final(self).wf(),
            *final(self) == if old(self).volenv.sweep == 0 || old(self).volenv.timer == 0 {
                *old(self)
            } else {
                Ch4 { volenv: old(self).volenv.after_tick(), ..*old(self) }
            },
    {
        if self.volenv.sweep == 0 {
            return;
        }
        if self.volenv.timer != 0 {
            self.volenv.decr_timer();
        }
    }

    pub fn clock_polycounter(&mut self, cycles: usize)
        requires
            old(self).wf(),
        ensures
            final(self).wf(),
            *final(self) == (Ch4 {
                pcounter: old(self).pcounter.after_cycles(cycles),
                lfsr: if old(self).pcounter.freq_timer <= cycles as u16
                    && old(self).pcounter.period() != 0 {
                    lfsr_step(old(self).lfsr, old(self).pcounter.width)
                } else {
                    old(self).lfsr
                },
                ..*old(self)
            }),
    {
        if self.pcounter.decr_timer(cycles) {
            // Tick LFSR
            // Shift right once and set bit 14 to the xor value
            // Bit 15 should always be 0 since its unused
            let xor = (self.lfsr & 0x01) ^ ((self.lfsr >> 1u16) & 0x01);
            self.lfsr = ((self.lfsr & 0x7FFF) >> 1u16) | (xor << 14u16);
            if self.pcounter.width {
                // Unset bit 6 and set it to the xor value
                self.lfsr = (self.lfsr & 0xFFBF) | (xor << 6u16);
            }
        }
    }

    /// The digital level (0 - 15) fed to the DAC: the volume while bit 0 of
    /// the shift register is clear, 0 otherwise or while the channel is off.
    pub fn get_output(&self) -> (level: u8)
        ensures
            level == if self.len.enable && (self.lfsr & 0x01) == 0 {
                self.volenv.cur_vol
            } else {
                0
            },
    {
        if !self.is_ch_enabled() {
            return 0;
        }
        if (self.lfsr & 0x01) == 0 {
            self.volenv.cur_vol
        } else {
            0
        }
    }

    pub fn is_ch_enabled(&self) -> (b: bool)
        ensures
            b == self.len.enable,
    {
        self.len.enable
    }

    fn on_trigger(&mut self)
        requires
            old(self).wf(),
        ensures
            final(self).wf(),
            *final(self) == old(self).after_trigger(),
    {
        /* Length */
        self.len.reload_timer();
        /* Volume Envelope */
        self.volenv.reload_timer();
        self.volenv.reload_vol();
        /* PCounter */
        self.lfsr = 0x7FFF;
        self.pcounter.reload_timer();  // Not sure on this
        /* Some of Obscure Behaviour (tone_sweep.rs is commented) */
        if self.frame_seq == 6 {
            self.volenv.timer = self.volenv.timer.wrapping_add(1);
        }
        if (self.frame_seq % 2) == 0 {
            if self.len.timer == self.len.mask as u32 + 1 && self.counter.len_enable {
                self.len.timer = self.len.mask as u32;
            }
        }
    }

    pub fn dmg_init(&mut self)
        requires
            old(self).wf(),
        ensures
            final(self).wf(),
            final(self).len.value() == old(self).len.after_set(0xFF).value(),
            final(self).volenv.value() == old(self).volenv.after_set(0x00).value(),
            final(self).pcounter.value() == old(self).pcounter.after_set(0x00).value(),
            final(self).counter == Counter::after_set(0xBF),
    {
        self.len.set(0xFF);
        self.volenv.set(0x00);
        self.pcounter.set(0x00);
        self.counter.set(0xBF);
        self.len.reload_timer();
        self.volenv.reload_timer();
        self.volenv.reload_vol();
        self.pcounter.reload_timer();
    }
}

} // verus!
