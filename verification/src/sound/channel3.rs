//! Channel 3: plays the 32 four-bit samples of wave RAM.
use vstd::prelude::*;
use super::{Freq, LenPat};
use super::{NR30, NR31, NR32, NR33, NR34, WAVE_RAM_END, WAVE_RAM_START};
use super::tone_sweep::FRAME_SEQ_CYCLES;

verus! {

pub struct Ch3 {
    pub is_on: bool,  // NR30 (1 is playback)
    pub len: LenPat,  // NR31 (Uses full 8 bits for length and no duty)
    pub output_level: u8,  // NR32 (Only bits 5-6 matter)
    pub freq: Freq,  // NR33 and NR 34
    pub frame_seq: u8,
    pub wave_pos: usize,
    pub internal_cycles: usize,
    pub wave_ram: Vec<u8>,  // 4 Bit samples (2 Samples per Byte)
    pub sample_buffer: u8,
}

impl Ch3 {
    pub open spec fn wf(&self) -> bool {
        &&& self.len.wf() && self.len.mask == 0xFF
        &&& self.freq.wf() && self.freq.cycle_multiplier == 64
        &&& self.frame_seq < 8
        &&& self.wave_pos < 32
        &&& self.wave_ram@.len() == 16
        &&& self.output_level <= 3
    }

    pub open spec fn reg(&self, addr: u16) -> u8 {
        if addr == NR30 {
            (if self.is_on { 0x80u8 } else { 0u8 }) | 0x7F
        } else if addr == NR31 {
            0xFF
        } else if addr == NR32 {
            (self.output_level << 5u8) | 0x9F
        } else if addr == NR33 {
            0xFF
        } else if addr == NR34 {
            self.freq.hi_value()
        } else {
            self.wave_ram@[addr - WAVE_RAM_START]
        }
    }

    /// A trigger reloads the length counter and the frequency timer and
    /// restarts the wave.
    pub open spec fn after_trigger(self) -> Ch3 {
        Ch3 { len: self.len.after_reload(), wave_pos: 0, freq: self.freq.after_reload(), ..self }
    }

    /// `new` is `old` after `data` is written to `addr`; wave RAM takes
    /// writes only while the channel is off.
    pub open spec fn written(new: Ch3, old: Ch3, addr: u16, data: u8) -> bool {
        if WAVE_RAM_START <= addr <= WAVE_RAM_END {
            &&& new == Ch3 { wave_ram: new.wave_ram, ..old }
            &&& new.wave_ram@ == if !old.is_on {
                old.wave_ram@.update(addr - WAVE_RAM_START, data)
            } else {
                old.wave_ram@
            }
        } else {
            new == old.after_register_write(addr, data)
        }
    }

    pub open spec fn after_register_write(self, addr: u16, data: u8) -> Ch3 {
        if addr == NR30 {
            Ch3 { is_on: ((data >> 7) & 0x01) == 0x01, ..self }
        } else if addr == NR31 {
            Ch3 { len: self.len.after_set(data), ..self }
        } else if addr == NR32 {
            Ch3 { output_level: (data >> 5) & 0x03, ..self }
        } else if addr == NR33 {
            Ch3 { freq: Freq { lo: data, ..self.freq }, ..self }
        } else {
            let f = self.freq.after_set_hi(data);
            let l = if f.len_enable && !self.freq.len_enable && self.len.timer != 0
                && self.frame_seq % 2 == 0 {
                self.len.after_decr()
            } else {
                self.len
            };
            let c = Ch3 { freq: f, len: l, ..self };
            if f.initial {
                c.after_trigger()
            } else {
                c
            }
        }
    }

    /// The sample at `pos` (0 - 31): the high nibble of byte `pos / 2`
    /// first, then its low nibble.
    pub open spec fn sample_at(&self, pos: int) -> u8 {
        let b = self.wave_ram@[pos / 2];
        if pos % 2 == 0 {
            b >> 4u8
        } else {
            b & 0x0F
        }
    }

    /// The wave channel as it powers on, with the wave pattern the DMG
    /// starts with.
    pub open spec fn is_initial(&self) -> bool {
        &&& !self.is_on && self.output_level == 0
        &&& self.len == (LenPat { duty: 0, length: 0, timer: 0, enable: false, mask: 0xFF })
        &&& self.freq == (Freq {
            initial: false,
            len_enable: false,
            hi: 0,
            lo: 0,
            timer: 0,
            cycle_multiplier: 64,
        })
        &&& self.frame_seq == 0 && self.wave_pos == 0 && self.internal_cycles == 0
        &&& self.sample_buffer == 0
        &&& self.wave_ram@ == seq![
            0x84u8, 0x40, 0x43, 0xAA, 0x2D, 0x78, 0x92, 0x3C, 0x60, 0x59, 0x59, 0xB0, 0x34,
            0xB8, 0x2E, 0xDA,
        ]
    }

    pub fn new() -> (c: Ch3)
        ensures
            c.wf(),
            c.is_initial(),
            !c.is_on && c.output_level == 0,
            c.len == (LenPat { duty: 0, length: 0, timer: 0, enable: false, mask: 0xFF }),
            c.freq == (Freq {
                initial: false,
                len_enable: false,
                hi: 0,
                lo: 0,
                timer: 0,
                cycle_multiplier: 64,
            }),
            c.frame_seq == 0 && c.wave_pos == 0 && c.internal_cycles == 0 && c.sample_buffer == 0,
            c.wave_ram@ == seq![
                0x84u8, 0x40, 0x43, 0xAA, 0x2D, 0x78, 0x92, 0x3C, 0x60, 0x59, 0x59, 0xB0, 0x34,
                0xB8, 0x2E, 0xDA,
            ],
    {
        Ch3 {
            is_on: false,
            len: LenPat::new(0xFF),
            output_level: 0,
            freq: Freq::new(64),
            frame_seq: 0,
            wave_pos: 0,
            internal_cycles: 0,
            wave_ram: vec![
                0x84, 0x40, 0x43, 0xAA, 0x2D, 0x78, 0x92, 0x3C, 0x60, 0x59, 0x59, 0xB0, 0x34, 0xB8,
                0x2E, 0xDA,
                // These are somewhat random, this just one possible set
            ],
            sample_buffer: 0,
        }
    }

    pub fn read_byte(&self, addr: u16) -> (b: u8)
        requires
            self.wf(),
            NR30 <= addr <= NR34 || WAVE_RAM_START <= addr <= WAVE_RAM_END,
        ensures
            b == self.reg(addr),
    {
        if addr == NR30 {
            let on: u8 = if self.is_on { 0x80 } else { 0 };
            on | 0x7F
        } else if addr == NR31 {
            0xFF
        } else if addr == NR32 {
            (self.output_level << 5u8) | 0x9F
        } else if addr == NR33 {
            self.freq.get_lo()
        } else if addr == NR34 {
            self.freq.get_hi()
        } else {
            self.wave_ram[(addr - WAVE_RAM_START) as usize]
        }
    }

    pub fn write_byte(&mut self, addr: u16, data: u8)
        requires
            old(self).wf(),
            NR30 <= addr <= NR34 || WAVE_RAM_START <= addr <= WAVE_RAM_END,
        ensures
            final(self).wf(),
            Ch3::written(*final(self), *old(self), addr, data),
    {
        if addr == NR30 {
            self.is_on = ((data >> 7) & 0x01) == 0x01;
        } else if addr == NR31 {
            self.len.set(data);
        } else if addr == NR32 {
            self.output_level = (data >> 5) & 0x03;
            assert((data >> 5) & 0x03 <= 3) by (bit_vector);
        } else if addr == NR33 {
            self.freq.set_lo(data);
        } else if addr == NR34 {
            let prev_len_enable = self.freq.len_enable;
            self.freq.set_hi(data);
            if self.freq.len_enable && !prev_len_enable && self.len.timer != 0 && (self.frame_seq
                % 2) == 0 {
                self.len.decr_len();
            }
            if self.freq.initial {
                self.on_trigger();
            }
        } else {
            if !self.is_on {
                self.wave_ram.set((addr - WAVE_RAM_START) as usize, data);
            }
        }
    }

    /// Runs `cycles` clock cycles: the frequency timer steps through the
    /// wave and the frame sequencer clocks the length counter on even steps.
    /// The channel `cycles` clock cycles later: a frequency timer expiry
    /// moves to the next sample, and every other step of the 512 Hz frame
    /// sequencer clocks the length counter.
    pub open spec fn after_cycles(self, cycles: usize) -> Ch3 {
        let ic = if self.internal_cycles + cycles > usize::MAX {
            (self.internal_cycles + cycles - (usize::MAX + 1)) as usize
        } else {
            (self.internal_cycles + cycles) as usize
        };
        let ticked = self.freq.timer <= cycles as u32;
        let pos = if ticked { ((self.wave_pos + 1) % 32) as usize } else { self.wave_pos };
        let t = Ch3 {
            internal_cycles: ic,
            freq: self.freq.after_cycles(cycles),
            wave_pos: pos,
            sample_buffer: if ticked { self.sample_at(pos as int) } else { self.sample_buffer },
            ..self
        };
        if ic >= FRAME_SEQ_CYCLES {
            let u = Ch3 {
                frame_seq: ((t.frame_seq + 1) % 8) as u8,
                internal_cycles: (ic - FRAME_SEQ_CYCLES) as usize,
                ..t
            };
            if u.frame_seq % 2 == 0 && u.freq.len_enable && u.len.timer != 0 {
                Ch3 { len: u.len.after_decr(), ..u }
            } else {
                u
            }
        } else {
            t
        }
    }

    pub fn adv_cycles(&mut self, cycles: usize)
        requires
            old(self).wf(),
        ensures
            final(self).wf(),
            *final(self) == old(self).after_cycles(cycles),
    {
        self.internal_cycles = self.internal_cycles.wrapping_add(cycles);
        if self.freq.decr_timer(cycles) {
            self.wave_pos = (self.wave_pos + 1) % 32;  // 0 - 31
            self.load_sample_buffer();
        }
        if self.internal_cycles >= FRAME_SEQ_CYCLES {
            self.frame_seq = (self.frame_seq + 1) % 8;
            self.internal_cycles = self.internal_cycles.wrapping_sub(FRAME_SEQ_CYCLES);
            if self.frame_seq % 2 == 0 {
                self.clock_length();
            }
        }
    }

    pub fn clock_length(&mut self)
        requires
            old(self).wf(),
        ensures
            final(self).wf(),
            *final(self) == if old(self).freq.len_enable && old(self).len.timer != 0 {
                Ch3 { len: old(self).len.after_decr(), ..*old(self) }
            } else {
                *old(self)
            },
    {
        if self.freq.len_enable && (self.len.timer != 0) {
            self.len.decr_len();
        }
    }

    fn load_sample_buffer(&mut self)
        requires
            old(self).wf(),
        ensures
            final(self).wf(),
            *final(self) == (Ch3 {
                sample_buffer: old(self).sample_at(old(self).wave_pos as int),
                ..*old(self)
            }),
    {
        // wave ram is 16 bytes, every 4 bits is a sample
        let wave_index = self.wave_pos / 2;
        // The upper 4 bits should be first, so if this calculation
        // returns 0, then we need to take the upper 4 bits of the index
        let sample_num = self.wave_pos % 2;  // 1 means the low 4 bits
        self.sample_buffer = if sample_num == 0 {
            self.wave_ram[wave_index] >> 4u8
        } else {
            self.wave_ram[wave_index] & 0x0F
        };
    }

    /// The digital level (0 - 15) fed to the DAC: the sample shifted right
    /// by the output level's shift, 0 while the DAC or the channel is off.
    pub fn get_output(&self) -> (level: u8)
        requires
            self.wf(),
            self.output_level <= 3,
        ensures
            level == if self.is_on && self.len.timer != 0 {
                self.sample_buffer >> shift_of(self.output_level)
            } else {
                0
            },
    {
        if !self.is_dac_enabled() || !self.is_ch_enabled() {
            return 0;
        }
        let vol_shift = self.get_output_as_shift_right();
        self.sample_buffer >> vol_shift
    }

    /// The right shift of the output level: mute, 100%, 50%, 25%.
    pub fn get_output_as_shift_right(&self) -> (s: u8)
        requires
            self.output_level <= 3,
        ensures
            s == shift_of(self.output_level),
    {
        if self.output_level == 0 {
            4  // mute
        } else if self.output_level == 1 {
            0  // 100%
        } else if self.output_level == 2 {
            1  // 50%
        } else {
            2  // 25%
        }
    }

    pub fn is_dac_enabled(&self) -> (b: bool)
        ensures
            b == self.is_on,
    {
        self.is_on
    }

    pub fn is_ch_enabled(&self) -> (b: bool)
        ensures
            b == (self.len.timer != 0),
    {
        self.len.timer != 0
    }

    pub fn is_counter_off(&self) -> (b: bool)
        ensures
            b == !self.freq.len_enable,
    {
        !self.freq.len_enable
    }

    fn on_trigger(&mut self)
        requires
            old(self).wf(),
        ensures
            final(self).wf(),
            *final(self) == old(self).after_trigger(),
    {
        /* Length */
        self.len.reload_timer();
        /* Frequency */
        self.wave_pos = 0;
        self.freq.reload_timer();
    }

    /// Restarting resumes with the latched sample, then continues from the
    /// second sample of wave RAM.
    pub fn restart(&mut self)
        ensures
            *final(self) == (Ch3 { frame_seq: 7, wave_pos: 0, ..*old(self) }),
    {
        self.frame_seq = 7;
        self.wave_pos = 0;  // It will increment to the next sample (second)
    }

    pub fn clear(&mut self)
        requires
            old(self).wf(),
        ensures
            final(self).wf(),
            *final(self) == (Ch3 {
                len: old(self).len.after_set(0),
                is_on: false,
                output_level: 0,
                freq: Freq { lo: 0, ..old(self).freq }.after_set_hi(0),
                ..*old(self)
            }),
    {
        self.len.set(0);
        self.is_on = false;
        self.output_level = 0;
        self.freq.set_lo(0);
        self.freq.set_hi(0);
    }

    pub fn dmg_init(&mut self)
        requires
            old(self).wf(),
        ensures
            final(self).wf(),
            *final(self) == (Ch3 {
                is_on: false,
                len: old(self).len.after_set(0xFF),
                output_level: 0,
                freq: Freq { lo: 0xFF, ..old(self).freq }.after_set_hi(0xBF),
                frame_seq: 7,
                wave_pos: 31,
                ..*old(self)
            }),
    {
        self.is_on = false;  // (0x7F >> 7) & 0x01 == 0x01
        self.len.set(0xFF);
        self.output_level = (0x9Fu8 >> 5u8) & 0x03;  // as a write of 0x9F to NR32 leaves it
        assert((0x9Fu8 >> 5u8) & 0x03 == 0) by (bit_vector);
        self.freq.set_lo(0xFF);
        self.freq.set_hi(0xBF);
        self.frame_seq = 7;
        self.wave_pos = 31;  // So that first increment will load sample 0
    }
}

pub open spec fn shift_of(level: u8) -> u8 {
    if level == 0 {
        4
    } else if level == 1 {
        0
    } else if level == 2 {
        1
    } else {
        2
    }
}

} // verus!
