//! Channels 1 and 2: square waves with a length counter and a volume
//! envelope; channel 1 also sweeps its frequency.
use vstd::prelude::*;
use super::{Freq, LenPat, VolEnv, duty_output};
use super::{NR10, NR11, NR12, NR13, NR14};
use super::{NR21, NR22, NR23, NR24};

verus! {

pub const FRAME_SEQ_CYCLES: usize = 8192;

pub struct Tone {
    pub sweep: Option<Sweep>,  // NR10
    pub lenpat: LenPat,  // NR11
    pub volenv: VolEnv,  // NR12
    pub freq: Freq,  // NR13 and NR14
    pub frame_seq: u8,  // dictates which channel gets clocked
    pub internal_cycles: usize,
    pub duty_pos: usize,
}

// NR10
pub struct Sweep {
    pub time: u8,  // Bit 4-6 (More like period)
    pub swp_dir: bool,  // Bit 3 (1 is decr)
    pub shift: u8,  // Bit 0-2
    pub timer: u32,
    pub enable: bool,
    pub sh_freq: u16,
}

pub const SWEEP_MASK: u8 = 0x80;

impl Sweep {
    pub open spec fn wf(&self) -> bool {
        self.time <= 7 && self.shift <= 7 && self.sh_freq <= 2047
    }

    pub open spec fn value(&self) -> u8 {
        SWEEP_MASK | (self.time << 4u8) | (if self.swp_dir { 0x08u8 } else { 0u8 }) | self.shift
    }

    pub open spec fn after_set(self, data: u8) -> Sweep {
        Sweep {
            time: (data >> 4) & 0x07,
            swp_dir: (data >> 3) & 0x01 == 0x01,
            shift: data & 0x07,
            ..self
        }
    }

    pub open spec fn period(&self) -> u32 {
        if self.time == 0 { 8 } else { self.time as u32 }
    }

    /// The next frequency of the sweep: the shadow frequency plus or minus
    /// itself shifted right.
    pub open spec fn next_freq(&self) -> int {
        if self.swp_dir {
            self.sh_freq - (self.sh_freq >> self.shift)
        } else {
            self.sh_freq + (self.sh_freq >> self.shift)
        }
    }

    /// The overflow check: a next frequency above 2047 turns the sweep off.
    pub open spec fn after_calc(self) -> Sweep {
        if self.next_freq() > 2047 {
            Sweep { enable: false, ..self }
        } else {
            self
        }
    }

    pub open spec fn after_tick(self) -> Sweep {
        if self.timer == 1 {
            Sweep { timer: self.period(), ..self }
        } else {
            Sweep { timer: (if self.timer == 0 { u32::MAX } else { (self.timer - 1) as u32 }), ..self }
        }
    }

    pub fn new() -> (s: Sweep)
        ensures
            s.wf(),
            s == (Sweep { time: 0, swp_dir: false, shift: 0, timer: 0, enable: false, sh_freq: 0 }),
    {
        Sweep { time: 0, swp_dir: false, shift: 0, timer: 0, enable: false, sh_freq: 0 }
    }

    pub fn set(&mut self, data: u8)
        requires
            old(self).wf(),
        ensures
            final(self).wf(),
            *final(self) == old(self).after_set(data),
    {
        self.time = (data >> 4) & 0x07;
        self.swp_dir = (data >> 3) & 0x01 == 0x01;
        self.shift = data & 0x07;
        assert((data >> 4) & 0x07 <= 7 && data & 0x07 <= 7) by (bit_vector);
    }

    pub fn get(&self) -> (b: u8)
        ensures
            b == self.value(),
    {
        let dir: u8 = if self.swp_dir { 0x08 } else { 0 };
        SWEEP_MASK | (self.time << 4u8) | dir | self.shift
    }

    pub fn decr_timer(&mut self) -> (ticked: bool)
        ensures
            ticked == (old(self).timer == 1),
            *final(self) == old(self).after_tick(),
    {
        self.timer = self.timer.wrapping_sub(1);
        if self.timer == 0 {
            self.reload_timer();
            return true;
        }
        false
    }

    pub fn reload_timer(&mut self)
        ensures
            *final(self) == (Sweep { timer: old(self).period(), ..*old(self) }),
    {
        self.timer = if self.time == 0 { 8 } else { self.time as u32 };
    }

    pub fn calc_freq(&mut self) -> (f: u16)
        requires
            old(self).wf(),
        ensures
            final(self).wf(),
            f == old(self).next_freq(),
            *final(self) == old(self).after_calc(),
    {
        let sh = self.sh_freq;
        let shift = self.shift;
        let mut new_freq = sh >> shift;
        assert(sh >> shift <= sh) by (bit_vector);
        if self.swp_dir {
            new_freq = self.sh_freq - new_freq;
        } else {
            new_freq = self.sh_freq + new_freq;
        }
        /* overflow check */
        if new_freq > 2047 {
            self.enable = false;
        }
        new_freq
    }
}

impl Tone {
    pub open spec fn wf(&self) -> bool {
        &&& self.lenpat.wf() && self.lenpat.mask == 0x3F
        &&& self.volenv.wf()
        &&& self.freq.wf() && self.freq.cycle_multiplier == 4
        &&& self.frame_seq < 8
        &&& self.duty_pos < 8
        &&& (self.sweep matches Some(s) ==> s.wf())
    }

    pub open spec fn reg(&self, addr: u16) -> u8 {
        if addr == NR10 {
            match self.sweep {
                Some(s) => s.value(),
                None => 0xFF,
            }
        } else if addr == NR11 || addr == NR21 {
            self.lenpat.value()
        } else if addr == NR12 || addr == NR22 {
            self.volenv.value()
        } else if addr == NR13 || addr == NR23 {
            0xFF
        } else {
            self.freq.hi_value()
        }
    }

    /// The channel restarted by a trigger: length, frequency timer and
    /// envelope reload, the sweep takes the current frequency, with the
    /// frame sequencer quirks for the envelope and the length counter.
    pub open spec fn after_trigger(self) -> Tone {
        let l = self.lenpat.after_reload();
        let f = self.freq.after_reload();
        let v0 = VolEnv { timer: self.volenv.period(), cur_vol: self.volenv.initial_vol, ..self.volenv };
        let sw = match self.sweep {
            Some(s) => {
                let s1 = Sweep {
                    sh_freq: f.full(),
                    timer: s.period(),
                    enable: s.time != 0 || s.shift != 0,
                    ..s
                };
                Some(if s.shift != 0 { s1.after_calc() } else { s1 })
            },
            None => None,
        };
        let v = if self.frame_seq == 6 {
            VolEnv { timer: (v0.timer + 1) as u32, ..v0 }
        } else {
            v0
        };
        let l2 = if self.frame_seq % 2 == 0 && l.timer == l.mask + 1 && f.len_enable {
            LenPat { timer: l.mask as u32, ..l }
        } else {
            l
        };
        Tone { duty_pos: 0, lenpat: l2, freq: f, volenv: v, sweep: sw, ..self }
    }

    /// The channel after `data` is written to its register `addr`.
    pub open spec fn after_write(self, addr: u16, data: u8) -> Tone {
        if addr == NR10 {
            match self.sweep {
                Some(s) => Tone { sweep: Some(s.after_set(data)), ..self },
                None => self,
            }
        } else if addr == NR11 || addr == NR21 {
            Tone { lenpat: self.lenpat.after_set(data), ..self }
        } else if addr == NR12 || addr == NR22 {
            Tone { volenv: self.volenv.after_set(data), ..self }
        } else if addr == NR13 || addr == NR23 {
            Tone { freq: Freq { lo: data, ..self.freq }, ..self }
        } else {
            let f = self.freq.after_set_hi(data);
            let l = if f.len_enable && !self.freq.len_enable && self.lenpat.timer != 0
                && self.frame_seq % 2 == 0 {
                self.lenpat.after_decr()
            } else {
                self.lenpat
            };
            let t = Tone { freq: f, lenpat: l, ..self };
            if f.initial {
                t.after_trigger()
            } else {
                t
            }
        }
    }

    pub open spec fn written(new: Tone, old: Tone, addr: u16, data: u8) -> bool {
        new == old.after_write(addr, data)
    }

    pub open spec fn after_clock_length(self) -> Tone {
        if self.freq.len_enable && self.lenpat.enable {
            Tone { lenpat: self.lenpat.after_decr(), ..self }
        } else {
            self
        }
    }

    /// One sweep clock: when the sweep timer runs out and the sweep is on,
    /// a next frequency below 2048 is taken (with a shift above 0) and
    /// checked once more for overflow.
    pub open spec fn after_clock_sweep(self) -> Tone {
        match self.sweep {
            Some(s) => if s.timer == 0 {
                self
            } else {
                let s1 = s.after_tick();
                if s.timer == 1 && s1.enable && s1.time > 0 {
                    let nf = s1.next_freq();
                    let s2 = s1.after_calc();
                    if nf <= 2047 && s2.shift > 0 {
                        Tone {
                            freq: self.freq.after_set_full(nf as u16),
                            sweep: Some(Sweep { sh_freq: nf as u16, ..s2 }.after_calc()),
                            ..self
                        }
                    } else {
                        Tone { sweep: Some(s2), ..self }
                    }
                } else {
                    Tone { sweep: Some(s1), ..self }
                }
            },
            None => self,
        }
    }

    pub open spec fn after_clock_volenv(self) -> Tone {
        if self.volenv.sweep == 0 || self.volenv.timer == 0 {
            self
        } else {
            Tone { volenv: self.volenv.after_tick(), ..self }
        }
    }

    /// The frame sequencer step that clocks length (0, 2, 4, 6), sweep
    /// (2, 6) and envelope (7).
    pub open spec fn after_frame_step(self) -> Tone {
        let step = self.frame_seq;
        if step == 0 || step == 4 {
            self.after_clock_length()
        } else if step == 2 || step == 6 {
            self.after_clock_length().after_clock_sweep()
        } else if step == 7 {
            self.after_clock_volenv()
        } else {
            self
        }
    }

    /// The channel `cycles` clock cycles later.
    pub open spec fn after_cycles(self, cycles: usize) -> Tone {
        let ic = if self.internal_cycles + cycles > usize::MAX {
            (self.internal_cycles + cycles - (usize::MAX + 1)) as usize
        } else {
            (self.internal_cycles + cycles) as usize
        };
        let ticked = self.freq.timer <= cycles as u32;
        let t = Tone {
            internal_cycles: ic,
            freq: self.freq.after_cycles(cycles),
            duty_pos: if ticked { ((self.duty_pos + 1) % 8) as usize } else { self.duty_pos },
            ..self
        };
        if ic >= FRAME_SEQ_CYCLES {
            Tone {
                frame_seq: ((t.frame_seq + 1) % 8) as u8,
                internal_cycles: (ic - FRAME_SEQ_CYCLES) as usize,
                ..t
            }.after_frame_step()
        } else {
            t
        }
    }

    /// A square channel as it powers on, without a sweep unit.
    pub open spec fn initial() -> Tone {
        Tone {
            sweep: None,
            lenpat: LenPat { duty: 0, length: 0, timer: 0, enable: false, mask: 0x3F },
            volenv: VolEnv { initial_vol: 0, dir_up: false, sweep: 0, timer: 0, cur_vol: 0 },
            freq: Freq {
                initial: false,
                len_enable: false,
                hi: 0,
                lo: 0,
                timer: 0,
                cycle_multiplier: 4,
            },
            frame_seq: 0,
            internal_cycles: 0,
            duty_pos: 0,
        }
    }

    pub fn new() -> (t: Tone)
        ensures
            t.wf(),
            t == Tone::initial(),
    {
        Tone {
            sweep: None,
            lenpat: LenPat::new(0x3F),
            volenv: VolEnv::new(),
            freq: Freq::new(4),
            frame_seq: 0,
            internal_cycles: 0,
            duty_pos: 0,
        }
    }

    pub fn with_sweep(self) -> (t: Tone)
        requires
            self.wf(),
        ensures
            t.wf(),
            t == (Tone {
                sweep: Some(
                    Sweep { time: 0, swp_dir: false, shift: 0, timer: 0, enable: false, sh_freq: 0 },
                ),
                ..self
            }),
    {
        let mut this = self;
        this.sweep = Some(Sweep::new());
        this
    }

    pub fn read_byte(&self, addr: u16) -> (b: u8)
        requires
            self.wf(),
            NR10 <= addr <= NR14 || NR21 <= addr <= NR24,
            addr == NR10 ==> self.sweep.is_some(),
        ensures
            b == self.reg(addr),
    {
        if addr == NR10 {
            match &self.sweep {
                Some(sweep) => sweep.get(),
                None => 0xFF,
            }
        } else if addr == NR11 || addr == NR21 {
            self.lenpat.get()
        } else if addr == NR12 || addr == NR22 {
            self.volenv.get()
        } else if addr == NR13 || addr == NR23 {
            self.freq.get_lo()
        } else {
            self.freq.get_hi()
        }
    }

    pub fn write_byte(&mut self, addr: u16, data: u8)
        requires
            old(self).wf(),
            NR10 <= addr <= NR14 || NR21 <= addr <= NR24,
            addr == NR10 ==> old(self).sweep.is_some(),
        ensures
            final(self).wf(),
            final(self).sweep.is_some() == old(self).sweep.is_some(),
            *final(self) == old(self).after_write(addr, data),
    {
        if addr == NR10 {
            match &mut self.sweep {
                Some(sweep) => sweep.set(data),
                None => {},
            }
        } else if addr == NR11 || addr == NR21 {
            self.lenpat.set(data);
        } else if addr == NR12 || addr == NR22 {
            self.volenv.set(data);
        } else if addr == NR13 || addr == NR23 {
            self.freq.set_lo(data);
        } else {
            let prev_len_enable = self.freq.len_enable;
            self.freq.set_hi(data);
            if self.freq.len_enable && !prev_len_enable && self.lenpat.timer != 0
                && (self.frame_seq % 2) == 0 {
                self.lenpat.decr_len();
            }
            // Its possible that the result above causes the channel to disable
            // It should stay disabled if the trigger is clear, but if the trigger
            // is set it'll get renabled below
            if self.freq.initial {
                self.on_trigger();
            }
        }
    }

    pub fn adv_cycles(&mut self, cycles: usize)
        requires
            old(self).wf(),
        ensures
            final(self).wf(),
            final(self).sweep.is_some() == old(self).sweep.is_some(),
            *final(self) == old(self).after_cycles(cycles),
    {
        self.internal_cycles = self.internal_cycles.wrapping_add(cycles);
        if self.freq.decr_timer(cycles) {
            self.duty_pos = (self.duty_pos + 1) % 8;
        }
        if self.internal_cycles >= FRAME_SEQ_CYCLES {
            // Currently this will skip the first length clock (Should it?)
            self.frame_seq = (self.frame_seq + 1) % 8;
            self.internal_cycles = self.internal_cycles.wrapping_sub(FRAME_SEQ_CYCLES);
            let step = self.frame_seq;
            if step == 0 || step == 4 {
                self.clock_length();
            } else if step == 2 || step == 6 {
                self.clock_length();
                self.clock_sweep();
            } else if step == 7 {
                self.clock_volenv();
            }
        }
    }

    fn clock_length(&mut self)
        requires
            old(self).wf(),
        ensures
            final(self).wf(),
            *final(self) == old(self).after_clock_length(),
    {
        if self.freq.len_enable && self.lenpat.enable {
            self.lenpat.decr_len();
        }
    }

    fn clock_sweep(&mut self)
        requires
            old(self).wf(),
        ensures
            final(self).wf(),
            final(self).sweep.is_some() == old(self).sweep.is_some(),
            *final(self) == old(self).after_clock_sweep(),
    {
        match &mut self.sweep {
            Some(sweep) => {
                if sweep.timer == 0 {
                    return;
                }
                if sweep.decr_timer() {
                    if sweep.enable && sweep.time > 0 {
                        let new_freq = sweep.calc_freq();
                        if new_freq <= 2047 && sweep.shift > 0 {
                            self.freq.set_full(new_freq);
                            sweep.sh_freq = new_freq;
                            /* for overflow check */
                            sweep.calc_freq();
                        }
                    }
                }
            },
            None => {},
        }
        // ch2 will do nothing since it has no sweep
    }

    fn clock_volenv(&mut self)
        requires
            old(self).wf(),
        ensures
            final(self).wf(),
            *final(self) == old(self).after_clock_volenv(),
    {
        if self.volenv.sweep == 0 {
            return;
        }
        if self.volenv.timer != 0 {
            self.volenv.decr_timer();
        }
    }

    /// The digital level (0 - 15) the channel feeds its DAC: the duty step
    /// times the volume, 0 while the channel is off.
    pub fn get_output(&self) -> (level: u8)
        requires
            self.wf(),
        ensures
            level == if self.lenpat.enable {
                (super::duty_wave(self.lenpat.duty, self.duty_pos as int) * self.volenv.cur_vol) as u8
            } else {
                0
            },
    {
        if !self.is_ch_enabled() {
            return 0;
        }
        let duty_bit = duty_output(self.lenpat.duty, self.duty_pos);
        duty_bit * self.volenv.cur_vol
    }

    fn on_trigger(&mut self)
        requires
            old(self).wf(),
        ensures
            final(self).wf(),
            final(self).sweep.is_some() == old(self).sweep.is_some(),
            *final(self) == old(self).after_trigger(),
    {
        /* Length */
        self.duty_pos = 0;
        self.lenpat.reload_timer();
        /* Frequency */
        self.freq.reload_timer();
        /* Volume Envelope */
        self.volenv.reload_timer();
        self.volenv.reload_vol();
        /* Sweep */
        let full = self.freq.get_full();
        match &mut self.sweep {
            Some(sweep) => {
                sweep.sh_freq = full;
                sweep.reload_timer();
                sweep.enable = (sweep.time != 0) || (sweep.shift != 0);
                if sweep.shift != 0 {
                    // For overflow check (Might disable)
                    sweep.calc_freq();
                }
            },
            None => {},
        }
        /* Some of Obscure Behaviour */
        if self.frame_seq == 6 {
            // If the next step clocks the volume envelope
            self.volenv.timer = self.volenv.timer.wrapping_add(1);
        }
        if (self.frame_seq % 2) == 0 {
            // if the next step doesnt clock the length counter and the previous
            // length before reloading it above was 0, instead of 64/256, load with 63/255
            if self.lenpat.timer == self.lenpat.mask as u32 + 1 && self.freq.len_enable {
                self.lenpat.timer = self.lenpat.mask as u32;
            }
        }
    }

    pub fn is_ch_enabled(&self) -> (b: bool)
        ensures
            b == self.lenpat.enable,
    {
        self.lenpat.enable
    }

    /// Register values left behind by the DMG boot ROM.
    pub fn dmg_init(&mut self)
        requires
            old(self).wf(),
        ensures
            final(self).wf(),
            final(self).sweep.is_some() == old(self).sweep.is_some(),
            final(self).lenpat.value() == old(self).lenpat.after_set(0xBF).value(),
            final(self).volenv.value() == old(self).volenv.after_set(0xF3).value(),
            final(self).freq.hi_value() == old(self).freq.after_set_hi(0xBF).hi_value(),
            final(self).freq.lo == 0xFF,
    {
        self.lenpat.set(0xBF);
        self.volenv.set(0xF3);
        self.freq.set_lo(0xFF);
        self.freq.set_hi(0xBF);
        self.lenpat.reload_timer();
        self.freq.reload_timer();  // I think
        self.volenv.reload_timer();
        self.volenv.reload_vol();
        let full = self.freq.get_full();
        match &mut self.sweep {
            Some(sweep) => {
                sweep.set(0x80);
                sweep.sh_freq = full;
                sweep.reload_timer();
                sweep.enable = (sweep.time != 0) || (sweep.shift != 0);
            },
            None => {},
        }
    }
}

} // verus!
