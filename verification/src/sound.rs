/*
    Produce sound in 4 different ways:
        Quadrangular wave patterns with sweep and envelope functions (CH1)
        Quadrangular wave patterns with envelope functions (CH2)
        Voluntary wave patterns from wave RAM (CH3)
        White noise with an envelope function (CH4)
*/
//! The audio unit's registers and the timers behind them: length counters,
//! volume envelopes, frequency timers, the sweep of channel 1 and the
//! noise generator of channel 4.
pub mod channel3;
pub mod channel4;
pub mod tone_sweep;

use vstd::prelude::*;
use self::channel3::Ch3;
use self::channel4::Ch4;
use self::tone_sweep::{Sweep, Tone};

verus! {

pub const NR10: u16 = 0xFF10;
pub const NR11: u16 = 0xFF11;
pub const NR12: u16 = 0xFF12;
pub const NR13: u16 = 0xFF13;
pub const NR14: u16 = 0xFF14;
pub const NR21: u16 = 0xFF16;
pub const NR22: u16 = 0xFF17;
pub const NR23: u16 = 0xFF18;
pub const NR24: u16 = 0xFF19;
pub const NR30: u16 = 0xFF1A;
pub const NR31: u16 = 0xFF1B;
pub const NR32: u16 = 0xFF1C;
pub const NR33: u16 = 0xFF1D;
pub const NR34: u16 = 0xFF1E;
pub const NR41: u16 = 0xFF20;
pub const NR42: u16 = 0xFF21;
pub const NR43: u16 = 0xFF22;
pub const NR44: u16 = 0xFF23;
pub const NR50: u16 = 0xFF24;
pub const NR51: u16 = 0xFF25;
pub const NR52: u16 = 0xFF26;
pub const PCM12: u16 = 0xFF76;
pub const PCM34: u16 = 0xFF77;

pub const WAVE_RAM_START: u16 = 0xFF30;
pub const WAVE_RAM_END: u16 = 0xFF3F;

/// Step `pos` (0 - 7) of the square wave with duty pattern `duty`: 12.5%,
/// 25%, 50% and 75% high.
pub open spec fn duty_wave(duty: u8, pos: int) -> u8 {
    if duty == 0 {
        if pos == 7 { 1 } else { 0 }
    } else if duty == 1 {
        if pos >= 6 { 1 } else { 0 }
    } else if duty == 2 {
        if pos >= 4 { 1 } else { 0 }
    } else {
        if pos <= 5 { 1 } else { 0 }
    }
}

pub fn duty_output(duty: u8, pos: usize) -> (b: u8)
    requires
        pos < 8,
    ensures
        b == duty_wave(duty, pos as int),
{
    if duty == 0 {
        if pos == 7 { 1 } else { 0 }
    } else if duty == 1 {
        if pos >= 6 { 1 } else { 0 }
    } else if duty == 2 {
        if pos >= 4 { 1 } else { 0 }
    } else {
        if pos <= 5 { 1 } else { 0 }
    }
}

/// A register the audio unit answers for.
pub open spec fn is_sound_reg(addr: u16) -> bool {
    ||| NR10 <= addr <= NR14
    ||| NR21 <= addr <= NR34
    ||| NR41 <= addr <= NR52
    ||| addr == PCM12
    ||| addr == PCM34
    ||| WAVE_RAM_START <= addr <= WAVE_RAM_END
}

pub struct Sound {
    pub ch1: Tone,
    pub ch2: Tone,
    pub ch3: Ch3,
    pub ch4: Ch4,
    pub nr50: ChControl,
    pub nr51: u8,
    pub nr52: u8,
    pub pcm12: u8,
    pub pcm34: u8,
}

impl Sound {
    pub open spec fn wf(&self) -> bool {
        &&& self.ch1.wf() && self.ch1.sweep.is_some()
        &&& self.ch2.wf() && self.ch2.sweep.is_none()
        &&& self.ch3.wf()
        &&& self.ch4.wf()
    }

    /// The value a read of `addr` gives.
    pub open spec fn reg(&self, addr: u16) -> u8 {
        if NR10 <= addr <= NR14 {
            self.ch1.reg(addr)
        } else if NR21 <= addr <= NR24 {
            self.ch2.reg(addr)
        } else if NR30 <= addr <= NR34 || WAVE_RAM_START <= addr <= WAVE_RAM_END {
            self.ch3.reg(addr)
        } else if NR41 <= addr <= NR44 {
            self.ch4.reg(addr)
        } else if addr == NR50 {
            self.nr50.value()
        } else if addr == NR51 {
            self.nr51
        } else if addr == NR52 {
            self.nr52
        } else if addr == PCM12 {
            self.pcm12
        } else if addr == PCM34 {
            self.pcm34
        } else {
            0xFF
        }
    }

    /// `new` is `old` after a write of `data` to `addr`: a channel register
    /// goes to its channel, NR52 keeps its channel status bits, the PCM
    /// registers are read only.
    pub open spec fn written(new: Sound, old: Sound, addr: u16, data: u8) -> bool {
        if NR10 <= addr <= NR14 {
            new == Sound { ch1: new.ch1, ..old } && Tone::written(new.ch1, old.ch1, addr, data)
        } else if NR21 <= addr <= NR24 {
            new == Sound { ch2: new.ch2, ..old } && Tone::written(new.ch2, old.ch2, addr, data)
        } else if NR30 <= addr <= NR34 || WAVE_RAM_START <= addr <= WAVE_RAM_END {
            new == Sound { ch3: new.ch3, ..old } && Ch3::written(new.ch3, old.ch3, addr, data)
        } else if NR41 <= addr <= NR44 {
            new == Sound { ch4: new.ch4, ..old } && Ch4::written(new.ch4, old.ch4, addr, data)
        } else if addr == NR50 {
            new == Sound { nr50: ChControl::from_byte(data), ..old }
        } else if addr == NR51 {
            new == Sound { nr51: data, ..old }
        } else if addr == NR52 {
            new == Sound { nr52: (data & 0x80) | 0x70 | (old.nr52 & 0x0F), ..old }
        } else {
            new == old
        }
    }

    /// The sound unit as it powers on: every channel silent and every
    /// register clear.
    pub open spec fn is_initial(&self) -> bool {
        &&& self.ch1 == (Tone {
            sweep: Some(
                Sweep { time: 0, swp_dir: false, shift: 0, timer: 0, enable: false, sh_freq: 0 },
            ),
            ..Tone::initial()
        })
        &&& self.ch2 == Tone::initial()
        &&& self.ch3.is_initial()
        &&& self.ch4 == Ch4::initial()
        &&& self.nr50 == (ChControl {
            output_so2_vin_enable: false,
            so2_output: 0,
            output_so1_vin_enable: false,
            so1_output: 0,
        })
        &&& self.nr51 == 0 && self.nr52 == 0 && self.pcm12 == 0 && self.pcm34 == 0
    }

    pub fn new() -> (s: Sound)
        ensures
            s.wf(),
            s.is_initial(),
            s.nr50.value() == 0 && s.nr51 == 0 && s.nr52 == 0 && s.pcm12 == 0 && s.pcm34 == 0,
    {
        let s = Sound {
            ch1: Tone::new().with_sweep(),
            ch2: Tone::new(),
            ch3: Ch3::new(),
            ch4: Ch4::new(),
            nr50: ChControl::new(),
            nr51: 0,
            nr52: 0,
            pcm12: 0,
            pcm34: 0,
        };
        assert(s.nr50.value() == 0) by {
            assert((0u8 | (0u8 << 4u8) | 0u8 | 0u8) == 0u8) by (bit_vector);
        }
        s
    }

    pub fn read_byte(&self, addr: u16) -> (b: u8)
        requires
            self.wf(),
            is_sound_reg(addr),
            addr != 0xFF15 && addr != 0xFF1F,
        ensures
            b == self.reg(addr),
    {
        if addr >= NR10 && addr <= NR14 {
            self.ch1.read_byte(addr)
        } else if addr >= NR21 && addr <= NR24 {
            self.ch2.read_byte(addr)
        } else if (addr >= NR30 && addr <= NR34) || (addr >= WAVE_RAM_START && addr
            <= WAVE_RAM_END) {
            self.ch3.read_byte(addr)
        } else if addr >= NR41 && addr <= NR44 {
            self.ch4.read_byte(addr)
        } else if addr == NR50 {
            self.nr50.get()
        } else if addr == NR51 {
            self.nr51
        } else if addr == NR52 {
            self.nr52
        } else if addr == PCM12 {
            self.pcm12
        } else {
            self.pcm34
        }
    }

    /// Writes a sound register: a channel register goes to its channel,
    /// NR52 keeps its channel status bits, the PCM registers are read only.
    pub fn write_byte(&mut self, addr: u16, data: u8)
        requires
            old(self).wf(),
            is_sound_reg(addr),
            addr != 0xFF15 && addr != 0xFF1F,
        ensures
            final(self).wf(),
            Sound::written(*final(self), *old(self), addr, data),
    {
        if addr >= NR10 && addr <= NR14 {
            self.ch1.write_byte(addr, data);
        } else if addr >= NR21 && addr <= NR24 {
            self.ch2.write_byte(addr, data);
        } else if (addr >= NR30 && addr <= NR34) || (addr >= WAVE_RAM_START && addr
            <= WAVE_RAM_END) {
            self.ch3.write_byte(addr, data);
        } else if addr >= NR41 && addr <= NR44 {
            self.ch4.write_byte(addr, data);
        } else if addr == NR50 {
            self.nr50.set(data);
        } else if addr == NR51 {
            self.nr51 = data;
        } else if addr == NR52 {
            // Reading from NR52 while the audio processing unit is disabled
            // yields the values last written into the unused bits (0x70).
            self.nr52 = (data & 0x80) | 0x70 | (self.nr52 & 0x0F);
        }
    }

    pub fn adv_cycles(&mut self, cycles: usize)
        requires
            old(self).wf(),
        ensures
            final(self).wf(),
            *final(self) == (Sound {
                ch1: old(self).ch1.after_cycles(cycles),
                ch2: old(self).ch2.after_cycles(cycles),
                ch3: old(self).ch3.after_cycles(cycles),
                ch4: old(self).ch4.after_cycles(cycles),
                ..*old(self)
            }),
    {
        self.ch1.adv_cycles(cycles);
        self.ch2.adv_cycles(cycles);
        self.ch3.adv_cycles(cycles);
        self.ch4.adv_cycles(cycles);
    }

    pub fn dmg_init(&mut self)
        requires
            old(self).wf(),
        ensures
            final(self).wf(),
            final(self).nr50 == ChControl::from_byte(0x77),
            final(self).nr51 == 0xF3,
            final(self).nr52 == 0xF1,
    {
        self.ch1.dmg_init();
        self.ch2.dmg_init();
        self.ch3.dmg_init();
        self.ch4.dmg_init();
        self.nr50.set(0x77);
        self.nr51 = 0xF3;
        self.nr52 = 0xF1;
    }
}

// NR50
/// The master volume register: the two output volumes (0 - 7) and whether
/// the cartridge's VIN signal goes to each output.
pub struct ChControl {
    pub output_so2_vin_enable: bool,  // Bit 7
    pub so2_output: u8,  // Bit 4-6
    pub output_so1_vin_enable: bool,  // Bit 3
    pub so1_output: u8,  // Bit 0-2
}

impl ChControl {
    pub open spec fn from_byte(data: u8) -> ChControl {
        ChControl {
            output_so2_vin_enable: (data >> 7) & 0x01 == 0x01,
            so2_output: (data >> 4) & 0x07,
            output_so1_vin_enable: (data >> 3) & 0x01 == 0x01,
            so1_output: data & 0x07,
        }
    }

    pub open spec fn value(&self) -> u8 {
        (if self.output_so2_vin_enable { 0x80u8 } else { 0u8 }) | (self.so2_output << 4u8) | (
        if self.output_so1_vin_enable {
            0x08u8
        } else {
            0u8
        }) | self.so1_output
    }

    pub fn new() -> (c: ChControl)
        ensures
            c == (ChControl {
                output_so2_vin_enable: false,
                so2_output: 0,
                output_so1_vin_enable: false,
                so1_output: 0,
            }),
    {
        ChControl {
            output_so2_vin_enable: false,
            so2_output: 0x00,
            output_so1_vin_enable: false,
            so1_output: 0x00,
        }
    }

    pub fn set(&mut self, data: u8)
        ensures
            *final(self) == ChControl::from_byte(data),
    {
        self.output_so2_vin_enable = (data >> 7) & 0x01 == 0x01;
        self.so2_output = (data >> 4) & 0x07;
        self.output_so1_vin_enable = (data >> 3) & 0x01 == 0x01;
        self.so1_output = data & 0x07;
    }

    pub fn get(&self) -> (b: u8)
        ensures
            b == self.value(),
    {
        let hi: u8 = if self.output_so2_vin_enable { 0x80 } else { 0 };
        let mid: u8 = if self.output_so1_vin_enable { 0x08 } else { 0 };
        hi | (self.so2_output << 4u8) | mid | self.so1_output
    }
}

/// NR50 reads back every byte written to it.
pub proof fn lemma_nr50_roundtrip(data: u8)
    ensures
        ChControl::from_byte(data).value() == data,
{
    let c = ChControl::from_byte(data);
    let hi: u8 = if c.output_so2_vin_enable { 0x80u8 } else { 0u8 };
    let mid: u8 = if c.output_so1_vin_enable { 0x08u8 } else { 0u8 };
    assert(hi | (((data >> 4) & 0x07) << 4u8) | mid | (data & 0x07) == data) by (bit_vector)
        requires
            hi == (if (data >> 7) & 0x01 == 0x01 { 0x80u8 } else { 0u8 }),
            mid == (if (data >> 3) & 0x01 == 0x01 { 0x08u8 } else { 0u8 }),
    ;
}

/// Sound length and wave pattern duty (NRx1).
pub struct LenPat {
    pub duty: u8,  // Bit 6-7
    pub length: u8,  // Bit 0-5  (This is not a reload value)
    pub timer: u32,
    pub enable: bool,
    pub mask: u8,
}

impl LenPat {
    /// The length timer never exceeds the length of a full period.
    pub open spec fn wf(&self) -> bool {
        self.timer <= self.mask + 1
    }

    pub open spec fn value(&self) -> u8 {
        self.mask | (self.duty << 6u8) | self.length
    }

    pub open spec fn after_set(self, data: u8) -> LenPat {
        LenPat {
            duty: (data >> 6) & 0x03,
            length: data & self.mask,
            timer: (self.mask - (data & self.mask) + 1) as u32,
            ..self
        }
    }

    pub open spec fn after_decr(self) -> LenPat {
        if self.timer <= 1 {
            LenPat { timer: 0, enable: false, ..self }
        } else {
            LenPat { timer: (self.timer - 1) as u32, ..self }
        }
    }

    pub open spec fn after_reload(self) -> LenPat {
        LenPat {
            timer: if self.timer == 0 { (self.mask + 1) as u32 } else { self.timer },
            enable: true,
            ..self
        }
    }

    pub fn new(mask: u8) -> (l: LenPat)
        ensures
            l == (LenPat { duty: 0, length: 0, timer: 0, enable: false, mask }),
            l.wf(),
    {
        LenPat {
            duty: 0,  // Not used by ch3 and ch4
            length: 0,
            timer: 0,
            enable: false,
            mask: mask,  // 0x3F for ch1, ch2, and ch4, 0xFF for ch3
        }
    }

    /// Sets the duty and the length; the timer counts what is left of the
    /// period.
    pub fn set(&mut self, data: u8)
        ensures
            *final(self) == old(self).after_set(data),
            final(self).wf(),
    {
        self.duty = (data >> 6) & 0x03;
        self.length = data & self.mask;
        let mask = self.mask;
        assert(data & mask <= mask) by (bit_vector);
        self.timer = (self.mask - self.length) as u32 + 1;
    }

    pub fn get(&self) -> (b: u8)
        ensures
            b == self.value(),
    {
        self.mask | (self.duty << 6u8) | self.length
    }

    /// Counts the length timer down; at 0 (or after a wrap) the channel
    /// stops and `true` is returned.
    pub fn decr_len(&mut self) -> (expired: bool)
        requires
            old(self).wf(),
        ensures
            final(self).wf(),
            expired == (old(self).timer <= 1),
            *final(self) == old(self).after_decr(),
    {
        self.timer = self.timer.wrapping_sub(1);
        if self.timer == 0x00 || self.timer > self.mask as u32 + 1 {
            self.timer = 0;
            self.enable = false;
            return true;
        }
        false
    }

    // Only reload on trigger
    pub fn reload_timer(&mut self)
        requires
            old(self).wf(),
        ensures
            final(self).wf(),
            *final(self) == old(self).after_reload(),
    {
        if self.timer == 0 {
            self.timer = self.mask as u32 + 1;
        }
        self.enable = true;
    }
}

/// Volume envelope (NRx2).
pub struct VolEnv {
    pub initial_vol: u8,  // Bit 4-7 (0 is no sound)
    pub dir_up: bool,  // Bit 3 (1 is incr)
    pub sweep: u8,  // Bit 0-2
    pub timer: u32,
    pub cur_vol: u8,
}

impl VolEnv {
    /// The volume stays in 0 - 15.
    pub open spec fn wf(&self) -> bool {
        self.cur_vol <= 15 && self.initial_vol <= 15 && self.sweep <= 7
    }

    pub open spec fn value(&self) -> u8 {
        (self.initial_vol << 4u8) | (if self.dir_up { 0x08u8 } else { 0u8 }) | self.sweep
    }

    /// The reload value of the envelope timer: the period, with 0 counting
    /// as 8.
    pub open spec fn period(&self) -> u32 {
        if self.sweep == 0 { 8 } else { self.sweep as u32 }
    }

    /// The volume one envelope step later, kept within 0 - 15.
    pub open spec fn stepped_vol(&self) -> u8 {
        if self.dir_up && self.cur_vol < 15 {
            (self.cur_vol + 1) as u8
        } else if !self.dir_up && self.cur_vol > 0 {
            (self.cur_vol - 1) as u8
        } else {
            self.cur_vol
        }
    }

    pub open spec fn after_set(self, data: u8) -> VolEnv {
        VolEnv {
            initial_vol: (data >> 4) & 0x0F,
            dir_up: (data >> 3) & 0x01 == 0x01,
            sweep: data & 0x07,
            ..self
        }
    }

    /// One tick of the envelope timer: at 0 it reloads and the volume steps.
    pub open spec fn after_tick(self) -> VolEnv {
        if self.timer == 1 {
            VolEnv { timer: self.period(), cur_vol: self.stepped_vol(), ..self }
        } else if self.timer == 0 {
            VolEnv { timer: u32::MAX, ..self }
        } else {
            VolEnv { timer: (self.timer - 1) as u32, ..self }
        }
    }

    pub fn new() -> (v: VolEnv)
        ensures
            v == (VolEnv { initial_vol: 0, dir_up: false, sweep: 0, timer: 0, cur_vol: 0 }),
            v.wf(),
    {
        VolEnv { initial_vol: 0, dir_up: false, sweep: 0, timer: 0, cur_vol: 0 }
    }

    pub fn set(&mut self, data: u8)
        requires
            old(self).wf(),
        ensures
            final(self).wf(),
            *final(self) == old(self).after_set(data),
    {
        self.initial_vol = (data >> 4) & 0x0F;
        self.dir_up = (data >> 3) & 0x01 == 0x01;
        self.sweep = data & 0x07;
        assert((data >> 4) & 0x0F <= 15 && data & 0x07 <= 7) by (bit_vector);
    }

    pub fn get(&self) -> (b: u8)
        ensures
            b == self.value(),
    {
        let dir: u8 = if self.dir_up { 0x08 } else { 0 };
        (self.initial_vol << 4u8) | dir | self.sweep
    }

    /// Counts the envelope timer down; at 0 it reloads and the volume
    /// steps.
    pub fn decr_timer(&mut self) -> (stepped: bool)
        requires
            old(self).wf(),
        ensures
            final(self).wf(),
            stepped == (old(self).timer == 1),
            *final(self) == old(self).after_tick(),
    {
        self.timer = self.timer.wrapping_sub(1);
        if self.timer == 0 {
            self.reload_timer();
            self.adjust_vol();
            return true;
        }
        false
    }

    pub fn reload_timer(&mut self)
        ensures
            *final(self) == (VolEnv { timer: old(self).period(), ..*old(self) }),
    {
        self.timer = if self.sweep == 0 {
            8  // Obscure behaviour - https://gbdev.gg8.se/wiki/articles/Gameboy_sound_hardware
        } else {
            self.sweep as u32
        };
    }

    /// One envelope step: up or down by one, never past 0 or 15.
    pub fn adjust_vol(&mut self)
        requires
            old(self).wf(),
        ensures
            final(self).wf(),
            *final(self) == (VolEnv { cur_vol: old(self).stepped_vol(), ..*old(self) }),
    {
        if (self.cur_vol < 0x0F && self.dir_up) || (self.cur_vol > 0 && !self.dir_up) {
            self.cur_vol = if self.dir_up {
                self.cur_vol.wrapping_add(1)
            } else {
                self.cur_vol.wrapping_sub(1)
            }
        }
    }

    pub fn reload_vol(&mut self)
        requires
            old(self).wf(),
        ensures
            final(self).wf(),
            *final(self) == (VolEnv { cur_vol: old(self).initial_vol, ..*old(self) }),
    {
        self.cur_vol = self.initial_vol;
    }

    // True, if any of the top 5 bits are set
    /// Whether the DAC is on: any of the top five bits of NRx2 (the initial
    /// volume and the direction) is set.
    pub fn is_dac_enabled(&self) -> (b: bool)
        ensures
            b == (self.initial_vol != 0 || self.dir_up),
            self.wf() ==> b == (self.value() & 0xF8 != 0),
    {
        proof {
            let iv = self.initial_vol;
            let sw = self.sweep;
            let d: u8 = if self.dir_up { 0x08u8 } else { 0u8 };
            assert(iv <= 15 && sw <= 7 && (d == 0 || d == 8) ==> ((((iv << 4u8) | d | sw) & 0xF8
                != 0) == (iv != 0 || d == 8))) by (bit_vector);
        }
        (self.initial_vol != 0) || self.dir_up
    }
}

/// NR43 / NR44 style frequency registers (NRx3 and NRx4) and the timer
/// they drive: a period of `(2048 - frequency) * cycle_multiplier` cycles.
pub struct Freq {
    pub initial: bool,  // Bit 7 (1 = restart)
    pub len_enable: bool,  // Bit 6 (1 = Stop output when length in NR11 expires)
    pub hi: u8,  // Bit 0-2
    pub lo: u8,  // Bit 0-7
    pub timer: u32,
    pub cycle_multiplier: u8,
}

pub const FREQ_MASK_LO: u8 = 0xFF;
pub const FREQ_MASK_HI: u8 = 0xBF;

impl Freq {
    pub open spec fn wf(&self) -> bool {
        self.hi <= 7
    }

    /// The 11-bit frequency value.
    pub open spec fn full(&self) -> u16 {
        (self.hi * 256 + self.lo) as u16
    }

    pub open spec fn hi_value(&self) -> u8 {
        FREQ_MASK_HI | (if self.initial { 0x80u8 } else { 0u8 }) | (if self.len_enable {
            0x40u8
        } else {
            0u8
        }) | self.hi
    }

    /// The timer's reload value.
    pub open spec fn period(&self) -> u32 {
        ((2048 - self.full()) * self.cycle_multiplier) as u32
    }

    pub open spec fn after_set_hi(self, data: u8) -> Freq {
        Freq {
            initial: (data >> 7) & 0x01 == 0x01,
            len_enable: (data >> 6) & 0x01 == 0x01,
            hi: data & 0x07,
            ..self
        }
    }

    pub open spec fn after_set_full(self, new_freq: u16) -> Freq {
        Freq { lo: new_freq as u8, hi: ((new_freq >> 8) as u8) & 0x07, ..self }
    }

    pub open spec fn after_reload(self) -> Freq {
        Freq { timer: self.period(), ..self }
    }

    /// The timer after `cycles` more cycles (their low 32 bits): it
    /// reloads when it reaches 0 or would pass below it.
    pub open spec fn after_cycles(self, cycles: usize) -> Freq {
        let c = cycles as u32;
        if self.timer <= c {
            self.after_reload()
        } else {
            Freq { timer: (self.timer - c) as u32, ..self }
        }
    }

    pub fn new(multiple: u8) -> (f: Freq)
        ensures
            f == (Freq {
                initial: false,
                len_enable: false,
                hi: 0,
                lo: 0,
                timer: 0,
                cycle_multiplier: multiple,
            }),
            f.wf(),
    {
        Freq {
            initial: false,
            len_enable: false,
            hi: 0,
            lo: 0,
            timer: 0,
            cycle_multiplier: multiple,
        }
    }

    pub fn set_lo(&mut self, data: u8)
        ensures
            *final(self) == (Freq { lo: data, ..*old(self) }),
    {
        self.lo = data;
    }

    pub fn set_hi(&mut self, data: u8)
        ensures
            final(self).wf(),
            *final(self) == old(self).after_set_hi(data),
    {
        self.initial = (data >> 7) & 0x01 == 0x01;
        self.len_enable = (data >> 6) & 0x01 == 0x01;
        self.hi = data & 0x07;
        assert(data & 0x07 <= 7) by (bit_vector);
    }

    /// The low frequency register is write only.
    pub fn get_lo(&self) -> (b: u8)
        ensures
            b == 0xFF,
    {
        let lo = self.lo;
        assert(0xFFu8 | lo == 0xFF) by (bit_vector);
        FREQ_MASK_LO | lo
    }

    pub fn get_hi(&self) -> (b: u8)
        ensures
            b == self.hi_value(),
    {
        let init: u8 = if self.initial { 0x80 } else { 0 };
        let len: u8 = if self.len_enable { 0x40 } else { 0 };
        FREQ_MASK_HI | init | len | self.hi
    }

    pub fn get_full(&self) -> (f: u16)
        requires
            self.wf(),
        ensures
            f == self.full(),
            f <= 2047,
    {
        let hi = self.hi as u16;
        let lo = self.lo as u16;
        assert((hi << 8u16) | lo == hi * 256 + lo) by (bit_vector)
            requires
                hi <= 7,
                lo <= 255,
        ;
        (hi << 8u16) | lo
    }

    pub fn set_full(&mut self, new_freq: u16)
        ensures
            final(self).wf(),
            *final(self) == old(self).after_set_full(new_freq),
    {
        self.lo = new_freq as u8;
        self.hi = ((new_freq >> 8) as u8) & 0x07;
        let h = (new_freq >> 8) as u8;
        assert(h & 0x07 <= 7) by (bit_vector);
    }

    // Decrement the internal clock and return if it hit 0
    /// Counts the timer down by `cycles` (its low 32 bits); on reaching 0
    /// or wrapping below it, it reloads and `true` is returned.
    pub fn decr_timer(&mut self, cycles: usize) -> (expired: bool)
        requires
            old(self).wf(),
        ensures
            final(self).wf(),
            expired == (old(self).timer <= cycles as u32),
            *final(self) == old(self).after_cycles(cycles),
    {
        let prev = self.timer;
        let c = cycles as u32;
        self.timer = self.timer.wrapping_sub(c);
        if self.timer == 0 || self.timer > prev {
            self.reload_timer();
            return true;
        }
        false
    }

    // From Pan Docs:
    // Channel 1 and 2 uses - Frequency = 131072/(2048-x) Hz
    // Channel 3 uses - Frequency = 65536/(2048-x) Hz
    // Num of cycles can then be calculated from 4194304/frequency
    pub fn reload_timer(&mut self)
        requires
            old(self).wf(),
        ensures
            final(self).wf(),
            *final(self) == old(self).after_reload(),
    {
        let full = self.get_full();
        let m = self.cycle_multiplier as u32;
        assert((2048 - full) * m <= 2048 * 255) by (nonlinear_arith)
            requires
                full <= 2047,
                m <= 255,
        ;
        self.timer = (2048 - full as u32) * m;
    }
}

/// A volume envelope register (NRx2) reads back every byte written to it.
pub proof fn lemma_nrx2_roundtrip(v: VolEnv, data: u8)
    ensures
        v.after_set(data).value() == data,
{
    let up: u8 = if (data >> 3) & 0x01 == 0x01 { 0x08u8 } else { 0u8 };
    assert((((data >> 4) & 0x0F) << 4u8) | up | (data & 0x07) == data) by (bit_vector)
        requires
            up == (if (data >> 3) & 0x01 == 0x01 { 0x08u8 } else { 0u8 }),
    ;
}

/// A length register with a 6-bit length (NR11, NR21, NR41) reads back
/// only the duty bits of a write; the length bits read as 1.
pub proof fn lemma_nrx1_readback(l: LenPat, data: u8)
    requires
        l.mask == 0x3F,
    ensures
        l.after_set(data).value() == (data | 0x3F),
{
    assert(0x3Fu8 | ((((data >> 6) & 0x03) << 6u8)) | (data & 0x3F) == (data | 0x3F)) by (bit_vector);
}

/// The trigger and length enable register (NRx4) reads back only the
/// length enable bit of a write.
pub proof fn lemma_nrx4_readback(f: Freq, data: u8)
    ensures
        f.after_set_hi(data).hi_value() == (data | 0xBF),
{
    let i: u8 = if (data >> 7) & 0x01 == 0x01 { 0x80u8 } else { 0u8 };
    let e: u8 = if (data >> 6) & 0x01 == 0x01 { 0x40u8 } else { 0u8 };
    assert(0xBFu8 | i | e | (data & 0x07) == (data | 0xBF)) by (bit_vector)
        requires
            i == (if (data >> 7) & 0x01 == 0x01 { 0x80u8 } else { 0u8 }),
            e == (if (data >> 6) & 0x01 == 0x01 { 0x40u8 } else { 0u8 }),
    ;
}

} // verus!
