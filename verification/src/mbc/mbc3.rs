//! MBC3: up to 2 MiB of ROM in 16 KiB banks, up to 32 KiB of RAM in 8 KiB
//! banks, and a real time clock whose registers are mapped into the RAM
//! area (banks 0x08 - 0x0C) once latched.
/*
    0x0000 - 0x3FFF Bank 0 non-swappable
    0x4000 - 0x7FFF Bank 1 - 127 swappable
*/
use vstd::prelude::*;
use super::mbc1::{ROM_BANK_SIZE, RAM_BANK_SIZE, lemma_and_le};
use super::mbc_timer::{
    MbcTimer, COUNTER_MAX_SECONDS, RTC_FREQ, in_range, secs_of, from_secs_spec, moved_by,
};
use crate::cartridge::CartFeature;

verus! {

pub const CPU_CYCLES_PER_RTC_CYCLE: usize = 128;

/// What the features of an MBC3 cartridge ask for.
#[derive(Clone, Copy, PartialEq, Eq, Structural, Debug)]
pub enum Mbc3Features {
    Plain,  // MBC3
    Ram,  // MBC3 + RAM
    RamBattery,  // MBC3 + RAM + BATTERY
    TimerBattery,  // MBC3 + TIMER + BATTERY
    TimerRamBattery,  // MBC3 + TIMER + RAM + BATTERY
}

/// The MBC3 feature list that `fs` names, if it is one.
pub open spec fn mbc3_features_of(fs: Seq<CartFeature>) -> Option<Mbc3Features> {
    if fs == seq![CartFeature::Mbc3] {
        Some(Mbc3Features::Plain)
    } else if fs == seq![CartFeature::Mbc3, CartFeature::Ram] {
        Some(Mbc3Features::Ram)
    } else if fs == seq![CartFeature::Mbc3, CartFeature::Ram, CartFeature::Battery] {
        Some(Mbc3Features::RamBattery)
    } else if fs == seq![CartFeature::Mbc3, CartFeature::Timer, CartFeature::Battery] {
        Some(Mbc3Features::TimerBattery)
    } else if fs == seq![CartFeature::Mbc3, CartFeature::Timer, CartFeature::Ram, CartFeature::Battery] {
        Some(Mbc3Features::TimerRamBattery)
    } else {
        None
    }
}

impl Mbc3Features {
    /// Reads the feature list of the cartridge header; `None` for a list
    /// that no MBC3 cartridge has.
    pub fn from_features(fs: &Vec<CartFeature>) -> (r: Option<Mbc3Features>)
        ensures
            r == mbc3_features_of(fs@),
    {
        let n = fs.len();
        if n == 0 || fs[0] != CartFeature::Mbc3 {
            proof {
                if n > 0 {
                    assert(fs@[0] != CartFeature::Mbc3);
                }
            }
            return None;
        }
        if n == 1 {
            assert(fs@ == seq![CartFeature::Mbc3]);
            return Some(Mbc3Features::Plain);
        }
        if n == 2 && fs[1] == CartFeature::Ram {
            assert(fs@ == seq![CartFeature::Mbc3, CartFeature::Ram]);
            return Some(Mbc3Features::Ram);
        }
        if n == 3 && fs[1] == CartFeature::Ram && fs[2] == CartFeature::Battery {
            assert(fs@ == seq![CartFeature::Mbc3, CartFeature::Ram, CartFeature::Battery]);
            return Some(Mbc3Features::RamBattery);
        }
        if n == 3 && fs[1] == CartFeature::Timer && fs[2] == CartFeature::Battery {
            assert(fs@ == seq![CartFeature::Mbc3, CartFeature::Timer, CartFeature::Battery]);
            return Some(Mbc3Features::TimerBattery);
        }
        if n == 4 && fs[1] == CartFeature::Timer && fs[2] == CartFeature::Ram && fs[3]
            == CartFeature::Battery {
            assert(fs@ == seq![
                CartFeature::Mbc3,
                CartFeature::Timer,
                CartFeature::Ram,
                CartFeature::Battery,
            ]);
            return Some(Mbc3Features::TimerRamBattery);
        }
        proof {
            assert(fs@ != seq![CartFeature::Mbc3]);
            assert(fs@ != seq![CartFeature::Mbc3, CartFeature::Ram]) by {
                if n == 2 { assert(fs@[1] != CartFeature::Ram); }
            }
            assert(fs@ != seq![CartFeature::Mbc3, CartFeature::Ram, CartFeature::Battery]) by {
                if n == 3 && fs@[1] == CartFeature::Ram { assert(fs@[2] != CartFeature::Battery); }
            }
            assert(fs@ != seq![CartFeature::Mbc3, CartFeature::Timer, CartFeature::Battery]) by {
                if n == 3 && fs@[1] == CartFeature::Timer { assert(fs@[2] != CartFeature::Battery); }
            }
            let full = seq![CartFeature::Mbc3, CartFeature::Timer, CartFeature::Ram, CartFeature::Battery];
            assert(fs@ != full) by {
                if n == 4 && fs@ == full {
                    assert(fs@[1] == full[1] && fs@[2] == full[2] && fs@[3] == full[3]);
                }
            }
        }
        None
    }
}

pub struct Mbc3 {
    pub rom: Vec<u8>,  // 0x0000 - 0x7FFF
    pub ram: Option<Vec<u8>>,  // 0xA000 - 0xBFFF
    pub max_rom_banks: usize,
    pub max_ram_banks: usize,
    pub ram_and_timer_enable: bool,  // Value of 0xA will enable it
    pub rom_bank_num: usize,  // 1 - 127 (0x01 - 0x7F)
    pub ram_bank_num: usize,  // 0 - 3 (Also selects RTC register)
    pub latch_reg: u8,
    pub timer: Option<MbcTimer>,
    pub latched_timer: Option<MbcTimer>,
}

/// The bank mapped at 0x4000 - 0x7FFF.
pub open spec fn rom_bank_of(m: Mbc3) -> int {
    (m.rom_bank_num & ((m.max_rom_banks - 1) as usize)) as int
}

impl Mbc3 {
    /// A loaded cartridge: the selectable ROM banks lie in the image, the
    /// RAM has its banks, and the clock registers hold a real time.
    pub open spec fn wf(&self) -> bool {
        &&& 1 <= self.max_rom_banks <= 512
        &&& self.rom@.len() >= self.max_rom_banks * ROM_BANK_SIZE
        &&& self.rom_bank_num <= 255
        &&& (self.ram matches Some(r) ==> self.max_ram_banks > 0 && self.max_ram_banks <= 16
            && r@.len() == self.max_ram_banks * RAM_BANK_SIZE)
        &&& (self.timer matches Some(t) ==> in_range(t))
        &&& (self.latched_timer matches Some(t) ==> in_range(t))
    }

    /// The controller `cycles` CPU cycles later: only the running clock
    /// moves.
    pub open spec fn after_cycles(self, cycles: usize) -> Mbc3 {
        Mbc3 {
            timer: match self.timer {
                Some(t) => Some(clock_after(t, cycles)),
                None => None,
            },
            ..self
        }
    }

    /// The byte that a read of ROM address `addr` gives.
    pub open spec fn rom_byte(&self, addr: u16) -> u8 {
        if addr < 0x4000 {
            self.rom@[addr as int]
        } else {
            self.rom@[addr - 0x4000 + ROM_BANK_SIZE * rom_bank_of(*self)]
        }
    }

    /// The byte that a read of RAM address `addr` gives: 0xFF while RAM
    /// and clock are disabled, a latched clock register for banks 0x08 -
    /// 0x0C, else the selected RAM bank (0xFF without RAM).
    pub open spec fn ram_byte(&self, addr: u16) -> u8 {
        if !self.ram_and_timer_enable {
            0xFF
        } else if self.latched_timer is Some && 0x08 <= self.ram_bank_num <= 0x0C {
            let l = self.latched_timer.unwrap();
            if self.ram_bank_num == 0x08 {
                l.seconds
            } else if self.ram_bank_num == 0x09 {
                l.minutes
            } else if self.ram_bank_num == 0x0A {
                l.hours
            } else if self.ram_bank_num == 0x0B {
                l.days_lo
            } else {
                l.days_hi
            }
        } else {
            match self.ram {
                Some(r) => r@[addr - 0xA000 + RAM_BANK_SIZE * (self.ram_bank_num
                    % self.max_ram_banks)],
                None => 0xFF,
            }
        }
    }

    /// `new` is `old` after a write of `val` to ROM address `addr`: RAM and
    /// clock enable (0x0000 - 0x1FFF), the ROM bank (0x2000 - 0x3FFF, 0
    /// selects 1), the RAM bank or clock register (0x4000 - 0x5FFF), the
    /// latch (0x6000 - 0x7FFF: a 0 then 1 copies the running clock into the
    /// latched registers).
    pub open spec fn regs_written(new: Mbc3, old: Mbc3, addr: u16, val: u8) -> bool {
        &&& new.rom == old.rom && new.ram == old.ram
        &&& new.timer == old.timer
        &&& new.max_rom_banks == old.max_rom_banks
        &&& new.max_ram_banks == old.max_ram_banks
        &&& new.ram_and_timer_enable == (if addr < 0x2000 {
            val % 16 == 0x0A
        } else {
            old.ram_and_timer_enable
        })
        &&& new.rom_bank_num == (if 0x2000 <= addr < 0x4000 {
            if val == 0 {
                1usize
            } else {
                val as usize
            }
        } else {
            old.rom_bank_num
        })
        &&& new.ram_bank_num == (if 0x4000 <= addr < 0x6000 {
            val as usize
        } else {
            old.ram_bank_num
        })
        &&& new.latch_reg == (if addr >= 0x6000 {
            val
        } else {
            old.latch_reg
        })
        &&& new.latched_timer == (if addr >= 0x6000 && old.latch_reg == 0 && val == 1
            && old.latched_timer is Some && old.timer is Some {
            Some(latched_from(old.latched_timer.unwrap(), old.timer.unwrap()))
        } else {
            old.latched_timer
        })
    }

    /// `new` is `old` after a write of `val` to RAM address `addr`: while RAM
    /// and clock are enabled, a clock register selected takes it into the
    /// latched clock, else the selected RAM bank does.
    pub open spec fn ram_written(new: Mbc3, old: Mbc3, addr: u16, val: u8) -> bool {
        if !old.ram_and_timer_enable {
            new == old
        } else if old.latched_timer is Some && 0x08 <= old.ram_bank_num <= 0x0C {
            new == (Mbc3 {
                latched_timer: Some(
                    clock_written(old.latched_timer.unwrap(), old.ram_bank_num, val),
                ),
                ..old
            })
        } else {
            &&& new == (Mbc3 { ram: new.ram, ..old })
            &&& match old.ram {
                Some(r) => new.ram matches Some(n) && n@ == r@.update(
                    addr - 0xA000 + RAM_BANK_SIZE * (old.ram_bank_num % old.max_ram_banks),
                    val,
                ),
                None => new.ram is None,
            }
        }
    }

    pub fn new() -> (m: Mbc3)
        ensures
            m.rom@.len() == 0 && m.ram is None && m.timer is None && m.latched_timer is None,
            m.max_rom_banks == 0 && m.max_ram_banks == 0,
            !m.ram_and_timer_enable && m.rom_bank_num == 1 && m.ram_bank_num == 0
                && m.latch_reg == 0,
    {
        Mbc3 {
            rom: Vec::new(),
            ram: None,
            max_rom_banks: 0,
            max_ram_banks: 0,
            ram_and_timer_enable: false,
            rom_bank_num: 0x01,
            ram_bank_num: 0x00,
            latch_reg: 0x00,
            timer: None,
            latched_timer: None,
        }
    }

    /// Starts the clock from what the battery kept: the latched and the
    /// running registers as second counts (none for a fresh save), and the
    /// seconds that passed while the game was off; a gap longer than the
    /// counter holds sets the overflow bit.
    pub fn load_and_set_timers(&mut self, saved: Option<(u64, u64)>, time_offline: u64)
        requires
            old(self).wf(),
        ensures
            final(self).wf(),
            *final(self) == (Mbc3 {
                timer: final(self).timer,
                latched_timer: final(self).latched_timer,
                ..*old(self)
            }),
            final(self).latched_timer == Some(restored_latched(saved)),
            final(self).timer == Some(restored_running(saved, time_offline)),
    {
        let mut rtc = MbcTimer::new();
        let mut latched_rtc = MbcTimer::new();
        match saved {
            Some((latch_time, update_time)) => {
                latched_rtc.from_secs(latch_time);
                rtc.from_secs(update_time);
            },
            None => {},
        }
        let carry = time_offline > COUNTER_MAX_SECONDS;
        rtc.update_timer_pos(time_offline % (COUNTER_MAX_SECONDS + 1), carry);
        self.timer = Some(rtc);
        self.latched_timer = Some(latched_rtc);
    }

    pub fn read_rom_byte(&self, addr: u16) -> (b: u8)
        requires
            self.wf(),
            addr < 0x8000,
        ensures
            b == self.rom_byte(addr),
    {
        if addr < 0x4000 {
            self.rom[addr as usize]
        } else {
            let bank = self.rom_bank_num & (self.max_rom_banks - 1);
            proof {
                lemma_and_le(self.rom_bank_num, (self.max_rom_banks - 1) as usize);
            }
            self.rom[(addr - 0x4000) as usize + ROM_BANK_SIZE * bank]
        }
    }

    /// Writes to the ROM area set the controller's registers: RAM and clock
    /// enable, the ROM bank (0 selects 1), the RAM bank or clock register,
    /// and the latch (a 0 then 1 copies the running clock into the latched
    /// registers).
    pub fn write_rom_byte(&mut self, addr: u16, val: u8)
        requires
            old(self).wf(),
            addr < 0x8000,
        ensures
            final(self).wf(),
            Mbc3::regs_written(*final(self), *old(self), addr, val),
    {
        if addr < 0x2000 {
            self.ram_and_timer_enable = (val % 16) == 0x0A;
        } else if addr < 0x4000 {
            self.rom_bank_num = if val == 0x00 { 0x01 } else { val as usize };
        } else if addr < 0x6000 {
            self.ram_bank_num = val as usize;
        } else {
            if self.latch_reg == 0 && val == 1 {
                match &mut self.latched_timer {
                    Some(l_rtc) => match &self.timer {
                        Some(new_rtc) => l_rtc.on_latch_register(new_rtc),
                        None => {},
                    },
                    None => {},
                }
            }
            self.latch_reg = val;
        }
    }

    pub fn read_ram_byte(&self, addr: u16) -> (b: u8)
        requires
            self.wf(),
            0xA000 <= addr < 0xC000,
        ensures
            b == self.ram_byte(addr),
    {
        if !self.ram_and_timer_enable {
            return 0xFF;
        }
        match &self.latched_timer {
            Some(l_rtc) => {
                if self.ram_bank_num == 0x08 {
                    return l_rtc.seconds;
                } else if self.ram_bank_num == 0x09 {
                    return l_rtc.minutes;
                } else if self.ram_bank_num == 0x0A {
                    return l_rtc.hours;
                } else if self.ram_bank_num == 0x0B {
                    return l_rtc.days_lo;
                } else if self.ram_bank_num == 0x0C {
                    return l_rtc.days_hi;
                }
            },
            None => {},
        }
        match &self.ram {
            Some(ram) => {
                let off = RAM_BANK_SIZE * (self.ram_bank_num % self.max_ram_banks);
                proof {
                    assert(RAM_BANK_SIZE * (self.ram_bank_num % self.max_ram_banks) + RAM_BANK_SIZE
                        <= RAM_BANK_SIZE * self.max_ram_banks) by (nonlinear_arith)
                        requires
                            self.max_ram_banks > 0,
                    ;
                }
                ram[(addr - 0xA000) as usize + off]
            },
            // No RAM: the bank selected is unrelated to the clock, or the
            // clock is selected but there is none.
            None => 0xFF,
        }
    }

    /// While RAM and clock are enabled, a write to a clock register moves
    /// the latched clock by the difference (the halt and overflow bits of
    /// DH are taken as written); any other write goes to the selected RAM
    /// bank.
    pub fn write_ram_byte(&mut self, addr: u16, val: u8)
        requires
            old(self).wf(),
            0xA000 <= addr < 0xC000,
        ensures
            final(self).wf(),
            Mbc3::ram_written(*final(self), *old(self), addr, val),
    {
        if !self.ram_and_timer_enable {
            return;
        }
        let bank = self.ram_bank_num;
        if bank >= 0x08 && bank <= 0x0C {
            match &mut self.latched_timer {
                Some(l_rtc) => {
                    write_clock(l_rtc, bank, val);
                    return;
                },
                None => {},
            }
        }
        match &mut self.ram {
            Some(ram) => {
                let off = RAM_BANK_SIZE * (self.ram_bank_num % self.max_ram_banks);
                proof {
                    assert(RAM_BANK_SIZE * (self.ram_bank_num % self.max_ram_banks) + RAM_BANK_SIZE
                        <= RAM_BANK_SIZE * self.max_ram_banks) by (nonlinear_arith)
                        requires
                            self.max_ram_banks > 0,
                    ;
                }
                ram.set((addr - 0xA000) as usize + off, val);
            },
            None => {},
        }
    }

    // I dont think the while loops are necessary since
    // cycles is only ever 4 but just in case...
    /// Runs the running clock for `cycles` CPU cycles: every 128 make an
    /// oscillator tick, every 32768 ticks a second.
    pub fn adv_cycles(&mut self, cycles: usize)
        requires
            old(self).wf(),
        ensures
            final(self).wf(),
            *final(self) == old(self).after_cycles(cycles),
            final(self).timer matches Some(t) ==> t.cycles <= CPU_CYCLES_PER_RTC_CYCLE
                && t.int_cycles <= RTC_FREQ,
    {
        match &mut self.timer {
            Some(rtc) => {
                rtc.cycles = rtc.cycles.wrapping_add(cycles);
                if rtc.int_cycles > RTC_FREQ {
                    rtc.int_cycles = 0;
                }
                let ghost start = *rtc;
                while rtc.cycles > CPU_CYCLES_PER_RTC_CYCLE
                    invariant
                        in_range(*rtc),
                        rtc.int_cycles <= RTC_FREQ,
                        run_ticks(*rtc) == run_ticks(start),
                    decreases rtc.cycles,
                {
                    let ghost before = *rtc;
                    rtc.int_cycles = rtc.int_cycles + 1;
                    rtc.cycles = rtc.cycles - CPU_CYCLES_PER_RTC_CYCLE;
                    // 1 second passed
                    if rtc.int_cycles > RTC_FREQ {
                        rtc.int_cycles = rtc.int_cycles - RTC_FREQ;
                        let ghost t1 = *rtc;
                        rtc.update_timer_pos(1, false);
                        assert(*rtc == (MbcTimer {
                            cycles: t1.cycles,
                            int_cycles: t1.int_cycles,
                            ..moved_by(t1, 1, false)
                        }));
                    }
                    assert(run_ticks(before) == run_ticks(*rtc));
                }
            },
            None => {},
        }
    }

    /// Installs the cartridge image and what its features ask for: RAM
    /// (all zeros, or the battery's copy) and the clock (from the battery's
    /// saved registers and the time the game was off).
    pub fn load_game(
        &mut self,
        game_bytes: Vec<u8>,
        features: Mbc3Features,
        rom_banks: usize,
        ram: Vec<u8>,
        ram_banks: usize,
        saved_clock: Option<(u64, u64)>,
        time_offline: u64,
    )
        requires
            1 <= rom_banks <= 512,
            game_bytes@.len() >= rom_banks * ROM_BANK_SIZE,
            features == Mbc3Features::Ram || features == Mbc3Features::RamBattery || features
                == Mbc3Features::TimerRamBattery ==> 1 <= ram_banks <= 16 && ram@.len() == ram_banks
                * RAM_BANK_SIZE,
            old(self).rom_bank_num <= 255,
            old(self).ram is None && old(self).timer is None && old(self).latched_timer is None,
        ensures
            final(self).wf(),
            final(self).rom@ == game_bytes@,
            final(self).max_rom_banks == rom_banks,
            features == Mbc3Features::Plain || features == Mbc3Features::TimerBattery
                ==> final(self).ram is None,
            features == Mbc3Features::Ram || features == Mbc3Features::RamBattery || features
                == Mbc3Features::TimerRamBattery ==> (final(self).ram matches Some(r) && r@ == ram@
                && final(self).max_ram_banks == ram_banks),
            (features == Mbc3Features::TimerBattery || features == Mbc3Features::TimerRamBattery)
                == (final(self).timer is Some),
            features == Mbc3Features::TimerBattery || features == Mbc3Features::TimerRamBattery
                ==> final(self).timer == Some(restored_running(saved_clock, time_offline))
                && final(self).latched_timer == Some(restored_latched(saved_clock)),
    {
        self.max_rom_banks = rom_banks;
        self.rom = game_bytes;
        match features {
            Mbc3Features::Plain => {},
            Mbc3Features::Ram | Mbc3Features::RamBattery => {
                self.ram = Some(ram);
                self.max_ram_banks = ram_banks;
            },
            Mbc3Features::TimerBattery => {
                self.load_and_set_timers(saved_clock, time_offline);
            },
            Mbc3Features::TimerRamBattery => {
                self.ram = Some(ram);
                self.max_ram_banks = ram_banks;
                self.load_and_set_timers(saved_clock, time_offline);
            },
        }
    }
}

/// The latched clock a battery save restores: its second count (a fresh
/// clock without a save).
pub open spec fn restored_latched(saved: Option<(u64, u64)>) -> MbcTimer {
    match saved {
        Some((ls, _)) => from_secs_spec(fresh_timer(), ls),
        None => fresh_timer(),
    }
}

/// The running clock a battery save restores: its second count (a fresh
/// clock without a save) moved on by the `time_offline` seconds the game
/// was off, the overflow bit set when that gap exceeds the day counter.
pub open spec fn restored_running(saved: Option<(u64, u64)>, time_offline: u64) -> MbcTimer {
    let u = match saved {
        Some((_, us)) => from_secs_spec(fresh_timer(), us),
        None => fresh_timer(),
    };
    moved_by(u, time_offline as int % (COUNTER_MAX_SECONDS + 1), time_offline > COUNTER_MAX_SECONDS)
}

/// Writes `val` to clock register `bank` of the latched clock `l_rtc`.
fn write_clock(l_rtc: &mut MbcTimer, bank: usize, val: u8)
    requires
        in_range(*old(l_rtc)),
        0x08 <= bank <= 0x0C,
    ensures
        *final(l_rtc) == clock_written(*old(l_rtc), bank, val),
        in_range(*final(l_rtc)),
{
    let diff: i64 = if bank == 0x08 {
        val as i64 - l_rtc.seconds as i64
    } else if bank == 0x09 {
        60 * (val as i64 - l_rtc.minutes as i64)
    } else if bank == 0x0A {
        3600 * (val as i64 - l_rtc.hours as i64)
    } else if bank == 0x0B {
        86400 * (val as i64 - l_rtc.days_lo as i64)
    } else {
        let h = l_rtc.days_hi;
        assert(val & 0x01 == val % 2 && h & 0x01 == h % 2) by (bit_vector);
        let d = 86400 * (((val & 0x01) as i64 - (l_rtc.days_hi & 0x01) as i64) * 256);
        l_rtc.days_hi = (val & 0xC0) | (l_rtc.days_hi & 0x01);
        d
    };
    assert(diff == clock_diff(*old(l_rtc), bank, val));
    if diff != 0 {
        l_rtc.update_timer(diff, false);
    }
}

/// The running clock once its oscillator has counted the CPU cycles in
/// `t.cycles`: every 128 cycles past the first 128 make a tick (the
/// remainder, 1 to 128, stays), and every 32768 ticks move the clock one
/// second.
pub open spec fn run_ticks(t: MbcTimer) -> MbcTimer
    decreases t.cycles,
{
    if t.cycles > CPU_CYCLES_PER_RTC_CYCLE {
        let t1 = MbcTimer {
            int_cycles: (t.int_cycles + 1) as usize,
            cycles: (t.cycles - CPU_CYCLES_PER_RTC_CYCLE) as usize,
            ..t
        };
        let t2 = if t1.int_cycles > RTC_FREQ {
            let t0 = MbcTimer { int_cycles: (t1.int_cycles - RTC_FREQ) as usize, ..t1 };
            MbcTimer { cycles: t0.cycles, int_cycles: t0.int_cycles, ..moved_by(t0, 1, false) }
        } else {
            t1
        };
        run_ticks(t2)
    } else {
        t
    }
}

/// The running clock `cycles` CPU cycles later (the cycle count wraps as a
/// `usize`; a tick count past 32768 restarts from 0).
pub open spec fn clock_after(t: MbcTimer, cycles: usize) -> MbcTimer {
    let c = if t.cycles + cycles > usize::MAX {
        (t.cycles + cycles - (usize::MAX + 1)) as usize
    } else {
        (t.cycles + cycles) as usize
    };
    run_ticks(
        MbcTimer {
            cycles: c,
            int_cycles: if t.int_cycles > RTC_FREQ {
                0
            } else {
                t.int_cycles
            },
            ..t
        },
    )
}

/// The registers of a clock that was never set.
pub open spec fn fresh_timer() -> MbcTimer {
    MbcTimer { seconds: 0, minutes: 0, hours: 0, days_lo: 0, days_hi: 0, cycles: 0, int_cycles: 0 }
}

/// The latched registers after a latch: the running clock's time and day
/// bit 8 and overflow bit, the latched halt flag kept.
pub open spec fn latched_from(l: MbcTimer, t: MbcTimer) -> MbcTimer {
    MbcTimer {
        seconds: t.seconds,
        minutes: t.minutes,
        hours: t.hours,
        days_lo: t.days_lo,
        days_hi: ((l.days_hi & 0xC0) | (t.days_hi & 0x81)) as u8,
        ..l
    }
}

/// The seconds a write of `val` to clock register `bank` moves the clock.
pub open spec fn clock_diff(l: MbcTimer, bank: usize, val: u8) -> int {
    if bank == 0x08 {
        val - l.seconds
    } else if bank == 0x09 {
        60 * (val - l.minutes)
    } else if bank == 0x0A {
        3600 * (val - l.hours)
    } else if bank == 0x0B {
        86400 * (val - l.days_lo)
    } else {
        86400 * (((val % 2) - (l.days_hi % 2)) * 256)
    }
}

/// The latched registers after a write of `val` to clock register `bank`.
pub open spec fn clock_written(l: MbcTimer, bank: usize, val: u8) -> MbcTimer {
    let l1 = if bank == 0x0C {
        MbcTimer { days_hi: ((val & 0xC0) | (l.days_hi & 0x01)) as u8, ..l }
    } else {
        l
    };
    let d = clock_diff(l, bank, val);
    if d == 0 {
        l1
    } else {
        moved_by(l1, d, false)
    }
}

/// A value that clock register `bank` can hold: seconds and minutes below
/// 60, hours below 24, any low day byte.
pub open spec fn register_fits(bank: usize, val: u8) -> bool {
    if bank == 0x08 || bank == 0x09 {
        val < 60
    } else if bank == 0x0A {
        val < 24
    } else {
        bank == 0x0B
    }
}

/// While RAM and clock are enabled, a value written to the seconds,
/// minutes, hours or low day register of the latched clock reads back as
/// written.
pub proof fn lemma_clock_write_read(m: Mbc3, w: Mbc3, addr: u16, val: u8)
    requires
        m.wf(),
        m.ram_and_timer_enable,
        m.latched_timer is Some,
        register_fits(m.ram_bank_num, val),
        Mbc3::ram_written(w, m, addr, val),
    ensures
        w.ram_byte(addr) == val,
{
    let l = m.latched_timer.unwrap();
    let bank = m.ram_bank_num;
    let d = clock_diff(l, bank, val);
    let s = secs_of(l);
    let day = l.days_lo + (l.days_hi % 2) * 256;
    assert(s == l.seconds + l.minutes * 60 + l.hours * 3600 + day * 86400);
    if d != 0 {
        reveal(moved_by);
        let t = s + d;
        if bank == 0x08 {
            assert(t % 60 == val) by (nonlinear_arith)
                requires
                    t == val + l.minutes * 60 + l.hours * 3600 + day * 86400,
                    0 <= val < 60,
                    0 <= l.minutes,
                    0 <= l.hours,
                    0 <= day,
            ;
        } else if bank == 0x09 {
            assert((t / 60) % 60 == val) by (nonlinear_arith)
                requires
                    t == l.seconds + val * 60 + l.hours * 3600 + day * 86400,
                    0 <= val < 60,
                    0 <= l.seconds < 60,
                    0 <= l.hours,
                    0 <= day,
            ;
        } else if bank == 0x0A {
            assert((t / 3600) % 24 == val) by (nonlinear_arith)
                requires
                    t == l.seconds + l.minutes * 60 + val * 3600 + day * 86400,
                    0 <= val < 24,
                    0 <= l.seconds < 60,
                    0 <= l.minutes < 60,
                    0 <= day,
            ;
        } else {
            assert((t / 86400) % 256 == val) by (nonlinear_arith)
                requires
                    t == l.seconds + l.minutes * 60 + l.hours * 3600 + (val + (l.days_hi % 2)
                        * 256) * 86400,
                    0 <= val < 256,
                    0 <= l.days_hi % 2 < 2,
                    0 <= l.seconds < 60,
                    0 <= l.minutes < 60,
                    0 <= l.hours < 24,
            ;
        }
        assert(0 <= t < 0x1_0000_0000_0000_0000);
    }
}

/// The clock register that `bank` selects, read from `t`.
pub open spec fn clock_register(t: MbcTimer, bank: usize) -> u8 {
    if bank == 0x08 {
        t.seconds
    } else if bank == 0x09 {
        t.minutes
    } else if bank == 0x0A {
        t.hours
    } else {
        t.days_lo
    }
}

/// After a latch (a 0 then a 1 written to 0x6000 - 0x7FFF), the seconds,
/// minutes, hours and low day registers read as the running clock held
/// them.
pub proof fn lemma_latch_read(m: Mbc3, w: Mbc3, latch_addr: u16, addr: u16)
    requires
        m.wf(),
        m.ram_and_timer_enable,
        m.latched_timer is Some,
        m.timer is Some,
        0x08 <= m.ram_bank_num <= 0x0B,
        m.latch_reg == 0,
        0x6000 <= latch_addr < 0x8000,
        Mbc3::regs_written(w, m, latch_addr, 1),
    ensures
        w.ram_byte(addr) == clock_register(m.timer.unwrap(), m.ram_bank_num),
{
}

/// A byte written to a RAM bank (clock registers not selected) reads back
/// from the same address.
pub proof fn lemma_ram_write_read(m: Mbc3, w: Mbc3, addr: u16, val: u8)
    requires
        m.wf(),
        0xA000 <= addr < 0xC000,
        m.ram_and_timer_enable,
        !(m.latched_timer is Some && 0x08 <= m.ram_bank_num <= 0x0C),
        m.ram is Some,
        Mbc3::ram_written(w, m, addr, val),
    ensures
        w.ram_byte(addr) == val,
{
    let r = m.ram.unwrap();
    let i = addr - 0xA000 + RAM_BANK_SIZE * (m.ram_bank_num % m.max_ram_banks);
    assert(RAM_BANK_SIZE * (m.ram_bank_num % m.max_ram_banks) + RAM_BANK_SIZE <= RAM_BANK_SIZE
        * m.max_ram_banks) by (nonlinear_arith)
        requires
            m.max_ram_banks > 0,
    ;
    assert(0 <= i < r@.len());
}

} // verus!
