//! DIV / TIMA / TMA / TAC, with the falling edge detector on the selected
//! DIV bit and the one M-cycle delayed TIMA reload.
// https://github.com/AntonioND/giibiiadvance/blob/master/docs/TCAGBD.pdf
use vstd::prelude::*;
use crate::io::{Io, if_index};

verus! {

pub const TIMER_START: u16 = 0xFF04;
pub const TIMER_END: u16 = 0xFF07;
pub const DIV_REG: u16 = 0xFF04;
pub const TIMA_REG: u16 = 0xFF05;
pub const TMA_REG: u16 = 0xFF06;
pub const TAC_REG: u16 = 0xFF07;

pub struct Timer {
    pub div: u16,
    pub tima: u8,
    pub tma: u8,
    pub tac: u8,
    pub overflow_source: TimaOverflowState,
}

/// Where the timer stands relative to a TIMA overflow: `Advancing` in the
/// M-cycle after the overflow (TIMA reads 0, the reload is pending), `Done`
/// in the M-cycle of the reload, `Inactive` otherwise.
#[derive(PartialEq, Eq, Structural)]
pub enum TimaOverflowState {
    Done,
    Advancing,
    Inactive,
}

impl TimaOverflowState {
    pub fn is_none(&self) -> (b: bool)
        ensures
            b == (*self == TimaOverflowState::Inactive),
    {
        match self {
            TimaOverflowState::Inactive => true,
            _ => false,
        }
    }

    pub fn is_done(&self) -> (b: bool)
        ensures
            b == (*self == TimaOverflowState::Done),
    {
        match self {
            TimaOverflowState::Done => true,
            _ => false,
        }
    }

    pub fn is_advcing(&self) -> (b: bool)
        ensures
            b == (*self == TimaOverflowState::Advancing),
    {
        match self {
            TimaOverflowState::Advancing => true,
            _ => false,
        }
    }
}

/// Bit 2 of TAC: the timer is enabled.
pub open spec fn tac_enabled(tac: u8) -> bool {
    (tac / 4) % 2 == 1
}

/// The number of CPU cycles per TIMA increment selected by TAC.
pub open spec fn tac_period(tac: u8) -> usize {
    if tac % 4 == 0 {
        1024
    } else if tac % 4 == 1 {
        16
    } else if tac % 4 == 2 {
        64
    } else {
        256
    }
}

/// The bit of DIV that TAC selects for the falling edge detector.
pub open spec fn div_bit(div: u16, tac: u8) -> bool {
    if tac % 4 == 0 {
        (div / 512) % 2 == 1
    } else if tac % 4 == 1 {
        (div / 8) % 2 == 1
    } else if tac % 4 == 2 {
        (div / 32) % 2 == 1
    } else {
        (div / 128) % 2 == 1
    }
}

/// A 1 to 0 transition of (selected DIV bit AND enable).
pub open spec fn falling_edge(old_div: bool, new_div: bool, old_enbl: bool, new_enbl: bool) -> bool {
    (old_div && old_enbl) && !(new_div && new_enbl)
}

/// The timer after one TIMA increment.
pub open spec fn incremented(t: Timer) -> Timer {
    if t.tima == 255 {
        Timer { tima: 0, overflow_source: TimaOverflowState::Advancing, ..t }
    } else {
        Timer { tima: (t.tima + 1) as u8, ..t }
    }
}

/// The timer after `t` increments if `edge` holds.
pub open spec fn incremented_if(t: Timer, edge: bool) -> Timer {
    if edge { incremented(t) } else { t }
}

/// The timer after DIV moves from `t.div` to `new_div` and TAC from `t.tac` to
/// `new_tac`, counting a falling edge.
pub open spec fn moved(t: Timer, new_div: u16, new_tac: u8) -> Timer {
    let edge = falling_edge(
        div_bit(t.div, t.tac),
        div_bit(new_div, new_tac),
        tac_enabled(t.tac),
        tac_enabled(new_tac),
    );
    incremented_if(Timer { div: new_div, tac: new_tac, ..t }, edge)
}

/// The timer after the pending reload step at the start of `adv_cycles`.
pub open spec fn reloaded(t: Timer) -> Timer {
    match t.overflow_source {
        TimaOverflowState::Advancing => Timer {
            tima: t.tma,
            overflow_source: TimaOverflowState::Done,
            ..t
        },
        TimaOverflowState::Done => Timer { overflow_source: TimaOverflowState::Inactive, ..t },
        TimaOverflowState::Inactive => t,
    }
}

/// The timer after `adv_cycles(cycles)`.
pub open spec fn advanced(t: Timer, cycles: usize) -> Timer {
    let r = reloaded(t);
    moved(r, ((r.div + cycles) % 65536) as u16, r.tac)
}

/// The value of a timer register as the CPU reads it.
pub open spec fn timer_reg(t: Timer, addr: u16) -> u8 {
    if addr == DIV_REG {
        (t.div / 256) as u8
    } else if addr == TIMA_REG {
        t.tima
    } else if addr == TMA_REG {
        t.tma
    } else {
        t.tac
    }
}

/// The timer after the CPU writes `data` to the timer register `addr`.
pub open spec fn timer_written(t: Timer, addr: u16, data: u8) -> Timer {
    if addr == DIV_REG {
        moved(t, 0, t.tac)
    } else if addr == TIMA_REG {
        match t.overflow_source {
            // We wont reload the tima if we wrote on the same cycle it is to be reloaded
            TimaOverflowState::Advancing => Timer {
                tima: data,
                overflow_source: TimaOverflowState::Inactive,
                ..t
            },
            // If we write to the tima on the cycle it was reloaded it stays the reloaded value
            TimaOverflowState::Done => t,
            TimaOverflowState::Inactive => Timer { tima: data, ..t },
        }
    } else if addr == TMA_REG {
        if t.overflow_source == TimaOverflowState::Done {
            Timer { tma: data, tima: data, ..t }
        } else {
            Timer { tma: data, ..t }
        }
    } else {
        moved(t, t.div, (data % 8 + 0xF8) as u8)
    }
}

impl Timer {
    pub fn new() -> (t: Timer)
        ensures
            t.div == 0 && t.tima == 0 && t.tma == 0 && t.tac == 0,
            t.overflow_source == TimaOverflowState::Inactive,
    {
        Timer { div: 0, tima: 0, tma: 0, tac: 0, overflow_source: TimaOverflowState::Inactive }
    }

    pub fn read_byte(&self, addr: u16) -> (b: u8)
        requires
            TIMER_START <= addr <= TIMER_END,
        ensures
            b == timer_reg(*self, addr),
    {
        match addr {
            DIV_REG => (self.div / 256) as u8,
            TIMA_REG => self.tima,
            TMA_REG => self.tma,
            _ => self.tac,
        }
    }

    pub fn write_byte(&mut self, addr: u16, data: u8)
        requires
            TIMER_START <= addr <= TIMER_END,
        ensures
            *final(self) == timer_written(*old(self), addr, data),
    {
        match addr {
            DIV_REG => self.write_div(),
            TIMA_REG => {
                match self.overflow_source {
                    TimaOverflowState::Advancing => {
                        self.overflow_source = TimaOverflowState::Inactive;
                        self.tima = data;
                    },
                    TimaOverflowState::Done => {},
                    TimaOverflowState::Inactive => self.tima = data,
                }
            },
            TMA_REG => {
                self.tma = data;
                if self.overflow_source.is_done() {
                    self.tima = self.tma;
                }
            },
            _ => {
                self.write_tac(data);
            },
        }
    }

    /// Steps the timer by `cycles` CPU cycles; a pending reload is carried
    /// out first, and requests the timer interrupt when it happens.
    pub fn adv_cycles(&mut self, io: &mut Io, cycles: usize)
        requires
            old(io).wf(),
        ensures
            *final(self) == advanced(*old(self), cycles),
            final(io).wf(),
            old(self).overflow_source == TimaOverflowState::Advancing ==> final(io).is_with_if(
                *old(io),
                old(io).ifired() | 0xE4,
            ),
            old(self).overflow_source != TimaOverflowState::Advancing ==> *final(io) == *old(io),
    {
        match self.overflow_source {
            TimaOverflowState::Advancing => {
                self.tima = self.tma;
                self.overflow_source = TimaOverflowState::Done;
                io.request_timer_interrupt();
            },
            TimaOverflowState::Done => self.overflow_source = TimaOverflowState::Inactive,
            TimaOverflowState::Inactive => {},
        }

        let (timer_enable, _) = self.decode_tac();
        let old_div_bit = self.div_tac_multiplexer();

        self.div = ((self.div as usize + cycles % 65536) % 65536) as u16;

        let new_div_bit = self.div_tac_multiplexer();

        // Falling edge detector
        let should_incr = self.detected_falling_edge(
            old_div_bit,
            new_div_bit,
            timer_enable,
            timer_enable,
        );

        if should_incr {
            self.incr_timer();
        }
    }

    fn write_div(&mut self)
        ensures
            *final(self) == moved(*old(self), 0, old(self).tac),
    {
        let (timer_enable, _) = self.decode_tac();
        let old_div_bit = self.div_tac_multiplexer();

        self.div = 0;

        let new_div_bit = self.div_tac_multiplexer();

        let should_incr = self.detected_falling_edge(
            old_div_bit,
            new_div_bit,
            timer_enable,
            timer_enable,
        );
        if should_incr {
            self.incr_timer();
        }
    }

    fn write_tac(&mut self, data: u8)
        ensures
            *final(self) == moved(*old(self), old(self).div, (data % 8 + 0xF8) as u8),
    {
        let old_div_bit = self.div_tac_multiplexer();
        let (old_enbl, _) = self.decode_tac();

        self.tac = data % 8 + 0xF8;

        let new_div_bit = self.div_tac_multiplexer();
        let (new_enbl, _) = self.decode_tac();

        let should_incr = self.detected_falling_edge(old_div_bit, new_div_bit, old_enbl, new_enbl);

        if should_incr {
            self.incr_timer();
        }
    }

    // Increments the timer and returns if it overflowed
    fn incr_timer(&mut self) -> (overflow: bool)
        ensures
            *final(self) == incremented(*old(self)),
            overflow == (old(self).tima == 255),
    {
        let overflow = self.tima == 255;
        if overflow {
            // Delay reload for 1 M-cycle
            self.tima = 0x00;
            self.overflow_source = TimaOverflowState::Advancing;
        } else {
            self.tima = self.tima + 1;
        }
        overflow
    }

    /// Whether the timer is enabled, and its period in CPU cycles.
    pub fn decode_tac(&self) -> (r: (bool, usize))
        ensures
            r.0 == tac_enabled(self.tac),
            r.1 == tac_period(self.tac),
    {
        let tac = self.tac;
        let enable = (tac / 4) % 2 == 1;
        match tac % 4 {
            0 => (enable, 1024),
            1 => (enable, 16),
            2 => (enable, 64),
            _ => (enable, 256),
        }
    }

    fn div_tac_multiplexer(&self) -> (b: bool)
        ensures
            b == div_bit(self.div, self.tac),
    {
        match self.tac % 4 {
            0 => (self.div / 512) % 2 == 1,
            1 => (self.div / 8) % 2 == 1,
            2 => (self.div / 32) % 2 == 1,
            _ => (self.div / 128) % 2 == 1,
        }
    }

    // Return true on a 1 to 0 transition
    fn detected_falling_edge(&self, old_div: bool, new_div: bool, old_enbl: bool, new_enbl: bool) -> (b: bool)
        ensures
            b == falling_edge(old_div, new_div, old_enbl, new_enbl),
    {
        (old_div && old_enbl) && !(new_div && new_enbl)
    }

    /// Register values left behind by the DMG boot ROM.
    pub fn dmg_init(&mut self)
        ensures
            final(self).div == 0xABCC,
            final(self).tima == 0 && final(self).tma == 0 && final(self).tac == 0xF8,
            final(self).overflow_source == old(self).overflow_source,
    {
        self.div = 0xABCC;
        self.tima = 0x00;
        self.tma = 0x00;
        self.tac = 0xF8;
    }
}

} // verus!
