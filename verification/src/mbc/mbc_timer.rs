//! The MBC3 real time clock registers and their conversion to and from a
//! count of seconds.
/*
    Writing to latched registers is always allowed (otherwise the halt flag
    could never be set); the halt flag only stops new values from being
    latched. The clock keeps ticking while halted.
*/
use vstd::prelude::*;

verus! {

pub const RTC_FREQ: usize = 32_768;
pub const COUNTER_MAX_SECONDS: u64 = 44_236_799;

pub struct MbcTimer {
    pub seconds: u8,
    pub minutes: u8,
    pub hours: u8,
    pub days_lo: u8,  // Lower 8 bits of the day counter
    pub days_hi: u8,  // Upper 1 bit of the day counter, the carry flag, and the halt flag
    pub cycles: usize,
    pub int_cycles: usize,
}

/// The number of seconds that the registers stand for.
pub open spec fn secs_of(t: MbcTimer) -> int {
    t.seconds + t.minutes * 60 + t.hours * 3600 + t.days_lo * 86400 + (t.days_hi % 2) * 256
        * 86400
}

/// The day counter (9 bits) of `s` seconds, before the overflow.
pub open spec fn days_of(s: u64) -> int {
    (s / 86400) as int
}

/// DH after a conversion from `s` seconds: bit 0 is day bit 8, bit 7 is set
/// when the count is 512 days or more, the other bits are kept.
pub open spec fn days_hi_after(days_hi: u8, s: u64) -> u8 {
    let days = days_of(s);
    ((days_hi & 0xFE) | (if 256 <= days <= 511 { 0x01u8 } else { 0 })) | (if days >= 512 {
        0x80u8
    } else {
        0
    })
}

/// The registers after a conversion from `s` seconds.
pub open spec fn from_secs_spec(t: MbcTimer, s: u64) -> MbcTimer {
    MbcTimer {
        seconds: (s % 60) as u8,
        minutes: ((s / 60) % 60) as u8,
        hours: ((s / 3600) % 24) as u8,
        days_lo: (days_of(s) % 256) as u8,
        days_hi: days_hi_after(t.days_hi, s),
        ..t
    }
}

/// The registers after the clock moved by `d` seconds (the count wraps
/// modulo 2^64), with the overflow bit set when `carry` holds.
#[verifier::opaque]
pub open spec fn moved_by(t: MbcTimer, d: int, carry: bool) -> MbcTimer {
    let moved = from_secs_spec(t, ((secs_of(t) + d) % 0x1_0000_0000_0000_0000) as u64);
    if carry {
        MbcTimer { days_hi: moved.days_hi | 0x80, ..moved }
    } else {
        moved
    }
}

/// Registers that a real clock can hold.
pub open spec fn in_range(t: MbcTimer) -> bool {
    t.seconds < 60 && t.minutes < 60 && t.hours < 24
}

impl MbcTimer {
    pub fn new() -> (t: MbcTimer)
        ensures
            t.seconds == 0 && t.minutes == 0 && t.hours == 0 && t.days_lo == 0 && t.days_hi == 0,
            t.cycles == 0 && t.int_cycles == 0,
    {
        MbcTimer {
            seconds: 0x00,
            minutes: 0x00,
            hours: 0x00,
            days_lo: 0x00,
            days_hi: 0x00,
            cycles: 0,
            int_cycles: 0,
        }
    }

    /// The halt flag: bit 6 of DH, whatever the day carry (bit 7) holds.
    pub fn is_halted(&self) -> (b: bool)
        ensures
            b == (self.days_hi & 0x40 != 0),
    {
        (self.days_hi & 0x40) != 0
    }

    pub fn is_counter_overflow(&self) -> (b: bool)
        ensures
            b == (self.days_hi / 128 == 1),
    {
        (self.days_hi / 128) == 0x01
    }

    pub fn get_day_msb(&self) -> (b: u8)
        ensures
            b == self.days_hi % 2,
    {
        self.days_hi % 2
    }

    // Call this when the latch has changed from 0 to 1
    // self should be the latched timer, and new_rtc should be the constantly updating one
    pub fn on_latch_register(&mut self, new_rtc: &MbcTimer)
        ensures
            final(self).seconds == new_rtc.seconds,
            final(self).minutes == new_rtc.minutes,
            final(self).hours == new_rtc.hours,
            final(self).days_lo == new_rtc.days_lo,
            final(self).days_hi == ((old(self).days_hi & 0xC0) | (new_rtc.days_hi & 0x81)),
            final(self).cycles == old(self).cycles,
            final(self).int_cycles == old(self).int_cycles,
    {
        self.seconds = new_rtc.seconds;
        self.minutes = new_rtc.minutes;
        self.hours = new_rtc.hours;
        self.days_lo = new_rtc.days_lo;

        // Keep the former halt flags and take the new bit 0 and overflow bit
        self.days_hi = (self.days_hi & 0xC0) | (new_rtc.days_hi & 0x81);
    }

    /// Moves the clock forward by `diff_seconds` (modulo 2^64) and sets the
    /// overflow bit when `carry` holds.
    pub fn update_timer_pos(&mut self, diff_seconds: u64, carry: bool)
        requires
            in_range(*old(self)),
        ensures
            *final(self) == moved_by(*old(self), diff_seconds as int, carry),
            in_range(*final(self)),
            final(self).cycles == old(self).cycles,
            final(self).int_cycles == old(self).int_cycles,
    {
        proof {
            reveal(moved_by);
        }
        let rtc_as_seconds = self.to_secs();
        let rtc_as_seconds = rtc_as_seconds.wrapping_add(diff_seconds);
        self.from_secs(rtc_as_seconds);

        if carry {
            self.days_hi = self.days_hi | 0x80;
        }
    }

    /// Moves the clock by `diff_seconds`, which may be negative; the count
    /// of seconds wraps modulo 2^64 as in `update_timer_pos`.
    pub fn update_timer(&mut self, diff_seconds: i64, carry: bool)
        requires
            in_range(*old(self)),
        ensures
            *final(self) == moved_by(*old(self), diff_seconds as int, carry),
            in_range(*final(self)),
            final(self).cycles == old(self).cycles,
            final(self).int_cycles == old(self).int_cycles,
    {
        proof {
            reveal(moved_by);
        }
        let rtc_as_seconds = self.to_secs();
        let rtc_as_seconds = rtc_as_seconds.wrapping_add_signed(diff_seconds);
        self.from_secs(rtc_as_seconds);

        if carry {
            self.days_hi = self.days_hi | 0x80;
        }
    }

    pub fn from_secs(&mut self, rtc_as_seconds: u64)
        ensures
            *final(self) == from_secs_spec(*old(self), rtc_as_seconds),
            in_range(*final(self)),
    {
        self.seconds = (rtc_as_seconds % 60) as u8;
        self.minutes = ((rtc_as_seconds / 60) % 60) as u8;
        self.hours = ((rtc_as_seconds / 3600) % 24) as u8;

        let days = rtc_as_seconds / 86400;
        self.days_lo = (days % 256) as u8;

        self.days_hi = self.days_hi & 0xFE;
        if (days >= 256) && days <= 511 {
            self.days_hi = self.days_hi | 0x01;
        } else {
            self.days_hi = self.days_hi | 0;
        }
        if days >= 512 {
            self.days_hi = self.days_hi | 0x80;
        } else {
            self.days_hi = self.days_hi | 0;
        }
    }

    pub fn to_secs(&self) -> (s: u64)
        ensures
            s == secs_of(*self),
    {
        self.seconds as u64 + (self.minutes as u64 * 60) + (self.hours as u64 * 3600) + (
        self.days_lo as u64 * 86400) + ((self.days_hi % 2) as u64 * 256 * 86400)
    }
}

/// Bit 0 of a DH value built by `days_hi_after` is the day bit 8 that went in.
proof fn lemma_days_hi_bit0(h: u8, b0: u8, b7: u8)
    requires
        b0 == 0 || b0 == 1,
        b7 == 0 || b7 == 0x80,
    ensures
        (((h & 0xFE) | b0) | b7) % 2 == b0,
{
    assert((((h & 0xFE) | b0) | b7) % 2 == b0) by (bit_vector)
        requires
            b0 == 0 || b0 == 1,
            b7 == 0 || b7 == 0x80,
    ;
}

/// Converting a count of seconds below 512 days to registers and back gives
/// the count again.
pub proof fn lemma_secs_roundtrip(t: MbcTimer, s: u64)
    requires
        s <= COUNTER_MAX_SECONDS,
    ensures
        secs_of(from_secs_spec(t, s)) == s,
{
    let d = days_of(s);
    let hi = days_hi_after(t.days_hi, s);
    assert(hi % 2 == (if d >= 256 { 1int } else { 0 })) by {
        let b0: u8 = if 256 <= d <= 511 { 0x01u8 } else { 0 };
        let b7: u8 = if d >= 512 { 0x80u8 } else { 0 };
        assert(b7 == 0);
        lemma_days_hi_bit0(t.days_hi, b0, b7);
    }
    assert(s == s % 60 + ((s / 60) % 60) * 60 + ((s / 3600) % 24) * 3600 + (d % 256) * 86400 + (
    if d >= 256 { 256int } else { 0 }) * 86400) by (nonlinear_arith)
        requires
            d == s / 86400,
            s <= 44_236_799,
    ;
}

/// Converting the registers of a clock to seconds and back gives the same
/// time of day and day counter.
pub proof fn lemma_registers_roundtrip(t: MbcTimer)
    requires
        in_range(t),
    ensures
        ({
            let u = from_secs_spec(t, secs_of(t) as u64);
            u.seconds == t.seconds && u.minutes == t.minutes && u.hours == t.hours && u.days_lo
                == t.days_lo && u.days_hi % 2 == t.days_hi % 2
        }),
{
    let s = secs_of(t);
    let d = t.days_lo + (t.days_hi % 2) * 256;
    assert(s == t.seconds + t.minutes * 60 + t.hours * 3600 + d * 86400);
    assert(s % 60 == t.seconds && (s / 60) % 60 == t.minutes && (s / 3600) % 24 == t.hours && s
        / 86400 == d) by (nonlinear_arith)
        requires
            s == t.seconds + t.minutes * 60 + t.hours * 3600 + d * 86400,
            0 <= t.seconds < 60,
            0 <= t.minutes < 60,
            0 <= t.hours < 24,
            0 <= d,
    ;
    let hi = days_hi_after(t.days_hi, s as u64);
    let b0: u8 = if 256 <= d <= 511 { 0x01u8 } else { 0 };
    let b7: u8 = if d >= 512 { 0x80u8 } else { 0 };
    assert(d < 512);
    assert(b0 == t.days_hi % 2);
    lemma_days_hi_bit0(t.days_hi, b0, b7);
}

} // verus!
