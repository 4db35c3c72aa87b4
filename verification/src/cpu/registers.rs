use vstd::prelude::*;

verus! {

/// The high byte of a 16-bit register pair.
pub open spec fn hi_of(x: u16) -> u8 {
    (x / 256) as u8
}

/// The low byte of a 16-bit register pair.
pub open spec fn lo_of(x: u16) -> u8 {
    (x % 256) as u8
}

/// The 16-bit value whose high byte is `hi` and whose low byte is `lo`.
pub open spec fn word_of(hi: u8, lo: u8) -> u16 {
    (hi as int * 256 + lo as int) as u16
}

/// Bit 7 of the flag register (zero).
pub open spec fn flag_z(f: u8) -> bool {
    (f / 128) % 2 == 1
}

/// Bit 6 of the flag register (subtract).
pub open spec fn flag_n(f: u8) -> bool {
    (f / 64) % 2 == 1
}

/// Bit 5 of the flag register (half carry).
pub open spec fn flag_h(f: u8) -> bool {
    (f / 32) % 2 == 1
}

/// Bit 4 of the flag register (carry).
pub open spec fn flag_c(f: u8) -> bool {
    (f / 16) % 2 == 1
}

/// The flag register `0bZNHC_xxxx` with the given flags and the low
/// nibble taken from `low`.
pub open spec fn make_flags(z: bool, n: bool, h: bool, c: bool, low: u8) -> u8 {
    ((if z { 128int } else { 0 }) + (if n { 64int } else { 0 }) + (if h { 32int } else { 0 })
        + (if c { 16int } else { 0 }) + low % 16) as u8
}

/// Reading back the flags of a freshly built flag register gives the
/// flags it was built from, and its low nibble.
pub proof fn lemma_make_flags(z: bool, n: bool, h: bool, c: bool, low: u8)
    ensures
        flag_z(make_flags(z, n, h, c, low)) == z,
        flag_n(make_flags(z, n, h, c, low)) == n,
        flag_h(make_flags(z, n, h, c, low)) == h,
        flag_c(make_flags(z, n, h, c, low)) == c,
        make_flags(z, n, h, c, low) % 16 == low % 16,
{
}

/// Splitting a word into bytes and joining them again gives the word back.
pub proof fn lemma_word_roundtrip(x: u16)
    ensures
        word_of(hi_of(x), lo_of(x)) == x,
{
}

/// Joining two bytes into a word and splitting it gives the bytes back.
pub proof fn lemma_bytes_roundtrip(hi: u8, lo: u8)
    ensures
        hi_of(word_of(hi, lo)) == hi,
        lo_of(word_of(hi, lo)) == lo,
{
}

// Each one may also be addressed as just the upper or lower 8 bits
pub struct Registers {
    pub af: u16,  // A: accumulator, F: flags as 0bZNHC0000
    pub bc: u16,
    pub de: u16,
    pub hl: u16,
}

impl Registers {
    pub fn new() -> (r: Registers)
        ensures
            r.af == 0 && r.bc == 0 && r.de == 0 && r.hl == 0,
    {
        Registers { af: 0x0000, bc: 0x0000, de: 0x0000, hl: 0x0000 }
    }

    /// Register values left behind by the DMG boot ROM.
    pub fn dmg_init(&mut self, checksum: u8)
        ensures
            final(self).af == (if checksum == 0 { 0x0180u16 } else { 0x01B0u16 }),
            final(self).bc == 0x0013,
            final(self).de == 0x00D8,
            final(self).hl == 0x014D,
    {
        if checksum == 0x00 {
            self.af = 0x0180;
        } else {
            self.af = 0x01B0;
        }
        self.bc = 0x0013;
        self.de = 0x00D8;
        self.hl = 0x014D;
    }

    // returns true if z is set
    pub fn get_z(&self) -> (b: bool)
        ensures
            b == flag_z(lo_of(self.af)),
    {
        ((self.af % 256) / 128) % 2 == 1
    }

    // returns true if n is set
    pub fn get_n(&self) -> (b: bool)
        ensures
            b == flag_n(lo_of(self.af)),
    {
        ((self.af % 256) / 64) % 2 == 1
    }

    // returns true if h is set
    pub fn get_h(&self) -> (b: bool)
        ensures
            b == flag_h(lo_of(self.af)),
    {
        ((self.af % 256) / 32) % 2 == 1
    }

    // returns true if c is set
    pub fn get_c(&self) -> (b: bool)
        ensures
            b == flag_c(lo_of(self.af)),
    {
        ((self.af % 256) / 16) % 2 == 1
    }

    // returns the given register as 2 u8s in a tuple as (High, Low)
    pub fn get_hi_lo(xy: u16) -> (r: (u8, u8))
        ensures
            r.0 == hi_of(xy),
            r.1 == lo_of(xy),
    {
        ((xy / 256) as u8, (xy % 256) as u8)
    }

    pub fn get_hi(xy: u16) -> (r: u8)
        ensures
            r == hi_of(xy),
    {
        (xy / 256) as u8
    }

    pub fn get_lo(xy: u16) -> (r: u8)
        ensures
            r == lo_of(xy),
    {
        (xy % 256) as u8
    }

    /// Replaces the high byte of `reg` with `byte`.
    pub fn set_hi(reg: u16, byte: u8) -> (r: u16)
        ensures
            r == word_of(byte, lo_of(reg)),
    {
        (byte as u16) * 256 + reg % 256
    }

    /// Replaces the low byte of `reg` with `byte`.
    pub fn set_lo(reg: u16, byte: u8) -> (r: u16)
        ensures
            r == word_of(hi_of(reg), byte),
    {
        (reg / 256) * 256 + (byte as u16)
    }

    /// Replaces the high byte of `reg` with `byte`.
    pub fn set_top_byte(reg: u16, byte: u8) -> (r: u16)
        ensures
            r == word_of(byte, lo_of(reg)),
    {
        Registers::set_hi(reg, byte)
    }

    /// Replaces the low byte of `reg` with `byte`.
    pub fn set_bottom_byte(reg: u16, byte: u8) -> (r: u16)
        ensures
            r == word_of(hi_of(reg), byte),
    {
        Registers::set_lo(reg, byte)
    }
}

} // verus!
