//! The miscellaneous I/O register page 0xFF00 - 0xFF7F (interrupt flags and
//! the registers that no other device answers for).
// The unused bits in all io registers should always return 1
// This is for both registers that have and dont have dedicated purposes
use vstd::prelude::*;

verus! {

pub const IO_START: u16 = 0xFF00;
pub const IF_REG: u16 = 0xFF0F;
pub const DIV_REG: u16 = 0xFF04;  // Writing any value to this register resets it to 0
pub const TIMA_REG: u16 = 0xFF05;
pub const TMA_REG: u16 = 0xFF06;
pub const TAC_REG: u16 = 0xFF07;

/// Index of IF within the page.
pub open spec fn if_index() -> int {
    (IF_REG - IO_START) as int
}

pub struct Io {
    pub io: Vec<u8>,
}

impl Io {
    /// The register page always holds 128 bytes.
    pub open spec fn wf(&self) -> bool {
        self.io@.len() == 128
    }

    /// The interrupt flag register IF.
    pub open spec fn ifired(&self) -> u8 {
        self.io@[if_index()]
    }

    /// `self` is `old` after a write of `data` to `addr`: 0xFF72, 0xFF73
    /// and 0xFF75 read back 0xFF, IF keeps its top three bits set, the other
    /// registers of the page ignore writes.
    pub open spec fn written(&self, old: Io, addr: u16, data: u8) -> bool {
        if addr == 0xFF72 || addr == 0xFF73 || addr == 0xFF75 {
            self.io@ == old.io@.update(addr - IO_START, 0xFF)
        } else if addr == IF_REG {
            self.io@ == old.io@.update(if_index(), data | 0xE0)
        } else {
            self.io@ == old.io@
        }
    }

    /// `self` is `old` with interrupt requests added to IF (bits only set)
    /// and everything else kept.
    pub open spec fn if_grown(&self, old: Io) -> bool {
        &&& self.io@ == old.io@.update(if_index(), self.ifired())
        &&& self.ifired() & old.ifired() == old.ifired()
    }

    /// `self` is `old` with IF replaced by `v` and everything else kept.
    pub open spec fn is_with_if(&self, old: Io, v: u8) -> bool {
        self.io@ == old.io@.update(if_index(), v)
    }

    pub fn new() -> (io: Io)
        ensures
            io.wf(),
            forall|i: int| 0 <= i < 128 ==> io.io@[i] == 0xFF,
    {
        Io { io: vec![0xFF; 128] }
    }

    pub fn read_byte(&self, addr: u16) -> (b: u8)
        requires
            self.wf(),
            IO_START <= addr < 0xFF80,
        ensures
            b == self.io@[addr - IO_START],
    {
        self.io[(addr - IO_START) as usize]
    }

    // https://gbdev.io/pandocs/CGB_Registers.html#ff74---bits-0-7-readwrite---cgb-mode-only
    /// Only 0xFF72, 0xFF73, 0xFF75 (which always read back 0xFF) and IF
    /// (whose top three bits always read as 1) take writes.
    pub fn write_byte(&mut self, addr: u16, data: u8)
        requires
            old(self).wf(),
            IO_START <= addr < 0xFF80,
        ensures
            final(self).wf(),
            final(self).written(*old(self), addr, data),
    {
        match addr {
            0xFF72 | 0xFF73 | 0xFF75 => {
                // Contradicts Pandocs but Ill trust Mooneye
                self.io[(addr - IO_START) as usize] = data | 0xFF;
                assert(data | 0xFF == 0xFF) by (bit_vector);
            },
            IF_REG => self.io[(IF_REG - IO_START) as usize] = data | 0xE0,
            _ => {},
        }
    }

    /// Ors `mask` into IF.
    fn request_interrupt(&mut self, mask: u8)
        requires
            old(self).wf(),
        ensures
            final(self).wf(),
            final(self).is_with_if(*old(self), old(self).ifired() | mask),
    {
        let ifired = (IF_REG - IO_START) as usize;
        self.io[ifired] = self.io[ifired] | mask;
    }

    pub fn request_joypad_interrupt(&mut self)
        requires
            old(self).wf(),
        ensures
            final(self).wf(),
            final(self).is_with_if(*old(self), old(self).ifired() | 0xF0),
    {
        self.request_interrupt(0xF0);
    }

    pub fn request_serial_interrupt(&mut self)
        requires
            old(self).wf(),
        ensures
            final(self).wf(),
            final(self).is_with_if(*old(self), old(self).ifired() | 0xE8),
    {
        self.request_interrupt(0xE8);
    }

    pub fn request_timer_interrupt(&mut self)
        requires
            old(self).wf(),
        ensures
            final(self).wf(),
            final(self).is_with_if(*old(self), old(self).ifired() | 0xE4),
    {
        self.request_interrupt(0xE4);
    }

    pub fn request_stat_interrupt(&mut self)
        requires
            old(self).wf(),
        ensures
            final(self).wf(),
            final(self).is_with_if(*old(self), old(self).ifired() | 0xE2),
    {
        self.request_interrupt(0xE2);
    }

    pub fn request_vblank_interrupt(&mut self)
        requires
            old(self).wf(),
        ensures
            final(self).wf(),
            final(self).is_with_if(*old(self), old(self).ifired() | 0xE1),
    {
        self.request_interrupt(0xE1);
    }

    /// Register values left behind by the DMG boot ROM.
    pub fn dmg_init(&mut self)
        requires
            old(self).wf(),
        ensures
            final(self).wf(),
            final(self).ifired() == 0xE1,
            final(self).io@[0xFF72 - 0xFF00] == 0x00,
            final(self).io@[0xFF73 - 0xFF00] == 0x00,
            final(self).io@[0xFF75 - 0xFF00] == 0x8F,
            forall|r: int|
                r == 0x03 || r == 0x4D || r == 0x4F || (0x51 <= r <= 0x56) || (0x68 <= r <= 0x6B)
                    || r == 0x70 || r == 0x74 ==> #[trigger] final(self).io@[r] == 0xFF,
            forall|r: int|
                0 <= r < 128 && r != 0x0F && r != 0x03 && r != 0x4D && r != 0x4F && !(0x51 <= r
                    <= 0x56) && !(0x68 <= r <= 0x6B) && r != 0x70 && r != 0x72 && r != 0x73 && r
                    != 0x74 && r != 0x75 ==> #[trigger] final(self).io@[r] == old(self).io@[r],
    {
        self.io[(IF_REG - IO_START) as usize] = 0xE1;

        // Not sure
        self.io[0x03] = 0xFF;

        // These are cgb registers
        self.io[0x4D] = 0xFF;
        self.io[0x4F] = 0xFF;
        self.io[0x51] = 0xFF;
        self.io[0x52] = 0xFF;
        self.io[0x53] = 0xFF;
        self.io[0x54] = 0xFF;
        self.io[0x55] = 0xFF;
        self.io[0x56] = 0xFF;
        self.io[0x68] = 0xFF;
        self.io[0x69] = 0xFF;
        self.io[0x6A] = 0xFF;
        self.io[0x6B] = 0xFF;
        self.io[0x70] = 0xFF;

        // https://gbdev.io/pandocs/CGB_Registers.html#undocumented-registers
        self.io[0x72] = 0x00;
        self.io[0x73] = 0x00;
        self.io[0x74] = 0xFF;  // R/W in cgb, otherwise read only as 0xFF
        self.io[0x75] = 0x8F;
    }
}

/// Adding nothing to IF is growing it.
/// IF only gains requests over two steps that each only gain requests.
pub proof fn lemma_bits_kept(a: u8, b: u8, c: u8)
    requires
        b & a == a,
        c & b == b,
    ensures
        c & a == a,
{
    assert(b & a == a && c & b == b ==> c & a == a) by (bit_vector);
}

pub proof fn lemma_if_same(a: Io)
    requires
        a.wf(),
    ensures
        a.if_grown(a),
{
    let f = a.ifired();
    assert(f & f == f) by (bit_vector);
    assert(a.io@ =~= a.io@.update(if_index(), a.ifired()));
}

/// Oring a mask into IF grows it.
pub proof fn lemma_if_step(a: Io, b: Io, m: u8)
    requires
        a.wf(),
        b.is_with_if(a, (a.ifired() | m) as u8),
    ensures
        b.if_grown(a),
{
    let f = a.ifired();
    assert((f | m) & f == f) by (bit_vector);
}

/// Growing IF twice grows it.
pub proof fn lemma_if_trans(a: Io, b: Io, c: Io)
    requires
        a.wf(),
        b.if_grown(a),
        c.if_grown(b),
    ensures
        c.if_grown(a),
{
    let (fa, fb, fc) = (a.ifired(), b.ifired(), c.ifired());
    assert(fc & fa == fa) by (bit_vector)
        requires
            fb & fa == fa,
            fc & fb == fb,
    ;
    assert(c.io@ =~= a.io@.update(if_index(), c.ifired()));
}

} // verus!
