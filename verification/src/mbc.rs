//! The cartridge side of the memory map: the memory bank controller that
//! the cartridge header names.
pub mod mbc1;
pub mod mbc3;
pub mod mbc5;
pub mod mbc_none;
pub mod mbc_timer;
pub mod rtc_save;

use vstd::prelude::*;
use self::mbc1::Mbc1;
use self::mbc3::Mbc3;
use self::mbc5::Mbc5;
use self::mbc_none::MbcNone;

verus! {

/// The memory bank controllers this emulator supports.
pub enum Mbc {
    NoMbc(MbcNone),
    Mbc1(Mbc1),
    Mbc3(Mbc3),
    Mbc5(Mbc5),
}

impl Mbc {
    pub open spec fn wf(&self) -> bool {
        match self {
            Mbc::NoMbc(m) => m.wf(),
            Mbc::Mbc1(m) => m.wf(),
            Mbc::Mbc3(m) => m.wf(),
            Mbc::Mbc5(m) => m.wf(),
        }
    }

    /// A cartridge without a controller.
    pub open spec fn is_plain(&self) -> bool {
        self is NoMbc
    }

    /// The ROM image of a cartridge without a controller.
    pub open spec fn plain_rom(&self) -> Seq<u8> {
        match self {
            Mbc::NoMbc(m) => m.rom@,
            _ => Seq::empty(),
        }
    }

    /// The RAM of a cartridge without a controller.
    pub open spec fn plain_ram(&self) -> Seq<u8> {
        match self {
            Mbc::NoMbc(m) => m.ram@,
            _ => Seq::empty(),
        }
    }

    /// The byte that a read of ROM address `addr` gives.
    pub open spec fn rom_byte(&self, addr: u16) -> u8 {
        match self {
            Mbc::NoMbc(m) => m.rom@[addr as int],
            Mbc::Mbc1(m) => m.rom_byte(addr),
            Mbc::Mbc3(m) => m.rom_byte(addr),
            Mbc::Mbc5(m) => m.rom_byte(addr),
        }
    }

    /// The byte that a read of RAM address `addr` gives.
    pub open spec fn ram_byte(&self, addr: u16) -> u8 {
        match self {
            Mbc::NoMbc(m) => m.ram@[addr - 0xA000],
            Mbc::Mbc1(m) => m.ram_byte(addr),
            Mbc::Mbc3(m) => m.ram_byte(addr),
            Mbc::Mbc5(m) => m.ram_byte(addr),
        }
    }

    /// `new` is `old` after time passed: only the running clock of an MBC3
    /// moves.
    pub open spec fn clock_moved(new: Mbc, old: Mbc) -> bool {
        match old {
            Mbc::Mbc3(a) => new matches Mbc::Mbc3(b) && b == (Mbc3 { timer: b.timer, ..a }),
            _ => new == old,
        }
    }

    /// The controller `cycles` CPU cycles later: the clock of an MBC3 runs
    /// on, every other controller stays as it is.
    pub open spec fn after_cycles(self, cycles: usize) -> Mbc {
        match self {
            Mbc::Mbc3(m) => Mbc::Mbc3(m.after_cycles(cycles)),
            _ => self,
        }
    }

    /// `new` is `old` after a write of `val` to ROM address `addr`: it lands
    /// in the ROM of a cartridge without a controller, and sets the
    /// registers of a controller.
    pub open spec fn rom_written(new: Mbc, old: Mbc, addr: u16, val: u8) -> bool {
        match old {
            Mbc::NoMbc(a) => new matches Mbc::NoMbc(b) && b.rom@ == a.rom@.update(addr as int, val)
                && b.ram@ == a.ram@,
            Mbc::Mbc1(a) => new matches Mbc::Mbc1(b) && Mbc1::regs_written(b, a, addr, val),
            Mbc::Mbc3(a) => new matches Mbc::Mbc3(b) && Mbc3::regs_written(b, a, addr, val),
            Mbc::Mbc5(a) => new matches Mbc::Mbc5(b) && Mbc5::regs_written(b, a, addr, val),
        }
    }

    /// `new` is `old` after a write of `val` to RAM address `addr`.
    pub open spec fn ram_written(new: Mbc, old: Mbc, addr: u16, val: u8) -> bool {
        match old {
            Mbc::NoMbc(a) => new matches Mbc::NoMbc(b) && b.ram@ == a.ram@.update(addr - 0xA000, val)
                && b.rom@ == a.rom@,
            Mbc::Mbc1(a) => new matches Mbc::Mbc1(b) && Mbc1::ram_written(b, a, addr, val),
            Mbc::Mbc3(a) => new matches Mbc::Mbc3(b) && Mbc3::ram_written(b, a, addr, val),
            Mbc::Mbc5(a) => new matches Mbc::Mbc5(b) && Mbc5::ram_written(b, a, addr, val),
        }
    }

    pub fn read_rom_byte(&self, addr: u16) -> (b: u8)
        requires
            self.wf(),
            addr < 0x8000,
        ensures
            b == self.rom_byte(addr),
    {
        match self {
            Mbc::NoMbc(m) => m.read_rom_byte(addr),
            Mbc::Mbc1(m) => m.read_rom_byte(addr),
            Mbc::Mbc3(m) => m.read_rom_byte(addr),
            Mbc::Mbc5(m) => m.read_rom_byte(addr),
        }
    }

    pub fn write_rom_byte(&mut self, addr: u16, val: u8)
        requires
            old(self).wf(),
            addr < 0x8000,
        ensures
            final(self).wf(),
            Mbc::rom_written(*final(self), *old(self), addr, val),
    {
        match self {
            Mbc::NoMbc(m) => m.write_rom_byte(addr, val),
            Mbc::Mbc1(m) => m.write_rom_byte(addr, val),
            Mbc::Mbc3(m) => m.write_rom_byte(addr, val),
            Mbc::Mbc5(m) => m.write_rom_byte(addr, val),
        }
    }

    pub fn read_ram_byte(&self, addr: u16) -> (b: u8)
        requires
            self.wf(),
            0xA000 <= addr < 0xC000,
        ensures
            b == self.ram_byte(addr),
    {
        match self {
            Mbc::NoMbc(m) => m.read_ram_byte(addr),
            Mbc::Mbc1(m) => m.read_ram_byte(addr),
            Mbc::Mbc3(m) => m.read_ram_byte(addr),
            Mbc::Mbc5(m) => m.read_ram_byte(addr),
        }
    }

    pub fn write_ram_byte(&mut self, addr: u16, val: u8)
        requires
            old(self).wf(),
            0xA000 <= addr < 0xC000,
        ensures
            final(self).wf(),
            Mbc::ram_written(*final(self), *old(self), addr, val),
    {
        match self {
            Mbc::NoMbc(m) => m.write_ram_byte(addr, val),
            Mbc::Mbc1(m) => m.write_ram_byte(addr, val),
            Mbc::Mbc3(m) => m.write_ram_byte(addr, val),
            Mbc::Mbc5(m) => m.write_ram_byte(addr, val),
        }
    }

    /// Lets time pass: the clock of an MBC3 runs on.
    pub fn adv_cycles(&mut self, cycles: usize)
        requires
            old(self).wf(),
        ensures
            final(self).wf(),
            *final(self) == old(self).after_cycles(cycles),
            Mbc::clock_moved(*final(self), *old(self)),
            forall|a: u16| #[trigger] final(self).rom_byte(a) == old(self).rom_byte(a),
            forall|a: u16| #[trigger] final(self).ram_byte(a) == old(self).ram_byte(a),
    {
        match self {
            Mbc::Mbc3(m) => m.adv_cycles(cycles),
            _ => {},
        }
    }
}

} // verus!
