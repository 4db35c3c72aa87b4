//! MBC5: up to 8 MiB of ROM in 16 KiB banks selected by a 9-bit bank number
//! (bank 0 included), and up to 128 KiB of RAM in 8 KiB banks. Rumble is
//! not emulated.
use vstd::prelude::*;
use super::mbc1::{ROM_BANK_SIZE, RAM_BANK_SIZE};

verus! {

pub struct Mbc5 {
    pub rom: Vec<u8>,  // bank 0 0x0000 - 0x3FFF and bank N 0x4000 - 0x7FFF
    pub ram: Vec<u8>,  // 0xA000 - 0xBFFF
    pub rom_offset: usize,
    pub ram_offset: usize,
    pub rom_bank_lo: usize,  // Lower 8 bits of rom bank num
    pub rom_bank_hi: usize,  // Upper 1 bit of rom bank num
    pub ram_bank: usize,  // 0x00 - 0x0F
    pub max_rom_banks: usize,
    pub max_ram_banks: usize,
    pub ram_enabled: bool,
}

/// The ROM bank mapped at 0x4000 - 0x7FFF: the 9-bit bank number, wrapped
/// to the banks the cartridge has.
pub open spec fn rom_bank_of(m: Mbc5) -> int {
    (m.rom_bank_hi * 256 + m.rom_bank_lo) % (m.max_rom_banks as int)
}

/// The RAM bank mapped at 0xA000 - 0xBFFF.
pub open spec fn ram_bank_of(m: Mbc5) -> int {
    if m.max_ram_banks == 0 {
        0
    } else {
        (m.ram_bank as int) % (m.max_ram_banks as int)
    }
}

impl Mbc5 {
    /// A loaded cartridge: the bank registers hold what writes can put
    /// there and the offsets point at the selected banks.
    pub open spec fn wf(&self) -> bool {
        &&& 1 <= self.max_rom_banks <= 512
        &&& self.rom@.len() >= self.max_rom_banks * ROM_BANK_SIZE
        &&& self.rom_bank_lo < 256 && self.rom_bank_hi < 2 && self.ram_bank < 16
        &&& self.rom_offset == rom_bank_of(*self) * ROM_BANK_SIZE
        &&& self.max_ram_banks <= 16
        &&& self.ram@.len() == self.max_ram_banks * RAM_BANK_SIZE
        &&& self.ram_offset == ram_bank_of(*self) * RAM_BANK_SIZE
    }

    /// The byte that a read of ROM address `addr` gives.
    pub open spec fn rom_byte(&self, addr: u16) -> u8 {
        if addr < 0x4000 {
            self.rom@[addr as int]
        } else {
            self.rom@[self.rom_offset + addr - 0x4000]
        }
    }

    /// The byte that a read of RAM address `addr` gives: 0xFF without RAM
    /// or while it is disabled.
    pub open spec fn ram_byte(&self, addr: u16) -> u8 {
        if self.max_ram_banks == 0 || !self.ram_enabled {
            0xFF
        } else {
            self.ram@[self.ram_offset + addr - 0xA000]
        }
    }

    /// `new` is `old` after a write of `val` to ROM address `addr`: RAM
    /// enable (0x0000 - 0x1FFF), the low 8 ROM bank bits (0x2000 - 0x2FFF),
    /// ROM bank bit 8 (0x3000 - 0x3FFF), the RAM bank (0x4000 - 0x5FFF);
    /// 0x6000 - 0x7FFF takes nothing.
    pub open spec fn regs_written(new: Mbc5, old: Mbc5, addr: u16, val: u8) -> bool {
        let r = Mbc5 {
            ram_enabled: if addr < 0x2000 {
                val % 16 == 0x0A
            } else {
                old.ram_enabled
            },
            rom_bank_lo: if 0x2000 <= addr < 0x3000 {
                val as usize
            } else {
                old.rom_bank_lo
            },
            rom_bank_hi: if 0x3000 <= addr < 0x4000 {
                (val % 2) as usize
            } else {
                old.rom_bank_hi
            },
            ram_bank: if 0x4000 <= addr < 0x6000 {
                (val % 16) as usize
            } else {
                old.ram_bank
            },
            ..old
        };
        new == (Mbc5 {
            rom_offset: (rom_bank_of(r) * ROM_BANK_SIZE) as usize,
            ram_offset: (ram_bank_of(r) * RAM_BANK_SIZE) as usize,
            ..r
        })
    }

    /// `new` is `old` after a write of `val` to RAM address `addr`: the
    /// selected bank takes it while RAM is present and enabled.
    pub open spec fn ram_written(new: Mbc5, old: Mbc5, addr: u16, val: u8) -> bool {
        if old.max_ram_banks > 0 && old.ram_enabled {
            new == (Mbc5 { ram: new.ram, ..old }) && new.ram@ == old.ram@.update(
                old.ram_offset + addr - 0xA000,
                val,
            )
        } else {
            new == old
        }
    }

    pub fn new() -> (m: Mbc5)
        ensures
            m.rom@.len() == 0 && m.ram@.len() == 0,
            m.rom_offset == 0 && m.ram_offset == 0,
            m.rom_bank_lo == 0 && m.rom_bank_hi == 0 && m.ram_bank == 0,
            m.max_rom_banks == 0 && m.max_ram_banks == 0,
            !m.ram_enabled,
    {
        Mbc5 {
            rom: Vec::new(),
            ram: Vec::new(),
            rom_offset: 0,
            ram_offset: 0,
            rom_bank_lo: 0,
            rom_bank_hi: 0,
            ram_bank: 0,
            max_rom_banks: 0x00,
            max_ram_banks: 0x00,
            ram_enabled: false,
        }
    }

    pub fn read_rom_byte(&self, addr: u16) -> (b: u8)
        requires
            self.wf(),
            addr < 0x8000,
        ensures
            b == self.rom_byte(addr),
    {
        if addr < 0x4000 {
            self.rom[addr as usize]
        } else {
            proof {
                assert(rom_bank_of(*self) < self.max_rom_banks);
                assert(self.rom_offset + ROM_BANK_SIZE <= self.max_rom_banks * ROM_BANK_SIZE)
                    by (nonlinear_arith)
                    requires
                        self.rom_offset == rom_bank_of(*self) * ROM_BANK_SIZE,
                        0 <= rom_bank_of(*self) < self.max_rom_banks,
                ;
            }
            self.rom[self.rom_offset + (addr - 0x4000) as usize]
        }
    }

    /// Writes to the ROM area set the bank registers; the offsets follow.
    pub fn write_rom_byte(&mut self, addr: u16, val: u8)
        requires
            old(self).wf(),
            addr < 0x8000,
        ensures
            final(self).wf(),
            Mbc5::regs_written(*final(self), *old(self), addr, val),
    {
        if addr < 0x2000 {
            self.ram_enabled = (val % 16) == 0x0A;
        } else if addr < 0x3000 {
            self.rom_bank_lo = val as usize;
        } else if addr < 0x4000 {
            self.rom_bank_hi = (val % 2) as usize;
        } else if addr < 0x6000 {
            self.ram_bank = (val % 16) as usize;
        }
        let bank = (self.rom_bank_hi * 256 + self.rom_bank_lo) % self.max_rom_banks;
        proof {
            assert(bank < self.max_rom_banks);
            assert(bank * ROM_BANK_SIZE <= 512 * ROM_BANK_SIZE) by (nonlinear_arith)
                requires
                    bank < 512,
            ;
        }
        self.rom_offset = bank * ROM_BANK_SIZE;
        if self.max_ram_banks > 0 {
            let rb = self.ram_bank % self.max_ram_banks;
            proof {
                assert(rb * RAM_BANK_SIZE <= 16 * RAM_BANK_SIZE) by (nonlinear_arith)
                    requires
                        rb < 16,
                ;
            }
            self.ram_offset = rb * RAM_BANK_SIZE;
        } else {
            self.ram_offset = 0;
        }
    }

    pub fn read_ram_byte(&self, addr: u16) -> (b: u8)
        requires
            self.wf(),
            0xA000 <= addr < 0xC000,
        ensures
            b == self.ram_byte(addr),
    {
        if self.max_ram_banks == 0 {
            return 0xFF;
        }
        if self.ram_enabled {
            proof {
                self.lemma_ram_offset();
            }
            self.ram[self.ram_offset + (addr - 0xA000) as usize]
        } else {
            0xFF
        }
    }

    pub fn write_ram_byte(&mut self, addr: u16, val: u8)
        requires
            old(self).wf(),
            0xA000 <= addr < 0xC000,
        ensures
            final(self).wf(),
            Mbc5::ram_written(*final(self), *old(self), addr, val),
    {
        if self.max_ram_banks == 0 {
            return ;
        }
        if self.ram_enabled {
            proof {
                self.lemma_ram_offset();
            }
            self.ram.set(self.ram_offset + (addr - 0xA000) as usize, val);
        }
    }

    /// The selected RAM bank lies inside the RAM.
    proof fn lemma_ram_offset(&self)
        requires
            self.wf(),
            self.max_ram_banks > 0,
        ensures
            self.ram_offset + RAM_BANK_SIZE <= self.ram@.len(),
    {
        assert(self.ram_offset + RAM_BANK_SIZE <= self.max_ram_banks * RAM_BANK_SIZE)
            by (nonlinear_arith)
            requires
                self.ram_offset == ram_bank_of(*self) * RAM_BANK_SIZE,
                0 <= ram_bank_of(*self) < self.max_ram_banks,
        ;
    }

    /// Installs the cartridge image and the RAM contents (all zeros, or
    /// the contents of the battery save).
    pub fn load_game(&mut self, game_bytes: Vec<u8>, rom_banks: usize, ram: Vec<u8>, ram_banks: usize)
        requires
            1 <= rom_banks <= 512,
            game_bytes@.len() >= rom_banks * ROM_BANK_SIZE,
            ram_banks <= 16,
            ram@.len() == ram_banks * RAM_BANK_SIZE,
            old(self).rom_bank_lo == 0 && old(self).rom_bank_hi == 0 && old(self).ram_bank == 0,
            old(self).rom_offset == 0 && old(self).ram_offset == 0,
        ensures
            final(self).wf(),
            final(self).rom@ == game_bytes@,
            final(self).ram@ == ram@,
            final(self).max_rom_banks == rom_banks,
            final(self).max_ram_banks == ram_banks,
            final(self).ram_enabled == old(self).ram_enabled,
    {
        self.max_rom_banks = rom_banks;
        self.rom = game_bytes;
        self.ram = ram;
        self.max_ram_banks = ram_banks;
        proof {
            let b = rom_banks as int;
            assert(0int % b == 0) by (nonlinear_arith)
                requires
                    b >= 1,
            ;
            if ram_banks > 0 {
                let r = ram_banks as int;
                assert(0int % r == 0) by (nonlinear_arith)
                    requires
                        r >= 1,
                ;
            }
        }
    }
}

/// After a ROM bank is selected, 0x4000 - 0x7FFF reads that bank (wrapped
/// to the banks the image has); 0x0000 - 0x3FFF always reads bank 0.
pub proof fn lemma_rom_bank_select(m: Mbc5, w: Mbc5, addr: u16, val: u8, x: u16)
    requires
        m.wf(),
        w.wf(),
        Mbc5::regs_written(w, m, addr, val),
        x < 0x4000,
    ensures
        w.rom_byte((0x4000 + x) as u16) == m.rom@[rom_bank_of(w) * ROM_BANK_SIZE + x],
        w.rom_byte(x) == m.rom@[x as int],
{
}

} // verus!
