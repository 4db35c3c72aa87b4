//! MBC1: up to 2 MiB of ROM in 16 KiB banks and up to 32 KiB of RAM in
//! 8 KiB banks, with the two-bit secondary bank register used either for
//! the upper ROM bank bits or for the RAM bank (banking mode).
use vstd::prelude::*;

verus! {

pub const ROM_BANK_SIZE: usize = 16_384;
pub const RAM_BANK_SIZE: usize = 8_192;

pub struct Mbc1 {
    pub rom: Vec<u8>,  // bank 0 0x0000 - 0x3FFF and bank N 0x4000 - 0x7FFF
    pub ram: Vec<u8>,  // 0xA000 - 0xBFFF
    pub rom_offset: usize,
    pub ram_offset: usize,
    pub rom_bank: usize,  // values of 0 and 1 both select bank 1 to be placed into 0x4000-0x7FFF
    pub ram_bank: usize,
    pub ext_bank: usize,
    pub max_rom_banks: usize,
    pub max_ram_banks: usize,
    pub mode: u8,
    pub ram_enabled: bool,
}

/// `x & y` never exceeds `y`.
pub proof fn lemma_and_le(x: usize, y: usize)
    ensures
        x & y <= y,
{
    assert(x & y <= y) by (bit_vector);
}

/// The bank mapped at 0x0000 - 0x3FFF in banking mode 1.
pub open spec fn zero_bank(m: Mbc1) -> int {
    ((m.ext_bank << 5usize) & ((m.max_rom_banks - 1) as usize)) as int
}

impl Mbc1 {
    /// A loaded cartridge: every bank that the registers can select lies
    /// inside the ROM and RAM images.
    pub open spec fn wf(&self) -> bool {
        &&& 2 <= self.max_rom_banks <= 512
        &&& self.rom@.len() >= self.max_rom_banks * ROM_BANK_SIZE
        &&& self.rom_bank < self.max_rom_banks
        &&& self.rom_offset == self.rom_bank * ROM_BANK_SIZE
        &&& self.ext_bank < 4
        &&& self.max_ram_banks <= 16
        &&& self.ram@.len() == self.max_ram_banks * RAM_BANK_SIZE
        &&& (self.max_ram_banks > 0 ==> self.ram_offset + RAM_BANK_SIZE <= self.ram@.len())
    }

    /// The byte that a read of ROM address `addr` gives.
    pub open spec fn rom_byte(&self, addr: u16) -> u8 {
        if addr < 0x4000 {
            if self.mode == 0 {
                self.rom@[addr as int]
            } else {
                self.rom@[zero_bank(*self) * ROM_BANK_SIZE + addr]
            }
        } else {
            self.rom@[self.rom_offset + addr - 0x4000]
        }
    }

    /// The byte that a read of RAM address `addr` gives.
    pub open spec fn ram_byte(&self, addr: u16) -> u8 {
        if self.max_ram_banks == 0 || !self.ram_enabled {
            0xFF
        } else {
            self.ram@[self.ram_offset + addr - 0xA000]
        }
    }

    pub fn new() -> (m: Mbc1)
        ensures
            m.rom@.len() == 0 && m.ram@.len() == 0,
            m.rom_offset == 0x4000 && m.ram_offset == 0,
            m.rom_bank == 1 && m.ram_bank == 0 && m.ext_bank == 0,
            m.max_rom_banks == 0 && m.max_ram_banks == 0,
            m.mode == 0 && !m.ram_enabled,
    {
        Mbc1 {
            rom: Vec::new(),
            ram: Vec::new(),
            rom_offset: 0x4000,
            ram_offset: 0,
            rom_bank: 1,
            ram_bank: 0,
            ext_bank: 0,
            max_rom_banks: 0x00,
            max_ram_banks: 0x00,
            mode: 0,
            ram_enabled: false,
        }
    }

    fn find_rom_offset(&mut self)
        requires
            2 <= old(self).max_rom_banks <= 512,
            old(self).rom_bank < old(self).max_rom_banks,
            old(self).ext_bank < 4,
        ensures
            final(self).rom_bank == (if old(self).max_rom_banks <= 32 {
                old(self).rom_bank
            } else {
                ((old(self).ext_bank << 5usize) | old(self).rom_bank) & ((old(self).max_rom_banks
                    - 1) as usize)
            }),
            final(self).rom_bank < final(self).max_rom_banks,
            final(self).rom_offset == final(self).rom_bank * ROM_BANK_SIZE,
            *final(self) == (Mbc1 {
                rom_bank: final(self).rom_bank,
                rom_offset: final(self).rom_offset,
                ..*old(self)
            }),
    {
        if self.max_rom_banks > 32 {
            let b = (self.ext_bank << 5) | self.rom_bank;
            proof {
                lemma_and_le(b, (self.max_rom_banks - 1) as usize);
            }
            self.rom_bank = b & (self.max_rom_banks - 1);
        }
        self.rom_offset = self.rom_bank * ROM_BANK_SIZE;
    }

    /// Selects the RAM bank: the secondary bank register in banking mode 1,
    /// bank 0 otherwise. Without RAM there is nothing to select.
    fn find_ram_offset(&mut self)
        requires
            old(self).ext_bank < 4,
            old(self).max_ram_banks <= 16,
        ensures
            final(self).ram_bank == (if old(self).mode == 1 { old(self).ext_bank } else { 0 }),
            old(self).max_ram_banks > 0 ==> final(self).ram_offset == (final(self).ram_bank
                % old(self).max_ram_banks) * RAM_BANK_SIZE,
            old(self).max_ram_banks == 0 ==> final(self).ram_offset == old(self).ram_offset,
            *final(self) == (Mbc1 {
                ram_bank: final(self).ram_bank,
                ram_offset: final(self).ram_offset,
                ..*old(self)
            }),
    {
        self.ram_bank = if self.mode == 0x01 { self.ext_bank } else { 0 };
        if self.max_ram_banks > 0 {
            self.ram_offset = (self.ram_bank % self.max_ram_banks) * RAM_BANK_SIZE;
        }
    }

    pub fn read_rom_byte(&self, addr: u16) -> (b: u8)
        requires
            self.wf(),
            addr < 0x8000,
        ensures
            b == self.rom_byte(addr),
    {
        if addr < 0x4000 {
            if self.mode == 0x00 {
                self.rom[addr as usize]
            } else {
                let bank = (self.ext_bank << 5) & (self.max_rom_banks - 1);
                proof {
                    lemma_and_le(self.ext_bank << 5usize, (self.max_rom_banks - 1) as usize);
                }
                self.rom[bank * ROM_BANK_SIZE + addr as usize]
            }
        } else {
            self.rom[self.rom_offset + (addr - 0x4000) as usize]
        }
    }

    /// `new` is `old` after a write of `val` to ROM address `addr`, which
    /// sets the controller's registers: RAM enable (0x0000 - 0x1FFF), the
    /// lower 5 ROM bank bits (0x2000 - 0x3FFF, 0 selects 1), the secondary
    /// bank bits (0x4000 - 0x5FFF), the banking mode (0x6000 - 0x7FFF).
    pub open spec fn regs_written(new: Mbc1, old: Mbc1, addr: u16, val: u8) -> bool {
        let low = if 0x2000 <= addr < 0x4000 {
            if val % 32 == 0 {
                1usize
            } else {
                ((val % 32) as usize) & ((old.max_rom_banks - 1) as usize)
            }
        } else {
            old.rom_bank
        };
        &&& new.rom@ == old.rom@ && new.ram@ == old.ram@
        &&& new.max_rom_banks == old.max_rom_banks
        &&& new.max_ram_banks == old.max_ram_banks
        &&& new.ram_enabled == (if addr < 0x2000 {
            val % 16 == 0x0A
        } else {
            old.ram_enabled
        })
        &&& new.ext_bank == (if 0x4000 <= addr < 0x6000 {
            (val % 4) as usize
        } else {
            old.ext_bank
        })
        &&& new.mode == (if addr >= 0x6000 {
            val % 2
        } else {
            old.mode
        })
        &&& new.rom_bank == (if old.max_rom_banks <= 32 {
            low
        } else {
            ((new.ext_bank << 5usize) | low) & ((old.max_rom_banks - 1) as usize)
        })
        &&& new.ram_bank == (if new.mode == 1 {
            new.ext_bank
        } else {
            0
        })
        &&& old.max_ram_banks > 0 ==> new.ram_offset == (new.ram_bank % old.max_ram_banks)
            * RAM_BANK_SIZE
    }

    /// `new` is `old` after a write of `val` to RAM address `addr`: the
    /// selected bank takes it while RAM is present and enabled.
    pub open spec fn ram_written(new: Mbc1, old: Mbc1, addr: u16, val: u8) -> bool {
        if old.max_ram_banks > 0 && old.ram_enabled {
            new == (Mbc1 { ram: new.ram, ..old }) && new.ram@ == old.ram@.update(
                old.ram_offset + addr - 0xA000,
                val,
            )
        } else {
            new == old
        }
    }

    /// Writes to the ROM area set the controller's registers: RAM enable,
    /// the lower 5 ROM bank bits, the secondary bank bits, the banking mode.
    pub fn write_rom_byte(&mut self, addr: u16, val: u8)
        requires
            old(self).wf(),
            addr < 0x8000,
        ensures
            final(self).wf(),
            Mbc1::regs_written(*final(self), *old(self), addr, val),
    {
        if addr < 0x2000 {
            self.ram_enabled = (val % 16) == 0x0A;
        } else if addr < 0x4000 {
            // If just trying to map bank 0 to 0x4000-0x7FFF, wont be possible
            // but if the rom uses less than 5 bits for max banks, then it is possible
            let low = (val % 32) as usize;
            if low == 0x00 {
                self.rom_bank = 0x01;
            } else {
                proof {
                    lemma_and_le(low, (self.max_rom_banks - 1) as usize);
                }
                self.rom_bank = low & (self.max_rom_banks - 1);
            }
        } else if addr < 0x6000 {
            self.ext_bank = (val % 4) as usize;
        } else {
            self.mode = val % 2;
        }

        self.find_rom_offset();
        self.find_ram_offset();
        proof {
            if self.max_ram_banks > 0 {
                assert(self.ram_offset + RAM_BANK_SIZE <= self.ram@.len()) by (nonlinear_arith)
                    requires
                        self.ram_offset == (self.ram_bank % self.max_ram_banks) * RAM_BANK_SIZE,
                        self.ram@.len() == self.max_ram_banks * RAM_BANK_SIZE,
                        self.max_ram_banks > 0,
                ;
            }
        }
    }

    pub fn read_ram_byte(&self, addr: u16) -> (b: u8)
        requires
            self.wf(),
            0xA000 <= addr < 0xC000,
        ensures
            b == self.ram_byte(addr),
    {
        if self.max_ram_banks == 0 {
            return 0xFF;
        }
        if self.ram_enabled {
            self.ram[self.ram_offset + (addr - 0xA000) as usize]
        } else {
            0xFF
        }
    }

    pub fn write_ram_byte(&mut self, addr: u16, val: u8)
        requires
            old(self).wf(),
            0xA000 <= addr < 0xC000,
        ensures
            final(self).wf(),
            Mbc1::ram_written(*final(self), *old(self), addr, val),
    {
        if self.max_ram_banks == 0 {
            return ;
        }
        if self.ram_enabled {
            self.ram.set(self.ram_offset + (addr - 0xA000) as usize, val);
        }
    }

    /// Installs the cartridge image and the RAM contents (all zeros, or
    /// the contents of the battery save).
    pub fn load_game(&mut self, game_bytes: Vec<u8>, rom_banks: usize, ram: Vec<u8>, ram_banks: usize)
        requires
            2 <= rom_banks <= 512,
            game_bytes@.len() >= rom_banks * ROM_BANK_SIZE,
            ram_banks <= 16,
            ram@.len() == ram_banks * RAM_BANK_SIZE,
            old(self).rom_bank < rom_banks,
            old(self).rom_offset == old(self).rom_bank * ROM_BANK_SIZE,
            old(self).ext_bank < 4,
            old(self).ram_offset == 0,
        ensures
            final(self).wf(),
            final(self).rom@ == game_bytes@,
            final(self).ram@ == ram@,
            final(self).max_rom_banks == rom_banks,
            final(self).max_ram_banks == ram_banks,
    {
        self.max_rom_banks = rom_banks;
        self.rom = game_bytes;
        self.ram = ram;
        self.max_ram_banks = ram_banks;
    }
}

/// The ROM bank that a write of `val` to 0x2000 - 0x3FFF selects: its low
/// five bits (0 taken as 1), joined with the secondary bank bits on
/// cartridges of more than 32 banks, masked to the banks there are.
pub open spec fn selected_bank(m: Mbc1, val: u8) -> int {
    let low = if val % 32 == 0 {
        1usize
    } else {
        ((val % 32) as usize) & ((m.max_rom_banks - 1) as usize)
    };
    (if m.max_rom_banks <= 32 {
        low
    } else {
        ((m.ext_bank << 5usize) | low) & ((m.max_rom_banks - 1) as usize)
    }) as int
}

/// After a ROM bank is selected, 0x4000 - 0x7FFF reads that bank of the
/// image.
pub proof fn lemma_rom_bank_select(m: Mbc1, w: Mbc1, addr: u16, val: u8, x: u16)
    requires
        m.wf(),
        w.wf(),
        0x2000 <= addr < 0x4000,
        Mbc1::regs_written(w, m, addr, val),
        x < 0x4000,
    ensures
        w.rom_byte((0x4000 + x) as u16) == m.rom@[selected_bank(m, val) * ROM_BANK_SIZE + x],
{
}

/// With RAM present and enabled, a byte written to the RAM area reads
/// back from the same address.
pub proof fn lemma_ram_write_read(m: Mbc1, w: Mbc1, addr: u16, val: u8)
    requires
        m.wf(),
        0xA000 <= addr < 0xC000,
        m.max_ram_banks > 0,
        m.ram_enabled,
        Mbc1::ram_written(w, m, addr, val),
    ensures
        w.ram_byte(addr) == val,
{
}

} // verus!
