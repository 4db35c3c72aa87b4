//! Cartridge ROM/RAM (through the bank controller), work RAM and its echo,
//! high RAM and the interrupt enable register.
use vstd::prelude::*;
use crate::mbc::Mbc;
use crate::mbc::mbc_none::{MbcNone, ROM_SIZE, RAM_SIZE};

verus! {

pub const WRAM_SIZE: usize = 8_192;
pub const ECHO_SIZE: usize = 7_680;
pub const HRAM_SIZE: usize = 127;

/// The addresses that `Memory` answers for.
pub open spec fn is_mem_addr(addr: u16) -> bool {
    addr < 0x8000 || (0xA000 <= addr < 0xFE00) || addr >= 0xFF80
}

pub struct Memory {
    pub mbc: Mbc,  // MBC will contain ROM and RAM aswell as banks
    pub wram: Vec<u8>,  // 0xC000 - 0xDFFF
    pub echo_wram: Vec<u8>,  // 0xE000 - 0xFDFF (mirror of work ram)
    pub hram: Vec<u8>,  // 0xFF80 - 0xFFFE
    pub i_enable: u8,  // 0xFFFF
}

impl Memory {
    pub open spec fn wf(&self) -> bool {
        &&& self.mbc.wf()
        &&& self.wram@.len() == WRAM_SIZE
        &&& self.echo_wram@.len() == ECHO_SIZE
        &&& self.hram@.len() == HRAM_SIZE
    }

    /// The byte that a read of `addr` gives (echo RAM reads work RAM).
    pub open spec fn byte_at(&self, addr: u16) -> u8 {
        if addr < 0x8000 {
            self.mbc.rom_byte(addr)
        } else if 0xA000 <= addr < 0xC000 {
            self.mbc.ram_byte(addr)
        } else if 0xC000 <= addr < 0xE000 {
            self.wram@[addr - 0xC000]
        } else if 0xE000 <= addr < 0xFE00 {
            self.wram@[addr - 0xE000]
        } else if 0xFF80 <= addr < 0xFFFF {
            self.hram@[addr - 0xFF80]
        } else {
            self.i_enable
        }
    }

    /// `self` is `old` after a write of `data` to the address `addr` of the
    /// work RAM, high RAM or interrupt enable register.
    pub open spec fn ram_written(&self, old: Memory, addr: u16, data: u8) -> bool {
        &&& self.mbc == old.mbc
        &&& self.echo_wram == old.echo_wram
        &&& (0xC000 <= addr < 0xE000 ==> self.wram@ == old.wram@.update(addr - 0xC000, data)
            && self.hram == old.hram && self.i_enable == old.i_enable)
        &&& (0xE000 <= addr < 0xFE00 ==> self.wram@ == old.wram@.update(addr - 0xE000, data)
            && self.hram == old.hram && self.i_enable == old.i_enable)
        &&& (0xFF80 <= addr < 0xFFFF ==> self.hram@ == old.hram@.update(addr - 0xFF80, data)
            && self.wram == old.wram && self.i_enable == old.i_enable)
        &&& (addr == 0xFFFF ==> self.i_enable == data && self.wram == old.wram && self.hram
            == old.hram)
    }

    /// `self` is `old` after a write of `data` to `addr`: RAM and IE take
    /// it as `ram_written` says, a cartridge address goes to the bank
    /// controller (on a cartridge without one it lands in ROM or RAM).
    pub open spec fn written(&self, old: Memory, addr: u16, data: u8) -> bool {
        &&& addr >= 0xC000 ==> self.ram_written(old, addr, data)
        &&& addr < 0x8000 || (0xA000 <= addr < 0xC000) ==> self.wram == old.wram
            && self.hram == old.hram && self.i_enable == old.i_enable
            && self.echo_wram == old.echo_wram
        &&& addr < 0x8000 && old.mbc.is_plain() ==> self.mbc.is_plain()
            && self.mbc.plain_rom() == old.mbc.plain_rom().update(addr as int, data)
            && self.mbc.plain_ram() == old.mbc.plain_ram()
        &&& 0xA000 <= addr < 0xC000 && old.mbc.is_plain() ==> self.mbc.is_plain()
            && self.mbc.plain_ram() == old.mbc.plain_ram().update(addr - 0xA000, data)
            && self.mbc.plain_rom() == old.mbc.plain_rom()
        &&& !old.mbc.is_plain() ==> !self.mbc.is_plain()
        &&& addr < 0x8000 ==> Mbc::rom_written(self.mbc, old.mbc, addr, data)
        &&& 0xA000 <= addr < 0xC000 ==> Mbc::ram_written(self.mbc, old.mbc, addr, data)
    }

    /// Memory as it powers on: a cartridge slot without a controller whose
    /// 32 KiB of ROM and whose RAM are all zeros, and every RAM cleared.
    pub open spec fn is_fresh(&self) -> bool {
        &&& self.wf()
        &&& self.mbc.is_plain()
        &&& self.mbc.plain_rom().len() == ROM_SIZE
        &&& forall|i: int| 0 <= i < ROM_SIZE ==> #[trigger] self.mbc.plain_rom()[i] == 0
        &&& forall|i: int| 0 <= i < RAM_SIZE ==> #[trigger] self.mbc.plain_ram()[i] == 0
        &&& forall|i: int| 0 <= i < WRAM_SIZE ==> #[trigger] self.wram@[i] == 0
        &&& forall|i: int| 0 <= i < ECHO_SIZE ==> #[trigger] self.echo_wram@[i] == 0
        &&& forall|i: int| 0 <= i < HRAM_SIZE ==> #[trigger] self.hram@[i] == 0
        &&& self.i_enable == 0
    }

    pub fn new() -> (m: Memory)
        ensures
            m.wf(),
            m.is_fresh(),
            m.mbc.is_plain(),
            m.i_enable == 0,
            forall|i: int| 0 <= i < WRAM_SIZE ==> m.wram@[i] == 0,
            forall|i: int| 0 <= i < HRAM_SIZE ==> m.hram@[i] == 0,
    {
        Memory {
            mbc: Mbc::NoMbc(MbcNone::new()),  // Swap out mbc once its known
            wram: vec![0; WRAM_SIZE],
            echo_wram: vec![0; ECHO_SIZE],
            hram: vec![0; HRAM_SIZE],
            i_enable: 0,
        }
    }

    pub fn set_mbc(&mut self, cart_mbc: Mbc)
        requires
            old(self).wf(),
            cart_mbc.wf(),
        ensures
            final(self).wf(),
            *final(self) == (Memory { mbc: cart_mbc, ..*old(self) }),
    {
        self.mbc = cart_mbc;
    }

    pub fn read_byte(&self, addr: u16) -> (b: u8)
        requires
            self.wf(),
            is_mem_addr(addr),
        ensures
            b == self.byte_at(addr),
    {
        if addr < 0x8000 {
            self.mbc.read_rom_byte(addr)
        } else if addr >= 0xA000 && addr < 0xC000 {
            self.mbc.read_ram_byte(addr)
        } else if addr >= 0xC000 && addr < 0xE000 {
            self.wram[(addr - 0xC000) as usize]
        } else if addr >= 0xE000 && addr < 0xFE00 {
            // reads from echo will just return wram
            self.wram[(addr - 0xE000) as usize]
        } else if addr >= 0xFF80 && addr < 0xFFFF {
            self.hram[(addr - 0xFF80) as usize]
        } else {
            self.i_enable
        }
    }

    pub fn write_byte(&mut self, addr: u16, data: u8)
        requires
            old(self).wf(),
            is_mem_addr(addr),
        ensures
            final(self).wf(),
            final(self).written(*old(self), addr, data),
    {
        if addr < 0x8000 {
            self.mbc.write_rom_byte(addr, data);
        } else if addr >= 0xA000 && addr < 0xC000 {
            self.mbc.write_ram_byte(addr, data);
        } else if addr >= 0xC000 && addr < 0xE000 {
            self.wram.set((addr - 0xC000) as usize, data);
        } else if addr >= 0xE000 && addr < 0xFE00 {
            // Write to wram instead (Its not really prohibited)
            self.wram.set((addr - 0xE000) as usize, data);
        } else if addr >= 0xFF80 && addr < 0xFFFF {
            self.hram.set((addr - 0xFF80) as usize, data);
        } else {
            self.i_enable = data;
        }
    }

    // I dont think anything stops dma from reading memory ranges above 0xDF9F so...
    pub fn read_byte_for_dma(&self, addr: u16) -> (b: u8)
        requires
            self.wf(),
            is_mem_addr(addr),
        ensures
            b == self.byte_at(addr),
    {
        self.read_byte(addr)
    }

    // Write multiple bytes into memory starting from location
    // This should only be used for tests
    pub fn write_bytes(&mut self, location: u16, data: &Vec<u8>)
        requires
            old(self).wf(),
            location + data@.len() <= 0x10000,
            forall|i: int| 0 <= i < data@.len() ==> is_mem_addr(#[trigger] block_addr(location, i)),
        ensures
            final(self).wf(),
            forall|i: int|
                0 <= i < data@.len() && (block_addr(location, i) >= 0xC000 || old(self).mbc.is_plain())
                    ==> #[trigger] final(self).byte_at(block_addr(location, i)) == data@[i]
                    || overwritten_later(location, data@, i),
    {
        let mut i: usize = 0;
        while i < data.len()
            invariant
                self.wf(),
                0 <= i <= data@.len(),
                location + data@.len() <= 0x10000,
                forall|k: int| 0 <= k < data@.len() ==> is_mem_addr(#[trigger] block_addr(location, k)),
                old(self).mbc.is_plain() ==> self.mbc.is_plain(),
                forall|k: int|
                    0 <= k < i && (block_addr(location, k) >= 0xC000 || old(self).mbc.is_plain())
                        ==> #[trigger] self.byte_at(block_addr(location, k)) == data@[k]
                        || overwritten_later(location, data@, k),
            decreases data@.len() - i,
        {
            let ghost before = *self;
            let addr = location + i as u16;
            assert(addr == block_addr(location, i as int));
            assert(is_mem_addr(block_addr(location, i as int)));
            self.write_byte(addr, data[i]);
            proof {
                assert forall|k: int|
                    0 <= k < i + 1 && (block_addr(location, k) >= 0xC000 || old(self).mbc.is_plain())
                        implies #[trigger] self.byte_at(block_addr(location, k)) == data@[k]
                        || overwritten_later(location, data@, k) by {
                    if k < i {
                        if !overwritten_later(location, data@, k) {
                            assert(same_cell(block_addr(location, k), addr) == false);
                            lemma_other_cell_kept(before, *self, addr, data@[i as int], (
                            location + k) as u16);
                        }
                    } else {
                        lemma_written_cell(before, *self, addr, data@[i as int]);
                    }
                }
            }
            i = i + 1;
        }
    }

    /// Register values left behind by the DMG boot ROM.
    pub fn dmg_init(&mut self)
        requires
            old(self).wf(),
        ensures
            final(self).wf(),
            *final(self) == (Memory { i_enable: 0, ..*old(self) }),
    {
        self.i_enable = 0x00;
    }

    /// Lets time pass for the cartridge: only the running clock of an MBC3
    /// moves, and every address reads as before.
    pub fn adv_cycles(&mut self, cycles: usize)
        requires
            old(self).wf(),
        ensures
            final(self).wf(),
            *final(self) == (Memory { mbc: old(self).mbc.after_cycles(cycles), ..*old(self) }),
            Mbc::clock_moved(final(self).mbc, old(self).mbc),
            forall|a: u16| #[trigger] final(self).byte_at(a) == old(self).byte_at(a),
    {
        self.mbc.adv_cycles(cycles);
    }
}

/// The address of byte `i` of a block written from `location`.
pub open spec fn block_addr(location: u16, i: int) -> u16 {
    (location + i) as u16
}

/// Two addresses that read and write the same memory cell (work RAM and its
/// echo share their cells).
pub open spec fn same_cell(a: u16, b: u16) -> bool {
    a == b || (0xC000 <= a < 0xFE00 && 0xC000 <= b < 0xFE00 && (a - 0xC000) % 0x2000 == (b
        - 0xC000) % 0x2000)
}

/// Byte `i` of a block written from `location` is written again by a later
/// byte of the block (through the echo of work RAM).
pub open spec fn overwritten_later(location: u16, data: Seq<u8>, i: int) -> bool {
    exists|j: int| #![trigger data[j]] i < j < data.len() && same_cell(block_addr(location, i), block_addr(location, j))
}

/// A read of the address just written gives the written byte.
pub proof fn lemma_written_cell(before: Memory, after: Memory, addr: u16, data: u8)
    requires
        before.wf(),
        after.wf(),
        is_mem_addr(addr),
        addr >= 0xC000 ==> after.ram_written(before, addr, data),
        addr < 0x8000 && before.mbc.is_plain() ==> after.mbc.is_plain() && after.mbc.plain_rom()
            == before.mbc.plain_rom().update(addr as int, data),
        0xA000 <= addr < 0xC000 && before.mbc.is_plain() ==> after.mbc.is_plain()
            && after.mbc.plain_ram() == before.mbc.plain_ram().update(addr - 0xA000, data),
    ensures
        (addr >= 0xC000 || before.mbc.is_plain()) ==> after.byte_at(addr) == data,
{
}

/// A write leaves every other cell as it was.
pub proof fn lemma_other_cell_kept(before: Memory, after: Memory, addr: u16, data: u8, other: u16)
    requires
        before.wf(),
        after.wf(),
        is_mem_addr(addr),
        is_mem_addr(other),
        !same_cell(addr, other),
        addr >= 0xC000 ==> after.ram_written(before, addr, data),
        addr < 0x8000 || (0xA000 <= addr < 0xC000) ==> after.wram == before.wram && after.hram
            == before.hram && after.i_enable == before.i_enable,
        addr < 0x8000 && before.mbc.is_plain() ==> after.mbc.is_plain() && after.mbc.plain_rom()
            == before.mbc.plain_rom().update(addr as int, data) && after.mbc.plain_ram()
            == before.mbc.plain_ram(),
        0xA000 <= addr < 0xC000 && before.mbc.is_plain() ==> after.mbc.is_plain()
            && after.mbc.plain_ram() == before.mbc.plain_ram().update(addr - 0xA000, data)
            && after.mbc.plain_rom() == before.mbc.plain_rom(),
        other >= 0xC000 || before.mbc.is_plain(),
    ensures
        after.byte_at(other) == before.byte_at(other),
{
}

} // verus!
