//! A cartridge without a memory bank controller: 32 KiB of ROM mapped at
//! 0x0000 - 0x7FFF and 8 KiB of RAM at 0xA000 - 0xBFFF, both of which take
//! writes.
use vstd::prelude::*;

verus! {

pub const ROM_SIZE: usize = 0x8000;
pub const RAM_SIZE: usize = 0x2000;

pub struct MbcNone {
    pub rom: Vec<u8>,
    pub ram: Vec<u8>,
}

impl MbcNone {
    pub open spec fn wf(&self) -> bool {
        self.rom@.len() >= ROM_SIZE && self.ram@.len() == RAM_SIZE
    }

    pub fn new() -> (m: MbcNone)
        ensures
            m.wf(),
            m.rom@.len() == ROM_SIZE,
            forall|i: int| 0 <= i < ROM_SIZE ==> m.rom@[i] == 0,
            forall|i: int| 0 <= i < RAM_SIZE ==> m.ram@[i] == 0,
    {
        MbcNone { rom: vec![0; ROM_SIZE], ram: vec![0; RAM_SIZE] }
    }

    pub fn read_rom_byte(&self, addr: u16) -> (b: u8)
        requires
            self.wf(),
            addr < 0x8000,
        ensures
            b == self.rom@[addr as int],
    {
        self.rom[addr as usize]
    }

    pub fn write_rom_byte(&mut self, addr: u16, val: u8)
        requires
            old(self).wf(),
            addr < 0x8000,
        ensures
            final(self).wf(),
            final(self).rom@ == old(self).rom@.update(addr as int, val),
            final(self).ram@ == old(self).ram@,
    {
        self.rom[addr as usize] = val;
    }

    pub fn read_ram_byte(&self, addr: u16) -> (b: u8)
        requires
            self.wf(),
            0xA000 <= addr < 0xC000,
        ensures
            b == self.ram@[addr - 0xA000],
    {
        self.ram[(addr - 0xA000) as usize]
    }

    pub fn write_ram_byte(&mut self, addr: u16, val: u8)
        requires
            old(self).wf(),
            0xA000 <= addr < 0xC000,
        ensures
            final(self).wf(),
            final(self).ram@ == old(self).ram@.update(addr - 0xA000, val),
            final(self).rom@ == old(self).rom@,
    {
        self.ram[(addr - 0xA000) as usize] = val;
    }

    /// Takes the cartridge image as the ROM.
    pub fn load_game(&mut self, game_bytes: Vec<u8>)
        requires
            old(self).wf(),
            game_bytes@.len() >= ROM_SIZE,
        ensures
            final(self).wf(),
            final(self).rom@ == game_bytes@,
            final(self).ram@ == old(self).ram@,
    {
        self.rom = game_bytes;
    }
}

} // verus!
