//! The memory bus: routes each CPU access to the device that owns the
//! address, steps the devices, and runs OAM DMA.
use vstd::prelude::*;
use crate::graphics::Graphics;
use crate::graphics::dma::{OamDma, DMA_REG, conflict_read};
use crate::graphics::gpu_memory::{
    OAM_END, OAM_START, PPUIO_END, PPUIO_START, UNUSED_END, UNUSED_START, VRAM_END, VRAM_START,
};
use crate::graphics::vblank::{MAX_VBLANK_CYCLES, VBlank};
use crate::io::{Io, IF_REG, IO_START, if_index, lemma_if_same, lemma_if_step, lemma_if_trans};
use crate::joypad::{Joypad, InputEvent, JOYP_REG};
use crate::mbc::Mbc;
use crate::memory::{Memory, WRAM_SIZE, HRAM_SIZE};
use crate::serial::{Serial, SB_REG, SC_REG};
use crate::sound::{Sound, NR10, NR14, NR21, NR34, NR41, NR52};
use crate::timer::{Timer, TimaOverflowState, TIMER_START, TIMER_END, timer_reg, timer_written, advanced};

verus! {

/// The bus that an OAM DMA transfer occupies.
#[derive(PartialEq, Eq, Structural)]
pub enum BusType {
    Video,  //0x8000-0x9FFF
    External,  //0x0000-0x7FFF, 0xA000-0xFDFF
    Free,
}

impl BusType {
    pub fn is_some(&self) -> (b: bool)
        ensures
            b == (*self != BusType::Free),
    {
        match self {
            BusType::Free => false,
            _ => true,
        }
    }
}

/// The device that answers for an address.
pub enum Device {
    Video,
    Dma,
    LcdRegs,
    Joypad,
    Serial,
    Timer,
    Sound,
    IoRegs,
    Memory,
}

/// The device that owns `addr` (the DMA register lies among the LCD
/// registers but belongs to the DMA unit; wave RAM and the PCM registers
/// are answered by the plain register page).
pub open spec fn device_of(addr: u16) -> Device {
    if VRAM_START <= addr <= VRAM_END || OAM_START <= addr <= UNUSED_END {
        Device::Video
    } else if addr == DMA_REG {
        Device::Dma
    } else if PPUIO_START <= addr <= PPUIO_END {
        Device::LcdRegs
    } else if addr == JOYP_REG {
        Device::Joypad
    } else if addr == SB_REG || addr == SC_REG {
        Device::Serial
    } else if TIMER_START <= addr <= TIMER_END {
        Device::Timer
    } else if (NR10 <= addr <= NR14) || (NR21 <= addr <= NR34) || (NR41 <= addr <= NR52) {
        Device::Sound
    } else if IO_START <= addr < 0xFF80 {
        Device::IoRegs
    } else {
        Device::Memory
    }
}

pub struct Bus {
    pub mem: Memory,
    pub graphics: Graphics,  // 0x8000 - 0x9FFF, 0xFE00 - 0xFE9F, and 0xFF40 - 0xFF4B
    pub io: Io,  // 0xFF01 - 0xFF7F (But not 0xFF40 - 0xFF4B)
    pub timer: Timer,
    pub joypad: Joypad,  // 0xFF00
    pub serial: Serial,
    pub sound: Sound,
    pub oam_dma: OamDma,
}

impl Bus {
    /// Every device is well formed, and a pending or running DMA transfer
    /// reads from below 0xFE00.
    pub open spec fn wf(&self) -> bool {
        &&& self.mem.wf()
        &&& self.graphics.wf()
        &&& self.io.wf()
        &&& self.serial.wf()
        &&& self.sound.wf()
        &&& self.oam_dma.wf()
        &&& (self.oam_dma.in_transfer || self.oam_dma.delay_cycles > 0) ==> self.oam_dma.dma
            <= 0xFD
    }

    /// No DMA transfer runs or waits to start: the CPU reaches every device.
    pub open spec fn quiet(&self) -> bool {
        &&& !self.oam_dma.in_transfer
        &&& self.oam_dma.delay_cycles == 0
        &&& self.oam_dma.bus_conflict == BusType::Free
    }

    /// The value the device that owns `addr` gives for it.
    pub open spec fn routed_byte(&self, addr: u16) -> u8 {
        match device_of(addr) {
            Device::Video => self.graphics.byte_at(addr),
            Device::Dma => self.oam_dma.dma,
            Device::LcdRegs => self.graphics.gpu_data.ppu_reg(addr),
            Device::Joypad => self.joypad.joyp,
            Device::Serial => if addr == SB_REG {
                self.serial.sb
            } else {
                self.serial.sc
            },
            Device::Timer => timer_reg(self.timer, addr),
            Device::Sound => self.sound.reg(addr),
            Device::IoRegs => self.io.io@[addr - IO_START],
            Device::Memory => self.mem.byte_at(addr),
        }
    }

    /// What the CPU reads at `addr`: the byte in flight on a bus that DMA
    /// blocks, else what the owning device gives.
    pub open spec fn byte_at(&self, addr: u16) -> u8 {
        match conflict_read(self.oam_dma, addr) {
            Some(v) => v,
            None => self.routed_byte(addr),
        }
    }

    /// `new` is `old` after the CPU writes `data` to `addr`: ignored on a
    /// bus that DMA blocks, else handed to the owning device only.
    pub open spec fn written(new: Bus, old: Bus, addr: u16, data: u8) -> bool {
        if conflict_read(old.oam_dma, addr).is_some() {
            new == old
        } else {
            match device_of(addr) {
                Device::Video => new == Bus { graphics: new.graphics, ..old } && Graphics::cpu_written(
                    new.graphics,
                    old.graphics,
                    addr,
                    data,
                ),
                Device::Dma => new == Bus {
                    oam_dma: OamDma {
                        dma: if data >= 0xFE { data & 0xDF } else { data },
                        delay_cycles: 2,
                        ..old.oam_dma
                    },
                    ..old
                },
                Device::LcdRegs => new == Bus { graphics: old.graphics.after_io_write(addr, data), ..old },
                Device::Joypad => new == Bus { joypad: old.joypad.after_write(data), ..old },
                Device::Serial => new == Bus { serial: old.serial.after_write(addr, data), ..old },
                Device::Timer => new == Bus { timer: timer_written(old.timer, addr, data), ..old },
                Device::Sound => new == Bus { sound: new.sound, ..old } && Sound::written(
                    new.sound,
                    old.sound,
                    addr,
                    data,
                ),
                Device::IoRegs => new == Bus { io: new.io, ..old } && new.io.written(old.io, addr, data),
                Device::Memory => new == Bus { mem: new.mem, ..old } && new.mem.written(old.mem, addr, data),
            }
        }
    }

    /// A CPU write reaches IF only at 0xFF0F, where IF takes the byte with
    /// its top three bits set.
    pub proof fn lemma_written_if(new: Bus, old: Bus, addr: u16, data: u8)
        requires
            old.wf(),
            Bus::written(new, old, addr, data),
        ensures
            addr == IF_REG ==> new.io.ifired() == data | 0xE0,
            addr != IF_REG ==> new.io.ifired() == old.io.ifired(),
    {
        if addr == IF_REG {
            assert(device_of(addr) == Device::IoRegs);
            assert(conflict_read(old.oam_dma, addr).is_none());
            assert(new.io.io@ == old.io.io@.update(if_index(), data | 0xE0));
        } else if device_of(addr) == Device::IoRegs && conflict_read(old.oam_dma, addr).is_none() {
            if addr == 0xFF72 || addr == 0xFF73 || addr == 0xFF75 {
                assert(addr - IO_START != if_index());
            }
        }
    }

    /// The DMA unit and OAM after one DMA step that copied `value` into OAM.
    pub open spec fn dma_stepped(new: Bus, old: Bus, value: u8) -> bool {
        let d = OamDma { value, ..old.oam_dma };
        &&& new.graphics.gpu_data.oam@ == old.graphics.gpu_data.oam@.update(
            old.oam_dma.cycles as int,
            value,
        )
        &&& if old.oam_dma.cycles < 159 {
            new.oam_dma == OamDma { cycles: (old.oam_dma.cycles + 1) as u16, ..d }
                && new.graphics == Graphics {
                gpu_data: crate::graphics::gpu_memory::GpuMemory {
                    oam: new.graphics.gpu_data.oam,
                    ..old.graphics.gpu_data
                },
                ..old.graphics
            }
        } else {
            new.oam_dma == OamDma {
                in_transfer: false,
                cycles: 0,
                bus_conflict: BusType::Free,
                ..d
            } && new.graphics == Graphics {
                gpu_data: crate::graphics::gpu_memory::GpuMemory {
                    oam: new.graphics.gpu_data.oam,
                    dma_transfer: false,
                    ..old.graphics.gpu_data
                },
                ..old.graphics
            }
        }
    }

    /// The bus as it powers on: a cartridge slot without a controller,
    /// every memory and device in its start state, no DMA running.
    pub open spec fn is_power_on(&self) -> bool {
        &&& self.wf()
        &&& self.mem.mbc.is_plain()
        &&& self.mem.i_enable == 0
        &&& forall|i: int| 0 <= i < WRAM_SIZE ==> self.mem.wram@[i] == 0
        &&& forall|i: int| 0 <= i < HRAM_SIZE ==> self.mem.hram@[i] == 0
        &&& self.graphics.state == VBlank::init_state() && self.graphics.gpu_data.is_fresh()
        &&& forall|i: int| 0 <= i < 128 ==> self.io.io@[i] == 0xFF
        &&& self.timer == (Timer {
            div: 0,
            tima: 0,
            tma: 0,
            tac: 0,
            overflow_source: TimaOverflowState::Inactive,
        })
        &&& self.joypad == (Joypad {
            joyp: 0xCF,
            directs: 0x0F,
            actions: 0x0F,
            high_to_low: false,
            something_selected: false,
        })
        &&& self.serial == (Serial { sb: 0, sc: 0, transferring: false, transfer_cycles: 0 })
        &&& self.mem.is_fresh()
        &&& !self.graphics.frame_ready && self.graphics.cycles == 0
        &&& self.sound.is_initial()
        &&& self.oam_dma == (OamDma {
            dma: 0,
            value: 0,
            cycles: 0,
            delay_cycles: 0,
            in_transfer: false,
            bus_conflict: BusType::Free,
        })
        &&& self.quiet()
    }

    pub fn new() -> (b: Bus)
        ensures
            b.wf(),
            b.is_power_on(),
            b.quiet(),
    {
        Bus {
            mem: Memory::new(),
            graphics: Graphics::new(),
            io: Io::new(),
            timer: Timer::new(),
            joypad: Joypad::new(),
            serial: Serial::new(),
            sound: Sound::new(),
            oam_dma: OamDma::new(),
        }
    }

    pub fn set_mbc(&mut self, cart_mbc: Mbc)
        requires
            old(self).wf(),
            cart_mbc.wf(),
        ensures
            final(self).wf(),
            *final(self) == (Bus { mem: Memory { mbc: cart_mbc, ..old(self).mem }, ..*old(self) }),
    {
        self.mem.set_mbc(cart_mbc);
    }

    pub fn read_byte(&self, addr: u16) -> (b: u8)
        requires
            self.wf(),
        ensures
            b == self.byte_at(addr),
    {
        match self.oam_dma.check_bus_conflicts(addr) {
            Some(x) => return x,
            None => {},
        }
        if (addr >= VRAM_START && addr <= VRAM_END) || (addr >= OAM_START && addr <= UNUSED_END) {
            self.graphics.read_byte(addr)
        } else if addr == DMA_REG {
            self.oam_dma.read_dma(addr)
        } else if addr >= PPUIO_START && addr <= PPUIO_END {
            self.graphics.read_io_byte(addr)
        } else if addr == JOYP_REG {
            self.joypad.read_byte(addr)
        } else if addr == SB_REG || addr == SC_REG {
            self.serial.read_byte(addr)
        } else if addr >= TIMER_START && addr <= TIMER_END {
            self.timer.read_byte(addr)
        } else if (addr >= NR10 && addr <= NR14) || (addr >= NR21 && addr <= NR34) || (addr >= NR41
            && addr <= NR52) {
            self.sound.read_byte(addr)
        } else if addr >= IO_START && addr < 0xFF80 {
            self.io.read_byte(addr)
        } else {
            self.mem.read_byte(addr)
        }
    }

    pub fn write_byte(&mut self, addr: u16, data: u8)
        requires
            old(self).wf(),
        ensures
            final(self).wf(),
            Bus::written(*final(self), *old(self), addr, data),
    {
        match self.oam_dma.check_bus_conflicts(addr) {
            Some(_) => return,
            None => {},
        }
        if (addr >= VRAM_START && addr <= VRAM_END) || (addr >= OAM_START && addr <= UNUSED_END) {
            self.graphics.write_byte(addr, data);
        } else if addr == DMA_REG {
            self.oam_dma.write_dma(addr, data);
            assert(data >= 0xFE ==> data & 0xDF <= 0xFD) by (bit_vector);
        } else if addr >= PPUIO_START && addr <= PPUIO_END {
            self.graphics.write_io_byte(addr, data);
        } else if addr == JOYP_REG {
            self.joypad.write_byte(addr, data);
        } else if addr == SB_REG || addr == SC_REG {
            self.serial.write_byte(addr, data);
        } else if addr >= TIMER_START && addr <= TIMER_END {
            self.timer.write_byte(addr, data);
        } else if (addr >= NR10 && addr <= NR14) || (addr >= NR21 && addr <= NR34) || (addr >= NR41
            && addr <= NR52) {
            self.sound.write_byte(addr, data);
        } else if addr >= IO_START && addr < 0xFF80 {
            self.io.write_byte(addr, data);
        } else {
            self.mem.write_byte(addr, data);
        }
    }

    // dma should have access to whatever it wants from 0x0000 - 0xDF00
    // Define extra read_byte functions that bypass any protections
    /// A read by the DMA unit: like a CPU read, but with no bus conflict and
    /// with VRAM and OAM open in every mode.
    pub fn read_byte_for_dma(&self, addr: u16) -> (b: u8)
        requires
            self.wf(),
            !(PPUIO_START <= addr <= PPUIO_END) || addr == DMA_REG,
        ensures
            VRAM_START <= addr <= VRAM_END ==> b == self.graphics.gpu_data.vram@[addr - VRAM_START],
            addr < VRAM_START || (0xA000 <= addr < 0xFE00) ==> b == self.mem.byte_at(addr),
            !(VRAM_START <= addr <= UNUSED_END) ==> b == self.routed_byte(addr),
    {
        if (addr >= VRAM_START && addr <= VRAM_END) || (addr >= OAM_START && addr <= UNUSED_END) {
            self.graphics.read_byte_for_dma(addr)
        } else if addr == DMA_REG {
            self.oam_dma.read_dma(addr)
        } else if addr == JOYP_REG {
            self.joypad.read_byte(addr)
        } else if addr == SB_REG || addr == SC_REG {
            self.serial.read_byte(addr)
        } else if addr >= TIMER_START && addr <= TIMER_END {
            self.timer.read_byte(addr)
        } else if (addr >= NR10 && addr <= NR14) || (addr >= NR21 && addr <= NR34) || (addr >= NR41
            && addr <= NR52) {
            self.sound.read_byte(addr)
        } else if addr >= IO_START && addr < 0xFF80 {
            self.io.read_byte(addr)
        } else {
            self.mem.read_byte_for_dma(addr)
        }
    }

    // dma should be allowed to write to oam regardless of ppu state
    // use this function to bypass any protections
    fn write_byte_for_dma(&mut self, addr: u16, data: u8)
        requires
            old(self).wf(),
            addr < 160,
        ensures
            final(self).wf(),
            *final(self) == (Bus { graphics: final(self).graphics, ..*old(self) }),
            final(self).graphics == (Graphics {
                gpu_data: crate::graphics::gpu_memory::GpuMemory {
                    oam: final(self).graphics.gpu_data.oam,
                    ..old(self).graphics.gpu_data
                },
                ..old(self).graphics
            }),
            final(self).graphics.gpu_data.oam@ == old(self).graphics.gpu_data.oam@.update(
                addr as int,
                data,
            ),
    {
        self.graphics.write_byte_for_dma(addr, data);
    }

    /// Register values left behind by the DMG boot ROM. No DMA may be
    /// pending: the boot value of the DMA register points at no readable
    /// source.
    pub fn dmg_init(&mut self)
        requires
            old(self).wf(),
            !old(self).oam_dma.in_transfer,
            old(self).oam_dma.delay_cycles == 0,
        ensures
            final(self).wf(),
            final(self).mem == (Memory { i_enable: 0, ..old(self).mem }),
            final(self).oam_dma == (OamDma { dma: 0xFF, ..old(self).oam_dma }),
            final(self).joypad == (Joypad { joyp: 0xCF, ..old(self).joypad }),
            final(self).io.ifired() == 0xE1,
            final(self).timer.div == 0xABCC && final(self).timer.tac == 0xF8,
            final(self).serial.sb == 0 && final(self).serial.sc == 0x7E,
            final(self).graphics.gpu_data.lcdc == 0x91 && final(self).graphics.gpu_data.stat == 0x85,
            final(self).sound.nr52 == 0xF1 && final(self).sound.nr51 == 0xF3,
    {
        self.mem.dmg_init();
        self.timer.dmg_init();
        self.io.dmg_init();
        self.graphics.dmg_init();
        self.serial.dmg_init();
        self.joypad.dmg_init();
        self.oam_dma.dmg_init();
        self.sound.dmg_init();
    }

    /// Steps timer, serial port and PPU by `cycles`, then moves
    /// DMA on by one byte while a transfer runs and counts its start delay
    /// down.
    /// `new` is `old` after a CPU write of `data` to `addr` followed by the
    /// M-cycle of device time it takes.
    #[verifier::opaque]
    pub open spec fn cpu_wrote(new: Bus, old: Bus, addr: u16, data: u8) -> bool {
        exists|m: Bus| #[trigger] Bus::written(m, old, addr, data) && Bus::advanced(new, m, 4)
    }

    /// `new` is `old` after two CPU writes, each followed by the M-cycle of
    /// device time it takes: `d1` to `a1`, then `d2` to `a2`.
    #[verifier::opaque]
    pub open spec fn wrote_two(new: Bus, old: Bus, a1: u16, d1: u8, a2: u16, d2: u8) -> bool {
        exists|c: Bus| #[trigger] Bus::cpu_wrote(c, old, a1, d1) && Bus::cpu_wrote(new, c, a2, d2)
    }

    /// IF after the timer's step: a TIMA overflow that is being reloaded
    /// requests the timer interrupt.
    pub open spec fn timer_raised(t: Timer, flags: u8) -> u8 {
        if t.overflow_source == TimaOverflowState::Advancing {
            flags | 0xE4
        } else {
            flags
        }
    }

    /// IF after the serial port's step of `cycles`: a transfer that completes
    /// requests the serial interrupt.
    pub open spec fn serial_raised(s: Serial, cycles: usize, flags: u8) -> u8 {
        if s.transferring && s.transfer_cycles + cycles >= crate::serial::MAX_TRANSFER_CYCLES {
            flags | 0xE8
        } else {
            flags
        }
    }

    /// Lets `cycles` clock cycles pass for the devices: the timer, then the
    /// serial port, then the PPU (each adding its interrupt requests to IF),
    /// then one step of a running OAM DMA transfer or of its start delay.
    /// `new` is the bus `cycles` clock cycles after `old`, as `adv_cycles`
    /// moves it.
    #[verifier::opaque]
    pub open spec fn advanced(new: Bus, old: Bus, cycles: usize) -> bool {
        &&& exists|io2: Io, g3: Graphics|
            io2.is_with_if(
                old.io,
                Bus::serial_raised(
                    old.serial,
                    cycles,
                    Bus::timer_raised(old.timer, old.io.ifired()),
                ),
            ) && #[trigger] Graphics::ran(g3, old.graphics, new.io, io2, cycles) && (old.quiet() ==> new.graphics == g3)
        &&& new.timer == advanced(old.timer, cycles)
        &&& new.serial == old.serial.advanced(cycles)
        &&& new.mem == old.mem
        &&& new.joypad == old.joypad
        &&& new.sound == old.sound
        &&& new.oam_dma.dma == old.oam_dma.dma
        &&& old.oam_dma.delay_cycles > 0 ==> new.oam_dma.delay_cycles == old.oam_dma.delay_cycles - 1
        &&& old.oam_dma.delay_cycles == 0 ==> new.oam_dma.delay_cycles == 0
        &&& old.oam_dma.delay_cycles == 1 ==> new.oam_dma.in_transfer
            && new.oam_dma.cycles == 0
        &&& !old.oam_dma.in_transfer && old.oam_dma.delay_cycles != 1
            ==> !new.oam_dma.in_transfer
        &&& new.io.if_grown(old.io)
        &&& old.quiet() ==> new.oam_dma == old.oam_dma
        &&& old.graphics.gpu_data.spec_ppu_enabled() ==> Graphics::mode_moved(
            new.graphics,
            old.graphics,
            cycles,
        )
        &&& old.oam_dma.in_transfer && old.oam_dma.delay_cycles == 0 ==> Bus::dma_advanced(
            new,
            old,
        )
    }

    pub fn adv_cycles(&mut self, cycles: usize)
        requires
            old(self).wf(),
            cycles <= usize::MAX - MAX_VBLANK_CYCLES,
        ensures
            final(self).wf(),
            Bus::advanced(*final(self), *old(self), cycles),
    {
        let ghost io0 = self.io;
        let ghost t0 = self.timer;
        self.timer.adv_cycles(&mut self.io, cycles);
        let ghost io1 = self.io;
        proof {
            if t0.overflow_source == crate::timer::TimaOverflowState::Advancing {
                lemma_if_step(io0, io1, 0xE4);
            } else {
                lemma_if_same(io0);
            }
        }
        let ghost s0 = self.serial;
        self.serial.adv_cycles(&mut self.io, cycles);
        let ghost io2 = self.io;
        proof {
            if s0.transferring && s0.transfer_cycles + cycles >= crate::serial::MAX_TRANSFER_CYCLES {
                lemma_if_step(io1, io2, 0xE8);
            } else {
                lemma_if_same(io1);
            }
            lemma_if_trans(io0, io1, io2);
        }
        let ghost g0 = self.graphics;
        self.graphics.adv_cycles(&mut self.io, cycles);
        let ghost io3 = self.io;
        let ghost g3 = self.graphics;
        proof {
            let f0 = io0.ifired();
            let f1 = Bus::timer_raised(t0, f0);
            assert(io1.io@ == io0.io@.update(if_index(), f1));
            assert(io1.ifired() == f1);
            assert(io2.io@ =~= io0.io@.update(if_index(), Bus::serial_raised(s0, cycles, f1)));
            assert(io2.is_with_if(io0, Bus::serial_raised(s0, cycles, f1)));
        }
        proof {
            if !g0.gpu_data.spec_ppu_enabled() {
                lemma_if_same(io2);
            }
            lemma_if_trans(io0, io2, io3);
        }
        let ghost b1 = *self;
        assert(b1.read_dma_source() == old(self).read_dma_source());
        if self.oam_dma.dma_active() {
            self.handle_dma_transfer();
        }
        if self.oam_dma.delay_rem() > 0 {
            self.oam_dma.decr_delay(&mut self.graphics);
        }
        reveal(Bus::advanced);
        assert(self.io == io3);
        assert(old(self).quiet() ==> self.graphics == g3);
        assert(Graphics::ran(g3, old(self).graphics, self.io, io2, cycles));
        assert(io2.is_with_if(
            old(self).io,
            Bus::serial_raised(
                old(self).serial,
                cycles,
                Bus::timer_raised(old(self).timer, old(self).io.ifired()),
            ),
        ));
    }

    /// Lets time pass for the cartridge, once per instruction with the
    /// cycles it took: only the running clock of an MBC3 moves, and every
    /// address reads as before.
    pub fn tick_cartridge(&mut self, cycles: usize)
        requires
            old(self).wf(),
        ensures
            final(self).wf(),
            *final(self) == (Bus { mem: final(self).mem, ..*old(self) }),
            final(self).mem == (Memory { mbc: old(self).mem.mbc.after_cycles(cycles), ..old(self).mem }),
            Mbc::clock_moved(final(self).mem.mbc, old(self).mem.mbc),
            forall|a: u16| #[trigger] final(self).byte_at(a) == old(self).byte_at(a),
    {
        self.mem.adv_cycles(cycles);
        assert forall|a: u16| #[trigger] self.byte_at(a) == old(self).byte_at(a) by {
            assert(self.mem.byte_at(a) == old(self).mem.byte_at(a));
        }
    }

    // Full dma transfer takes 160 machine cycles (640 T Cycles)
    // 1 Cycle per sprite entry
    /// Copies the next byte of the running transfer into OAM.
    fn handle_dma_transfer(&mut self)
        requires
            old(self).wf(),
            old(self).oam_dma.in_transfer,
        ensures
            final(self).wf(),
            *final(self) == (Bus { graphics: final(self).graphics, oam_dma: final(self).oam_dma, ..*old(self) }),
            Bus::dma_stepped(*final(self), *old(self), old(self).read_dma_source()),
    {
        let addr = self.oam_dma.calc_addr();
        let value = self.read_byte_for_dma(addr);
        self.oam_dma.set_value(value);
        let c = self.oam_dma.cycles();
        self.write_byte_for_dma(c, value);
        self.oam_dma.incr_cycles(&mut self.graphics);
    }

    /// One step of a running DMA transfer, as a bus step makes it: OAM
    /// byte `cycles` takes the byte the transfer reads next, and the
    /// transfer moves on or, after its last byte, ends and frees the bus.
    pub open spec fn dma_advanced(new: Bus, old: Bus) -> bool {
        let v = old.read_dma_source();
        let d = OamDma { value: v, ..old.oam_dma };
        &&& new.graphics.gpu_data.oam@ == old.graphics.gpu_data.oam@.update(
            old.oam_dma.cycles as int,
            v,
        )
        &&& new.oam_dma == if old.oam_dma.cycles < 159 {
            OamDma { cycles: (old.oam_dma.cycles + 1) as u16, ..d }
        } else {
            OamDma { in_transfer: false, cycles: 0, bus_conflict: BusType::Free, ..d }
        }
    }

    /// The byte the running DMA transfer reads next.
    pub open spec fn read_dma_source(&self) -> u8 {
        let a = self.oam_dma.src_addr();
        if VRAM_START <= a <= VRAM_END {
            self.graphics.gpu_data.vram@[a - VRAM_START]
        } else {
            self.mem.byte_at(a)
        }
    }

    /// Whether an enabled interrupt is requested.
    pub fn interrupt_pending(&self) -> (b: bool)
        requires
            self.wf(),
        ensures
            b == ((self.mem.i_enable & self.io.ifired() & 0x1F) != 0),
    {
        (self.mem.i_enable & self.io.read_byte(IF_REG) & 0x1F) != 0
    }

    /// Hands the next window event to the joypad; a button press while a
    /// group is selected requests the joypad interrupt. Returns whether the
    /// emulator should quit.
    pub fn update_input(&mut self, event: Option<InputEvent>) -> (should_exit: bool)
        requires
            old(self).wf(),
        ensures
            final(self).wf(),
            should_exit == (event == Some(InputEvent::Quit) || event == Some(
                InputEvent::KeyDown(crate::joypad::Key::Escape),
            )),
            *final(self) == (Bus { joypad: final(self).joypad, io: final(self).io, ..*old(self) }),
            final(self).joypad == old(self).joypad.after_event(event),
            final(self).joypad.something_selected && final(self).joypad.high_to_low ==> final(self).io.is_with_if(old(self).io, old(self).io.ifired() | 0xF0),
            !(final(self).joypad.something_selected && final(self).joypad.high_to_low) ==> final(self).io == old(self).io,
    {
        let should_exit = self.joypad.update_input(event);
        if self.joypad.is_joypad_interrupt() {
            self.io.request_joypad_interrupt();
        }
        should_exit
    }

    /// Writes `data` from `location` on into cartridge memory, RAM or IE.
    pub fn write_bytes(&mut self, location: u16, data: &Vec<u8>)
        requires
            old(self).wf(),
            location + data@.len() <= 0x10000,
            forall|i: int|
                0 <= i < data@.len() ==> crate::memory::is_mem_addr(
                    #[trigger] crate::memory::block_addr(location, i),
                ),
        ensures
            final(self).wf(),
            *final(self) == (Bus { mem: final(self).mem, ..*old(self) }),
            forall|i: int|
                0 <= i < data@.len() && (crate::memory::block_addr(location, i) >= 0xC000
                    || old(self).mem.mbc.is_plain()) ==> #[trigger] final(self).mem.byte_at(
                    crate::memory::block_addr(location, i),
                ) == data@[i] || crate::memory::overwritten_later(location, data@, i),
    {
        self.mem.write_bytes(location, data);
    }

    /// Whether the PPU finished a frame since the last `end_frame`.
    pub fn frame_ready(&self) -> (b: bool)
        ensures
            b == self.graphics.frame_ready,
    {
        self.graphics.frame_ready()
    }
}

/// A CPU write to work RAM, its echo, high RAM or IE that DMA does not
/// block is what a read of that address gives afterwards.
pub proof fn lemma_bus_read_after_write(new: Bus, old: Bus, addr: u16, data: u8)
    requires
        old.wf(),
        Bus::written(new, old, addr, data),
        conflict_read(old.oam_dma, addr) is None,
        0xC000 <= addr < 0xFE00 || addr >= 0xFF80,
    ensures
        new.byte_at(addr) == data,
{
}

/// A CPU write to one work RAM or high RAM address leaves every other
/// such address reading as before.
pub proof fn lemma_bus_write_keeps_others(new: Bus, old: Bus, addr: u16, data: u8, other: u16)
    requires
        old.wf(),
        Bus::written(new, old, addr, data),
        0xC000 <= addr < 0xE000 || 0xFF80 <= addr < 0xFFFF,
        0xC000 <= other < 0xE000 || 0xFF80 <= other < 0xFFFF,
        other != addr,
    ensures
        new.byte_at(other) == old.byte_at(other),
{
}

/// `bs` is a run of bus steps of a DMA transfer: each state follows the one
/// before by one step that copied the byte the transfer read next.
pub open spec fn dma_run(bs: Seq<Bus>) -> bool {
    forall|k: int| 0 <= k < bs.len() - 1 ==> #[trigger] Bus::dma_advanced(bs[k + 1], bs[k])
}

proof fn lemma_dma_prefix(bs: Seq<Bus>, n: int)
    requires
        bs.len() == 161,
        dma_run(bs),
        bs[0].oam_dma.in_transfer,
        bs[0].oam_dma.cycles == 0,
        bs[0].graphics.gpu_data.oam@.len() == 160,
        0 <= n <= 160,
    ensures
        n < 160 ==> bs[n].oam_dma.in_transfer && bs[n].oam_dma.cycles == n,
        n == 160 ==> !bs[n].oam_dma.in_transfer && bs[n].oam_dma.bus_conflict == BusType::Free,
        bs[n].graphics.gpu_data.oam@.len() == 160,
        forall|i: int| 0 <= i < n ==> bs[n].graphics.gpu_data.oam@[i] == bs[i].read_dma_source(),
    decreases n,
{
    if n > 0 {
        lemma_dma_prefix(bs, n - 1);
        let k = n - 1;
        assert(Bus::dma_advanced(bs[k + 1], bs[k]));
        assert(bs[k + 1] == bs[n]);
    }
}

/// An OAM DMA transfer that runs its 160 steps copies, into each OAM
/// byte i, the byte the transfer read at its step i (source page + i), and
/// then ends, freeing the bus.
pub proof fn lemma_dma_transfer(bs: Seq<Bus>)
    requires
        bs.len() == 161,
        dma_run(bs),
        bs[0].oam_dma.in_transfer,
        bs[0].oam_dma.cycles == 0,
        bs[0].graphics.gpu_data.oam@.len() == 160,
    ensures
        forall|i: int|
            0 <= i < 160 ==> bs[i].oam_dma.src_addr() == bs[0].oam_dma.dma * 0x100 + i
                && #[trigger] bs[160].graphics.gpu_data.oam@[i] == bs[i].read_dma_source(),
        !bs[160].oam_dma.in_transfer,
        bs[160].oam_dma.bus_conflict == BusType::Free,
{
    lemma_dma_prefix(bs, 160);
    assert forall|i: int| 0 <= i < 160 implies bs[i].oam_dma.src_addr() == bs[0].oam_dma.dma
        * 0x100 + i by {
        lemma_dma_prefix(bs, i);
        lemma_dma_page(bs, i);
        let d = bs[i].oam_dma;
        assert(d.cycles == i);
        assert(d.dma == bs[0].oam_dma.dma);
        assert(0 <= d.dma * 0x100 + d.cycles < 0x10000);
    }
}

proof fn lemma_dma_page(bs: Seq<Bus>, n: int)
    requires
        bs.len() == 161,
        dma_run(bs),
        bs[0].oam_dma.in_transfer,
        bs[0].oam_dma.cycles == 0,
        0 <= n < 160,
    ensures
        bs[n].oam_dma.dma == bs[0].oam_dma.dma,
    decreases n,
{
    if n > 0 {
        lemma_dma_page(bs, n - 1);
        let k = n - 1;
        assert(Bus::dma_advanced(bs[k + 1], bs[k]));
        assert(bs[k + 1] == bs[n]);
    }
}

} // verus!
