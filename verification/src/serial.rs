//! The serial port. Nothing is ever connected: a transfer started with the
//! internal clock completes after 512 CPU cycles and shifts in 0xFF.
use vstd::prelude::*;
use crate::cpu::CPU_FREQ;
use crate::io::Io;

verus! {

pub const SB_REG: u16 = 0xFF01;
pub const SC_REG: u16 = 0xFF02;
pub const INTERNAL_FREQ: usize = 8_192;
pub const MAX_TRANSFER_CYCLES: usize = 512;

pub struct Serial {
    pub sb: u8,  // 0xFF01
    pub sc: u8,  // 0xFF02
    pub transferring: bool,
    pub transfer_cycles: usize,
}

impl Serial {
    /// The port after a write of `data` to SB or SC: SC's bits 1 - 6 read
    /// as 1, and setting bits 7 and 0 starts a transfer.
    pub open spec fn after_write(self, addr: u16, data: u8) -> Serial {
        if addr == SB_REG {
            Serial { sb: data, ..self }
        } else if (data | 0x7E) & 0x81 == 0x81 {
            Serial { sc: data | 0x7E, transferring: true, transfer_cycles: 0, ..self }
        } else {
            Serial { sc: data | 0x7E, ..self }
        }
    }

    /// The port `cycles` clock cycles later: a running transfer counts on
    /// and, once it has run its full length, ends with 0xFF shifted in and
    /// SC bit 7 cleared.
    pub open spec fn advanced(self, cycles: usize) -> Serial {
        if !self.transferring {
            self
        } else if self.transfer_cycles + cycles < MAX_TRANSFER_CYCLES {
            Serial { transfer_cycles: (self.transfer_cycles + cycles) as usize, ..self }
        } else {
            Serial { sb: 0xFF, sc: self.sc & 0x7F, transferring: false, transfer_cycles: 0 }
        }
    }

    /// A transfer in progress has not yet run its full length.
    pub open spec fn wf(&self) -> bool {
        self.transfer_cycles < MAX_TRANSFER_CYCLES
    }

    pub fn new() -> (s: Serial)
        ensures
            s.wf(),
            s.sb == 0 && s.sc == 0 && !s.transferring && s.transfer_cycles == 0,
    {
        assert(MAX_TRANSFER_CYCLES == CPU_FREQ / INTERNAL_FREQ);
        Serial { sb: 0, sc: 0, transferring: false, transfer_cycles: 0 }
    }

    pub fn read_byte(&self, addr: u16) -> (b: u8)
        requires
            addr == SB_REG || addr == SC_REG,
        ensures
            b == (if addr == SB_REG { self.sb } else { self.sc }),
    {
        match addr {
            SB_REG => self.sb,
            _ => self.sc,
        }
    }

    /// Writing SC with bits 7 and 0 set starts a transfer; bits 1-6 of SC
    /// always read as 1.
    pub fn write_byte(&mut self, addr: u16, data: u8)
        requires
            old(self).wf(),
            addr == SB_REG || addr == SC_REG,
        ensures
            final(self).wf(),
            *final(self) == old(self).after_write(addr, data),
    {
        match addr {
            SB_REG => self.sb = data,
            _ => {
                self.sc = data | 0b01111110;
                if self.sc & 0x81 == 0x81 {
                    self.start_transfer();
                }
            },
        }
    }

    /// Advances a transfer in progress; when it completes, SB reads 0xFF,
    /// bit 7 of SC clears and the serial interrupt is requested.
    pub fn adv_cycles(&mut self, io: &mut Io, cycles: usize)
        requires
            old(self).wf(),
            old(io).wf(),
            cycles <= usize::MAX - MAX_TRANSFER_CYCLES,
        ensures
            final(self).wf(),
            final(io).wf(),
            *final(self) == old(self).advanced(cycles),
            !old(self).transferring ==> *final(self) == *old(self) && *final(io) == *old(io),
            old(self).transferring && old(self).transfer_cycles + cycles < MAX_TRANSFER_CYCLES
                ==> *final(self) == (Serial {
                transfer_cycles: (old(self).transfer_cycles + cycles) as usize,
                ..*old(self)
            }) && *final(io) == *old(io),
            old(self).transferring && old(self).transfer_cycles + cycles >= MAX_TRANSFER_CYCLES
                ==> !final(self).transferring && final(self).sb == 0xFF && final(self).sc == (old(
            self).sc & 0x7F) && final(self).transfer_cycles == 0 && final(io).is_with_if(
                *old(io),
                old(io).ifired() | 0xE8,
            ),
    {
        if !self.transferring {
            return ;
        }
        self.transfer_cycles = self.transfer_cycles + cycles;

        // Just do the fake transfer all at once
        if self.transfer_cycles >= MAX_TRANSFER_CYCLES {
            self.transferring = false;
            self.transfer_cycles = 0;
            self.send();
            self.sb = self.receive();
            self.sc = self.sc & 0x7F;
            io.request_serial_interrupt();
        }
    }

    /// Register values left behind by the DMG boot ROM.
    pub fn dmg_init(&mut self)
        requires
            old(self).wf(),
        ensures
            final(self).wf(),
            *final(self) == (Serial { sb: 0, sc: 0x7E, ..*old(self) }),
    {
        self.sb = 0x00;
        self.sc = 0x7E;
    }

    fn start_transfer(&mut self)
        ensures
            *final(self) == (Serial { transferring: true, transfer_cycles: 0, ..*old(self) }),
    {
        self.transferring = true;
        self.transfer_cycles = 0;
    }

    fn send(&mut self)
        ensures
            *final(self) == *old(self),
    {
        // Empty for now since we dont actually send out anything
    }

    fn receive(&mut self) -> (b: u8)
        ensures
            b == 0xFF,
            *final(self) == *old(self),
    {
        0xFF  // Nothing will be connected to this emulator so it will always receive 0xFF
    }
}

} // verus!
