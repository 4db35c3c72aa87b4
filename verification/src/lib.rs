//! An M-cycle accurate Game Boy (DMG) emulator core: CPU, memory bus,
//! cartridge controllers, timer, serial port, pixel processing unit and
//! the register side of the audio unit.

pub mod cpu;
pub mod instruction;
pub mod io;
pub mod serial;
pub mod timer;
pub mod mbc;
pub mod memory;
pub mod graphics;
pub mod bus;
pub mod joypad;
pub mod sound;
pub mod cartridge;
