# gb_emulator

A Game Boy (DMG) emulator whose core is verified with Verus.

- `src/` is the verified core: the SM83 CPU (instruction semantics; the
  reads and writes of every instruction to the memory the bus holds itself,
  ROM/RAM/work RAM/high RAM/IE, while no OAM DMA blocks them; for the 8-bit
  loads and stores, LDH, the ALU on (HL) and PUSH, every bus step, I/O
  registers included; the interrupt dispatch and the per-step loop of the
  emulator), the memory bus with its OAM DMA
  unit, work/high RAM, the cartridge header and bank controllers (none,
  MBC1, MBC3 with its real time clock and its battery file, MBC5), the timer, serial port, joypad,
  the pixel processing unit and the register side of the audio unit.
- `tests/` runs the core on concrete programs and values.
- `app/` is the desktop front end: it reads the game image and battery
  files, turns SDL2 window events into joypad events, shows the frames the
  PPU finishes and holds the floating point side of the audio unit.
