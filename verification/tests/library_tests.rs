use gb_emulator::bus::Bus;
use gb_emulator::cartridge::{Cartridge, CartFeature, MbcKind};
use gb_emulator::cpu::illegal_opcode;
use gb_emulator::joypad::{InputEvent, Joypad, Key};
use gb_emulator::mbc::Mbc;
use gb_emulator::memory::Memory;
use gb_emulator::sound::Sound;

fn header_checksum(rom: &[u8]) -> u8 {
    let mut x: u8 = 0;
    for i in 0x0134..=0x014C {
        x = x.wrapping_sub(rom[i]).wrapping_sub(1);
    }
    x
}

fn plain_rom() -> Vec<u8> {
    let mut rom = vec![0u8; 32_768];
    rom[0x0100] = 0x00;
    rom[0x0101] = 0xC3;
    rom[0x0102] = 0x50;
    rom[0x0103] = 0x01;
    for (i, c) in b"TESTGAME".iter().enumerate() {
        rom[0x0134 + i] = *c;
    }
    rom[0x0147] = 0x00;
    rom[0x0148] = 0x00;
    rom[0x0149] = 0x00;
    rom[0x014B] = 0x01;
    let c = header_checksum(&rom);
    rom[0x014D] = c;
    rom
}

#[test]
fn bus_work_ram_reads_back() {
    let mut bus = Bus::new();
    bus.write_byte(0xC123, 0x5A);
    assert_eq!(bus.read_byte(0xC123), 0x5A);
    bus.write_byte(0xFF90, 0xA5);
    assert_eq!(bus.read_byte(0xFF90), 0xA5);
    bus.write_byte(0xC124, 0x11);
    assert_eq!(bus.read_byte(0xC123), 0x5A);
}

#[test]
fn joypad_press_and_release() {
    let mut j = Joypad::new();
    assert_eq!(j.read_byte(0xFF00), 0xCF);
    // select the direction keys (bit 4 low)
    j.write_byte(0xFF00, 0x20);
    assert_eq!(j.read_byte(0xFF00), 0xEF);
    assert!(!j.update_input(Some(InputEvent::KeyDown(Key::Right))));
    assert_eq!(j.read_byte(0xFF00), 0xEE);
    assert!(j.is_joypad_interrupt());
    assert!(!j.update_input(Some(InputEvent::KeyUp(Key::Right))));
    assert_eq!(j.read_byte(0xFF00), 0xEF);
    assert!(!j.is_joypad_interrupt());
    // an action key does not show while directions are selected
    j.update_input(Some(InputEvent::KeyDown(Key::F)));
    assert_eq!(j.read_byte(0xFF00), 0xEF);
    // select the action keys (bit 5 low): A (F) reads pressed
    j.write_byte(0xFF00, 0x10);
    j.update_input(None);
    assert_eq!(j.read_byte(0xFF00), 0xDE);
    j.update_input(Some(InputEvent::KeyDown(Key::RShift)));
    assert_eq!(j.read_byte(0xFF00), 0xD6);
    j.update_input(Some(InputEvent::KeyUp(Key::F)));
    assert_eq!(j.read_byte(0xFF00), 0xD7);
}

#[test]
fn joypad_quit_events() {
    let mut j = Joypad::new();
    assert!(j.update_input(Some(InputEvent::Quit)));
    assert!(j.update_input(Some(InputEvent::KeyDown(Key::Escape))));
    assert!(!j.update_input(Some(InputEvent::Other)));
    assert!(!j.update_input(None));
}

#[test]
fn illegal_opcodes() {
    for op in [0xD3u8, 0xDB, 0xDD, 0xE3, 0xE4, 0xEB, 0xEC, 0xED, 0xF4, 0xFC, 0xFD] {
        assert!(illegal_opcode(op));
    }
    for op in [0x00u8, 0x76, 0xCB, 0xD9, 0xFB, 0xFF] {
        assert!(!illegal_opcode(op));
    }
}

#[test]
fn sound_control_registers_read_back() {
    let mut s = Sound::new();
    s.write_byte(0xFF24, 0x77);
    assert_eq!(s.read_byte(0xFF24), 0x77);
    s.write_byte(0xFF25, 0xF3);
    assert_eq!(s.read_byte(0xFF25), 0xF3);
    s.write_byte(0xFF26, 0x8F);
    assert_eq!(s.read_byte(0xFF26), 0xF0);
}

#[test]
fn cartridge_header_of_plain_rom() {
    let rom = plain_rom();
    let mut cart = Cartridge::new();
    let mbc = cart.read_cartridge_header(rom.clone(), None, None, 0);
    assert!(matches!(mbc, Mbc::NoMbc(_)));
    assert_eq!(cart.get_entry_point(), [0x00, 0xC3, 0x50, 0x01]);
    assert_eq!(&cart.title[..8], b"TESTGAME");
    assert_eq!(cart.get_rom_size(), Some((32_768, 2)));
    assert_eq!(cart.get_ram_size(), Some((0, 0)));
    let (kind, features) = cart.get_cartridge_type();
    assert_eq!(kind, Some(MbcKind::NoMbc));
    assert_eq!(features, vec![CartFeature::RomOnly]);
    assert_eq!(cart.get_publisher_name(), Some(String::from("Nintendo R&D1")));

    let mut mem = Memory::new();
    mem.set_mbc(mbc);
    assert_eq!(cart.checksum(&mem), Some(rom[0x014D]));
    assert_eq!(mem.read_byte(0x0101), 0xC3);
}

#[test]
fn cartridge_checksum_mismatch() {
    let mut rom = plain_rom();
    rom[0x014D] = rom[0x014D].wrapping_add(1);
    let mut cart = Cartridge::new();
    let mbc = cart.read_cartridge_header(rom, None, None, 0);
    let mut mem = Memory::new();
    mem.set_mbc(mbc);
    assert_eq!(cart.checksum(&mem), None);
}

#[test]
fn cartridge_type_and_sizes() {
    let mut cart = Cartridge::new();
    cart.cartridge_type = 0x13;
    cart.rom_size = 0x05;
    cart.ram_size = 0x03;
    let (kind, features) = cart.get_cartridge_type();
    assert_eq!(kind, Some(MbcKind::Mbc3));
    assert_eq!(features, vec![CartFeature::Mbc3, CartFeature::Ram, CartFeature::Battery]);
    cart.cartridge_type = 0x1C;
    let (kind, features) = cart.get_cartridge_type();
    assert_eq!(kind, None);
    assert_eq!(features, vec![CartFeature::Mbc5, CartFeature::Rumble]);
    assert_eq!(cart.get_rom_size(), Some((1_048_576, 64)));
    assert_eq!(cart.get_ram_size(), Some((32_768, 4)));
    cart.rom_size = 0x09;
    cart.ram_size = 0x01;
    assert_eq!(cart.get_rom_size(), None);
    assert_eq!(cart.get_ram_size(), None);
}

#[test]
fn publisher_from_new_licensee_code() {
    let mut cart = Cartridge::new();
    cart.old_lisc_code = 0x33;
    cart.new_lisc_code = [b'0', b'8'];
    assert_eq!(cart.get_publisher_name(), Some(String::from("Capcom")));
    cart.old_lisc_code = 0x08;
    assert_eq!(cart.get_publisher_name(), Some(String::from("Capcom")));
}

#[test]
fn mbc1_cartridge_banks() {
    let mut rom = vec![0u8; 4 * 16_384];
    for b in 0..4 {
        rom[b * 16_384 + 0x10] = 0xB0 + b as u8;
    }
    rom[0x0147] = 0x02;
    rom[0x0148] = 0x01;
    rom[0x0149] = 0x02;
    let mut cart = Cartridge::new();
    let mbc = cart.read_cartridge_header(rom, None, None, 0);
    let mut m = match mbc {
        Mbc::Mbc1(m) => m,
        _ => panic!("expected an MBC1 controller"),
    };
    assert_eq!(m.read_rom_byte(0x4010), 0xB1);
    m.write_rom_byte(0x2000, 3);
    assert_eq!(m.read_rom_byte(0x4010), 0xB3);
    m.write_rom_byte(0x2000, 0);
    assert_eq!(m.read_rom_byte(0x4010), 0xB1);
    // RAM reads 0xFF until enabled
    m.write_ram_byte(0xA000, 0x66);
    assert_eq!(m.read_ram_byte(0xA000), 0xFF);
    m.write_rom_byte(0x0000, 0x0A);
    m.write_ram_byte(0xA000, 0x66);
    assert_eq!(m.read_ram_byte(0xA000), 0x66);
}

#[test]
fn mbc5_cartridge_banks() {
    // 64 banks (1 MiB), 4 RAM banks
    let mut rom = vec![0u8; 64 * 16_384];
    for b in 0..64 {
        rom[b * 16_384 + 0x20] = b as u8;
    }
    rom[0x0147] = 0x1A;
    rom[0x0148] = 0x05;
    rom[0x0149] = 0x03;
    let mut cart = Cartridge::new();
    let mbc = cart.read_cartridge_header(rom, None, None, 0);
    let mut m = match mbc {
        Mbc::Mbc5(m) => m,
        _ => panic!("expected an MBC5 controller"),
    };
    assert_eq!(m.read_rom_byte(0x0020), 0);
    assert_eq!(m.read_rom_byte(0x4020), 0);
    m.write_rom_byte(0x2000, 37);
    assert_eq!(m.read_rom_byte(0x4020), 37);
    // bank 0 can be mapped at 0x4000
    m.write_rom_byte(0x2000, 0);
    assert_eq!(m.read_rom_byte(0x4020), 0);
    // bit 8 selects past the 64 banks there are, wrapping back
    m.write_rom_byte(0x2000, 3);
    m.write_rom_byte(0x3000, 1);
    assert_eq!(m.read_rom_byte(0x4020), 3);
    // RAM banks
    m.write_rom_byte(0x0000, 0x0A);
    m.write_rom_byte(0x4000, 2);
    m.write_ram_byte(0xA005, 0x77);
    assert_eq!(m.read_ram_byte(0xA005), 0x77);
    m.write_rom_byte(0x4000, 1);
    assert_eq!(m.read_ram_byte(0xA005), 0x00);
    m.write_rom_byte(0x4000, 6);
    assert_eq!(m.read_ram_byte(0xA005), 0x77);
    m.write_rom_byte(0x0000, 0x00);
    assert_eq!(m.read_ram_byte(0xA005), 0xFF);
}

#[test]
fn mbc3_cartridge_with_clock() {
    let mut rom = vec![0u8; 4 * 16_384];
    rom[0x0147] = 0x10;
    rom[0x0148] = 0x01;
    rom[0x0149] = 0x03;
    let battery = vec![0x5Au8; 32_768];
    let mut cart = Cartridge::new();
    let mbc = cart.read_cartridge_header(rom, Some(battery), Some((0, 3600)), 30);
    let mut m = match mbc {
        Mbc::Mbc3(m) => m,
        _ => panic!("expected an MBC3 controller"),
    };
    m.write_rom_byte(0x0000, 0x0A);
    assert_eq!(m.read_ram_byte(0xA000), 0x5A);
    m.write_rom_byte(0x6000, 0);
    m.write_rom_byte(0x6000, 1);
    m.write_rom_byte(0x4000, 0x0A);
    assert_eq!(m.read_ram_byte(0xA000), 1);
    m.write_rom_byte(0x4000, 0x08);
    assert_eq!(m.read_ram_byte(0xA000), 30);
}

#[test]
fn cpu_ticks_the_cartridge_clock() {
    let mut rom = vec![0u8; 2 * 16_384];
    rom[0x0147] = 0x0F;
    rom[0x0148] = 0x00;
    let mut cart = Cartridge::new();
    let mbc = cart.read_cartridge_header(rom, None, Some((0, 0)), 0);
    let mut cpu = gb_emulator::cpu::Cpu::new();
    cpu.set_mbc(mbc);
    for _ in 0..(129 * 32_769 / 4 + 1) {
        cpu.tick_cartridge(4);
    }
    match &cpu.mem.mem.mbc {
        Mbc::Mbc3(m) => assert_eq!(m.timer.as_ref().unwrap().seconds, 1),
        _ => panic!("expected an MBC3 controller"),
    }
}

#[test]
fn test_read_header() {
    // A cartridge image with the header of Tetris: no controller, 32 KiB
    // of ROM, no RAM.
    let mut game = vec![0u8; 32_768];
    game[0x0134..0x013A].copy_from_slice(b"TETRIS");
    game[0x014B] = 0x01;
    let c = header_checksum(&game);
    game[0x014D] = c;
    let mut cart = Cartridge::new();

    // Make sure these get overwritten
    cart.cartridge_type = 0x10;
    cart.rom_size = 0x40;
    cart.ram_size = 0x06;

    let mut cpu = gb_emulator::cpu::Cpu::new();

    let mbc = cart.read_cartridge_header(game, None, None, 0);
    cpu.set_mbc(mbc);

    let s = match std::str::from_utf8(&cart.title) {
        Ok(v) => v,
        Err(e) => panic!("Invalid UTF-8 sequence: {}", e),
    };
    assert!(s.contains("TETRIS"));
    assert_eq!(cart.cartridge_type, 0x00);
    assert_eq!(cart.rom_size, 0x00);
    assert_eq!(cart.ram_size, 0x00);

    assert_eq!(cart.checksum(&cpu.mem.mem), Some(c));
}
