use gb_emulator::cartridge::CartFeature;
use gb_emulator::mbc::mbc3::{Mbc3, Mbc3Features};
use gb_emulator::mbc::mbc_timer::{MbcTimer, COUNTER_MAX_SECONDS};

const BANK: usize = 16_384;

fn rom_with_banks(banks: usize) -> Vec<u8> {
    let mut rom = vec![0u8; banks * BANK];
    for b in 0..banks {
        rom[b * BANK] = b as u8;
    }
    rom
}

fn loaded(features: Mbc3Features, saved: Option<(u64, u64)>, offline: u64) -> Mbc3 {
    let mut m = Mbc3::new();
    m.load_game(rom_with_banks(8), features, 8, vec![0u8; 4 * 8192], 4, saved, offline);
    m
}

#[test]
fn mbc3_features_from_header_list() {
    let f = |v: Vec<CartFeature>| Mbc3Features::from_features(&v);
    assert_eq!(f(vec![CartFeature::Mbc3]), Some(Mbc3Features::Plain));
    assert_eq!(f(vec![CartFeature::Mbc3, CartFeature::Ram]), Some(Mbc3Features::Ram));
    assert_eq!(
        f(vec![CartFeature::Mbc3, CartFeature::Ram, CartFeature::Battery]),
        Some(Mbc3Features::RamBattery)
    );
    assert_eq!(
        f(vec![CartFeature::Mbc3, CartFeature::Timer, CartFeature::Battery]),
        Some(Mbc3Features::TimerBattery)
    );
    assert_eq!(
        f(vec![CartFeature::Mbc3, CartFeature::Timer, CartFeature::Ram, CartFeature::Battery]),
        Some(Mbc3Features::TimerRamBattery)
    );
    assert_eq!(f(vec![CartFeature::Mbc1]), None);
    assert_eq!(f(vec![CartFeature::Mbc3, CartFeature::Battery]), None);
    assert_eq!(f(vec![]), None);
}

#[test]
fn mbc3_rom_bank_switching() {
    let mut m = loaded(Mbc3Features::Plain, None, 0);
    assert_eq!(m.read_rom_byte(0x0000), 0);
    assert_eq!(m.read_rom_byte(0x4000), 1);
    m.write_rom_byte(0x2000, 5);
    assert_eq!(m.read_rom_byte(0x4000), 5);
    // bank 0 selects bank 1
    m.write_rom_byte(0x2000, 0);
    assert_eq!(m.read_rom_byte(0x4000), 1);
    // bank numbers past the image wrap by the bank mask
    m.write_rom_byte(0x3FFF, 11);
    assert_eq!(m.read_rom_byte(0x4000), 3);
}

#[test]
fn mbc3_ram_needs_enable() {
    let mut m = loaded(Mbc3Features::Ram, None, 0);
    m.write_ram_byte(0xA010, 0x42);
    assert_eq!(m.read_ram_byte(0xA010), 0xFF);
    m.write_rom_byte(0x0000, 0x0A);
    m.write_ram_byte(0xA010, 0x42);
    assert_eq!(m.read_ram_byte(0xA010), 0x42);
    m.write_rom_byte(0x4000, 2);
    assert_eq!(m.read_ram_byte(0xA010), 0x00);
    m.write_ram_byte(0xA010, 0x17);
    m.write_rom_byte(0x4000, 0);
    assert_eq!(m.read_ram_byte(0xA010), 0x42);
    m.write_rom_byte(0x4000, 2);
    assert_eq!(m.read_ram_byte(0xA010), 0x17);
    m.write_rom_byte(0x1000, 0x00);
    assert_eq!(m.read_ram_byte(0xA010), 0xFF);
}

#[test]
fn mbc3_no_ram_reads_ff() {
    let mut m = loaded(Mbc3Features::Plain, None, 0);
    m.write_rom_byte(0x0000, 0x0A);
    m.write_ram_byte(0xA000, 0x12);
    assert_eq!(m.read_ram_byte(0xA000), 0xFF);
}

#[test]
fn mbc3_clock_from_saved_registers() {
    // latched at 1 min 2 s, running at 1 h, 10 s passed while off
    let m = loaded(Mbc3Features::TimerBattery, Some((62, 3600)), 10);
    let l = m.latched_timer.as_ref().unwrap();
    assert_eq!((l.minutes, l.seconds), (1, 2));
    let t = m.timer.as_ref().unwrap();
    assert_eq!((t.hours, t.minutes, t.seconds), (1, 0, 10));
    assert_eq!(t.days_hi & 0x80, 0);
}

#[test]
fn mbc3_long_offline_sets_overflow() {
    let m = loaded(Mbc3Features::TimerRamBattery, None, COUNTER_MAX_SECONDS + 5);
    let t = m.timer.as_ref().unwrap();
    assert_eq!(t.days_hi & 0x80, 0x80);
    assert_eq!(t.seconds, 4);
    assert!(m.ram.is_some());
}

#[test]
fn mbc3_latch_and_read_clock() {
    let mut m = loaded(Mbc3Features::TimerBattery, Some((0, 3 * 86400 + 2 * 3600 + 5 * 60 + 7)), 0);
    m.write_rom_byte(0x0000, 0x0A);
    m.write_rom_byte(0x4000, 0x08);
    assert_eq!(m.read_ram_byte(0xA000), 0);
    m.write_rom_byte(0x6000, 0);
    m.write_rom_byte(0x6000, 1);
    assert_eq!(m.read_ram_byte(0xA000), 7);
    m.write_rom_byte(0x4000, 0x09);
    assert_eq!(m.read_ram_byte(0xA000), 5);
    m.write_rom_byte(0x4000, 0x0A);
    assert_eq!(m.read_ram_byte(0xA000), 2);
    m.write_rom_byte(0x4000, 0x0B);
    assert_eq!(m.read_ram_byte(0xA000), 3);
    // a second write of 1 does not latch again
    m.write_rom_byte(0x6000, 1);
    assert_eq!(m.read_ram_byte(0xA000), 3);
}

#[test]
fn mbc3_clock_register_write_read() {
    let mut m = loaded(Mbc3Features::TimerBattery, Some((0, 0)), 0);
    m.write_rom_byte(0x0000, 0x0A);
    m.write_rom_byte(0x4000, 0x09);
    m.write_ram_byte(0xA000, 45);
    assert_eq!(m.read_ram_byte(0xA000), 45);
    m.write_rom_byte(0x4000, 0x0A);
    m.write_ram_byte(0xA000, 13);
    assert_eq!(m.read_ram_byte(0xA000), 13);
    m.write_rom_byte(0x4000, 0x09);
    assert_eq!(m.read_ram_byte(0xA000), 45);
    // halt flag and day bit 8 through DH
    m.write_rom_byte(0x4000, 0x0C);
    m.write_ram_byte(0xA000, 0x41);
    assert_eq!(m.read_ram_byte(0xA000), 0x41);
    // the running clock is untouched
    assert_eq!(m.timer.as_ref().unwrap().to_secs(), 0);
}

#[test]
fn mbc3_clock_ticks_one_second() {
    let mut m = loaded(Mbc3Features::TimerBattery, Some((0, 0)), 0);
    // 128 cycles make one oscillator tick, 32768 ticks one second
    let mut n = 0;
    while m.timer.as_ref().unwrap().seconds == 0 {
        m.adv_cycles(4);
        n += 4;
        assert!(n < 5_000_000);
    }
    assert_eq!(m.timer.as_ref().unwrap().seconds, 1);
    assert!(n > 128 * 32768);
    assert!(n <= 129 * 32769 + 4);
}

#[test]
fn mbc_timer_update_moves_back() {
    let mut t = MbcTimer::new();
    t.from_secs(3600);
    t.update_timer(-61, false);
    assert_eq!((t.hours, t.minutes, t.seconds), (0, 58, 59));
    t.update_timer(61, true);
    assert_eq!((t.hours, t.minutes, t.seconds), (1, 0, 0));
    assert_eq!(t.days_hi & 0x80, 0x80);
}
