use gb_emulator::cartridge::Cartridge;
use gb_emulator::cpu::instruction::Instruction;
use gb_emulator::cpu::registers::Registers;
use gb_emulator::cpu::Cpu;
use gb_emulator::graphics::gpu_memory::GpuMemory;
use gb_emulator::graphics::lcdc::{
    get_addr_mode, get_bg_tile_map_area, get_window_tile_map_area, is_bgw_enabled, is_big_sprite,
    is_obj_enabled, is_ppu_enabled, is_window_enabled,
};
use gb_emulator::instruction::daa;
use gb_emulator::mbc::mbc_timer::MbcTimer;
use gb_emulator::mbc::rtc_save::decode_rtc_file;
use gb_emulator::sound::channel3::Ch3;
use gb_emulator::sound::VolEnv;

#[test]
fn daa_sets_carry_on_decimal_overflow() {
    // 0x45 + 0x55 = 0x9A in binary; decimally 100
    let mut reg = Registers::new();
    reg.af = 0x9A00;
    assert_eq!(daa(&reg), 0x0090);
}

#[test]
fn rtc_halt_flag_ignores_day_carry() {
    let mut t = MbcTimer::new();
    t.days_hi = 0xC0;
    assert!(t.is_halted());
    t.days_hi = 0x80;
    assert!(!t.is_halted());
    t.days_hi = 0x40;
    assert!(t.is_halted());
}

#[test]
fn rom_size_counts_16k_banks() {
    let mut cart = Cartridge::new();
    cart.rom_size = 0x05;
    assert_eq!(cart.get_rom_size(), Some((1_048_576, 64)));
    cart.rom_size = 0x08;
    assert_eq!(cart.get_rom_size(), Some((8_388_608, 512)));
}

#[test]
fn window_registers_read_back() {
    let mut g = GpuMemory::new();
    g.write_ppu_io(0xFF4A, 0x10);
    g.write_ppu_io(0xFF4B, 0x07);
    assert_eq!(g.read_ppu_io(0xFF4A), 0x10);
    assert_eq!(g.read_ppu_io(0xFF4B), 0x07);
    g.write_ppu_io(0xFF43, 0x12);
    g.write_ppu_io(0xFF42, 0x34);
    assert_eq!(g.get_scx_scy(), (0x12, 0x34));
}

#[test]
fn wave_channel_start_level() {
    let mut ch = Ch3::new();
    ch.dmg_init();
    assert_eq!(ch.output_level, 0);
    assert_eq!(ch.read_byte(0xFF1C), 0x9F);
    assert_eq!(ch.get_output_as_shift_right(), 4);
}

#[test]
fn dac_follows_register_bits() {
    let mut v = VolEnv::new();
    v.set(0xF0);
    v.reload_vol();
    v.set(0x00);
    assert!(!v.is_dac_enabled());
    v.set(0x08);
    assert!(v.is_dac_enabled());
    v.set(0x10);
    assert!(v.is_dac_enabled());
}

#[test]
fn rtc_file_decoding() {
    let mut bytes: Vec<u8> = vec![0; 24];
    bytes[0] = 0x01;
    bytes[1] = 0x02;
    bytes[8] = 0xFF;
    bytes[15] = 0x01;
    bytes[16] = 0x10;
    assert_eq!(decode_rtc_file(&bytes), Some(((0x0201, 0x0100_0000_0000_00FF), 0x10)));
    assert_eq!(decode_rtc_file(&vec![0; 23]), None);
}

#[test]
fn lcdc_bits() {
    assert!(is_bgw_enabled(0x01));
    assert!(is_obj_enabled(0x02));
    assert!(!is_obj_enabled(0xFD));
    assert!(is_big_sprite(0x04));
    assert_eq!(get_bg_tile_map_area(0xFF), 0x08);
    assert_eq!(get_bg_tile_map_area(0xF7), 0x00);
    assert!(get_addr_mode(0x10));
    assert!(is_window_enabled(0x21));
    assert!(!is_window_enabled(0x20));
    assert_eq!(get_window_tile_map_area(0xFF), 0x40);
    assert!(is_ppu_enabled(0x80));
}

#[test]
fn halt_bug_with_pending_interrupt() {
    let mut cpu = Cpu::new();
    cpu.ime = false;
    cpu.mem.write_byte(0xFFFF, 0x01);
    cpu.mem.write_byte(0xFF0F, 0x01);
    cpu.match_instruction(Instruction::get_instruction(0x76));
    assert!(cpu.is_running);
    assert!(cpu.haltbug);
}

#[test]
fn halt_without_pending_interrupt_halts() {
    let mut cpu = Cpu::new();
    cpu.ime = false;
    cpu.mem.write_byte(0xFFFF, 0x00);
    cpu.match_instruction(Instruction::get_instruction(0x76));
    assert!(!cpu.is_running);
    assert!(!cpu.haltbug);
}

#[test]
fn interrupt_dispatch_serves_highest_priority() {
    let mut cpu = Cpu::new();
    cpu.pc = 0x1234;
    cpu.sp = 0xDFF0;
    cpu.ime = true;
    cpu.mem.write_byte(0xFFFF, 0x05);
    cpu.mem.write_byte(0xFF0F, 0x05);
    cpu.check_interrupts();
    assert_eq!(cpu.pc, 0x0040);
    assert_eq!(cpu.sp, 0xDFEE);
    assert!(!cpu.ime);
    assert_eq!(cpu.mem.read_byte(0xDFEF), 0x12);
    assert_eq!(cpu.mem.read_byte(0xDFEE), 0x34);
    assert_eq!(cpu.mem.read_byte(0xFF0F) & 0x1F, 0x04);
}

#[test]
fn step_quits_on_escape_request() {
    let mut cpu = Cpu::new();
    assert_eq!(cpu.step(Some(gb_emulator::joypad::InputEvent::Quit)), gb_emulator::cpu::StepOutcome::Quit);
}

#[test]
fn step_runs_one_instruction() {
    let mut cpu = Cpu::new();
    // ROM of a fresh bus holds NOPs
    assert_eq!(cpu.step(None), gb_emulator::cpu::StepOutcome::Ran);
    assert_eq!(cpu.pc, 0x0001);
}

#[test]
fn step_stops_at_illegal_opcode() {
    let mut cpu = Cpu::new();
    cpu.pc = 0xC000;
    cpu.mem.write_byte(0xC000, 0xD3);
    assert_eq!(cpu.step(None), gb_emulator::cpu::StepOutcome::Illegal);
    assert_eq!(cpu.pc, 0xC000);
}

#[test]
fn ldh_store_reaches_lcd_control() {
    let mut cpu = Cpu::new();
    cpu.pc = 0xC000;
    cpu.reg.af = 0x9100;
    cpu.mem.write_byte(0xC000, 0x40);
    cpu.match_instruction(Instruction::get_instruction(0xE0));
    assert_eq!(cpu.mem.graphics.gpu_data.lcdc, 0x91);
    assert_eq!(cpu.pc, 0xC001);
}
