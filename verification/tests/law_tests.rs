use gb_emulator::bus::Bus;
use gb_emulator::cpu::instruction::Instruction;
use gb_emulator::cpu::Cpu;

#[test]
fn push_then_pop_restores_pair() {
    let mut cpu = Cpu::new();
    cpu.reg.bc = 0x1234;
    cpu.reg.de = 0xFFFF;
    cpu.sp = 0xDFF0;
    cpu.match_instruction(Instruction::get_instruction(0xC5)); // PUSH BC
    assert_eq!(cpu.sp, 0xDFEE);
    assert_eq!(cpu.mem.read_byte(0xDFEF), 0x12);
    assert_eq!(cpu.mem.read_byte(0xDFEE), 0x34);
    cpu.match_instruction(Instruction::get_instruction(0xD1)); // POP DE
    assert_eq!(cpu.reg.de, 0x1234);
    assert_eq!(cpu.sp, 0xDFF0);
}

#[test]
fn push_then_pop_af_keeps_flag_bits() {
    let mut cpu = Cpu::new();
    cpu.reg.af = 0x12FF;
    cpu.sp = 0xFFFE;
    cpu.match_instruction(Instruction::get_instruction(0xF5)); // PUSH AF
    cpu.match_instruction(Instruction::get_instruction(0xF1)); // POP AF
    assert_eq!(cpu.reg.af, 0x12F0);
    assert_eq!(cpu.sp, 0xFFFE);
}

#[test]
fn call_then_ret_returns_after_call() {
    let mut cpu = Cpu::new();
    cpu.mem.write_byte(0xC000, 0x34);
    cpu.mem.write_byte(0xC001, 0x12);
    cpu.pc = 0xC000;
    cpu.sp = 0xDFF0;
    cpu.match_instruction(Instruction::get_instruction(0xCD)); // CALL 0x1234
    assert_eq!(cpu.pc, 0x1234);
    assert_eq!(cpu.sp, 0xDFEE);
    assert_eq!(cpu.mem.read_byte(0xDFEF), 0xC0);
    assert_eq!(cpu.mem.read_byte(0xDFEE), 0x02);
    cpu.match_instruction(Instruction::get_instruction(0xC9)); // RET
    assert_eq!(cpu.pc, 0xC002);
    assert_eq!(cpu.sp, 0xDFF0);
}

#[test]
fn ei_takes_effect_after_next_instruction() {
    let mut cpu = Cpu::new();
    cpu.mem.write_byte(0xC000, 0xFB); // EI
    cpu.mem.write_byte(0xC001, 0x00); // NOP
    cpu.mem.write_byte(0xC002, 0x00); // NOP
    cpu.pc = 0xC000;
    cpu.curr_cycles = 0;
    cpu.execute();
    assert!(!cpu.ime);
    assert!(cpu.ime_scheduled);
    cpu.curr_cycles = 0;
    cpu.execute();
    assert!(cpu.ime);
    assert_eq!(cpu.pc, 0xC002);
}

#[test]
fn ld_hl_d8_writes_memory() {
    let mut cpu = Cpu::new();
    cpu.mem.write_byte(0xC100, 0x36); // LD (HL), d8
    cpu.mem.write_byte(0xC101, 0x5A);
    cpu.pc = 0xC100;
    cpu.reg.hl = 0xC200;
    cpu.curr_cycles = 0;
    cpu.execute();
    assert_eq!(cpu.mem.read_byte(0xC200), 0x5A);
    assert_eq!(cpu.pc, 0xC102);
    assert_eq!(cpu.curr_cycles, 12);
}

#[test]
fn dma_copies_a_page_into_oam() {
    let mut bus = Bus::new();
    for i in 0..160u16 {
        bus.write_byte(0xC000 + i, (i as u8) ^ 0xA5);
    }
    bus.write_byte(0xFF46, 0xC0);
    assert_eq!(bus.read_byte(0xFF46), 0xC0);
    for _ in 0..170 {
        bus.adv_cycles(4);
    }
    assert!(!bus.oam_dma.in_transfer);
    for i in 0..160usize {
        assert_eq!(bus.graphics.gpu_data.oam[i], (i as u8) ^ 0xA5);
    }
}

#[test]
fn high_ram_stays_open_during_dma() {
    let mut cpu = Cpu::new();
    cpu.mem.write_byte(0xC000, 0x99);
    cpu.mem.write_byte(0xFF46, 0xC0);
    for _ in 0..3 {
        cpu.adv_cycles(4);
    }
    assert!(cpu.mem.oam_dma.in_transfer);
    // work RAM is on the bus the transfer uses: reads see the byte in flight
    assert_eq!(cpu.mem.read_byte(0xC001), cpu.mem.oam_dma.value);
    cpu.reg.bc = 0x1234;
    cpu.sp = 0xFFF0;
    cpu.match_instruction(Instruction::get_instruction(0xC5)); // PUSH BC
    assert!(cpu.mem.oam_dma.in_transfer);
    assert_eq!(cpu.mem.read_byte(0xFFEF), 0x12);
    assert_eq!(cpu.mem.read_byte(0xFFEE), 0x34);
}
