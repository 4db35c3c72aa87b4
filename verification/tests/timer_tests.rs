use gb_emulator::timer::{Timer, TAC_REG};

#[test]
fn test_decode_tac() {
    let mut timer = Timer::new();

    timer.write_byte(TAC_REG, 0x07);
    let (enabled, cycles) = timer.decode_tac();
    assert_eq!(enabled, true);
    assert_eq!(cycles, 256);

    timer.write_byte(TAC_REG, 0x06);
    let (enabled, cycles) = timer.decode_tac();
    assert_eq!(enabled, true);
    assert_eq!(cycles, 64);

    timer.write_byte(TAC_REG, 0x012);
    let (enabled, cycles) = timer.decode_tac();
    assert_eq!(enabled, false);
    assert_eq!(cycles, 64);

    timer.write_byte(TAC_REG, 0x08);
    let (enabled, cycles) = timer.decode_tac();
    assert_eq!(enabled, false);
    assert_eq!(cycles, 1024);

    timer.write_byte(TAC_REG, 0x09);
    let (enabled, cycles) = timer.decode_tac();
    assert_eq!(enabled, false);
    assert_eq!(cycles, 16);
}
