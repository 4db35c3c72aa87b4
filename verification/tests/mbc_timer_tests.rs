use gb_emulator::mbc::mbc_timer::{MbcTimer, COUNTER_MAX_SECONDS};

#[test]
fn test_convert_from_secs() {
    let mut timer = MbcTimer::new();
    let time_seconds = COUNTER_MAX_SECONDS; // 510 days, 23 hours, 59 mins 59 secs

    timer.from_secs(time_seconds);

    assert_eq!(timer.days_hi & 0x01, 0x01);
    assert_eq!(timer.days_lo, 255);
    assert_eq!(timer.hours, 23);
    assert_eq!(timer.minutes, 59);
    assert_eq!(timer.seconds, 59);
}

#[test]
fn test_convert_to_secs() {
    let mut timer = MbcTimer::new();

    timer.days_hi = 0x01;
    timer.days_lo = 255;
    timer.hours = 23;
    timer.minutes = 59;
    timer.seconds = 59;

    let time_seconds = timer.to_secs();
    assert_eq!(time_seconds, COUNTER_MAX_SECONDS);
}

/*
    The saved RTC values are always 8 bytes long (padded with 0s), so that
    they can be read back with a known length.
*/
#[test]
fn test_to_le_bytes() {
    let mut timer = MbcTimer::new();
    timer.from_secs(44_236_799); // 510 days, 23 hours, 59 mins 59 secs
    assert_eq!(timer.to_secs().to_le_bytes().len(), 8);

    timer.from_secs(1);
    assert_eq!(timer.to_secs().to_le_bytes().len(), 8);
}

#[test]
fn test_byte_conversion() {
    let buf = [
        0x00, 0x01, 0x02, 0x03, 0x04, 0x05, 0x06, 0x07, 0x08, 0x09, 0x0A, 0x0B, 0x0C, 0x0D, 0x0E,
        0x0F,
    ];
    let latch_time = u64::from_le_bytes(buf[0..=7].try_into().unwrap());
    let update_time = u64::from_le_bytes(buf[8..=15].try_into().unwrap());

    assert_eq!(latch_time, 0x07_06_05_04_03_02_01_00);
    assert_eq!(update_time, 0x0F_0E_0D_0C_0B_0A_09_08);
}
