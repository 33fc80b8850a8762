use waterfall::cmos::{encode_rtc, enable_interrupt_value, nmi_disabled, nmi_enabled, periodic_rate_value, Interrupt};
use waterfall::clock::unix_seconds;
use waterfall::cmos::{Rtc, RtcRegisters};

#[test]
fn epoch_is_zero() {
    let rtc = Rtc { year: 1970, month: 1, day: 1, hour: 0, minute: 0, second: 0 };
    assert_eq!(unix_seconds(&rtc), 0);
}

#[test]
fn known_timestamps() {
    let rtc = Rtc { year: 2000, month: 3, day: 1, hour: 0, minute: 0, second: 0 };
    assert_eq!(unix_seconds(&rtc), 951_868_800);
    let rtc = Rtc { year: 2024, month: 12, day: 31, hour: 23, minute: 59, second: 59 };
    assert_eq!(unix_seconds(&rtc), 1_735_689_599);
    let rtc = Rtc { year: 2100, month: 3, day: 1, hour: 12, minute: 30, second: 5 };
    assert_eq!(unix_seconds(&rtc), 4_107_587_405);
}

#[test]
fn bcd_registers_decode() {
    let raw = RtcRegisters {
        second: 0x59,
        minute: 0x07,
        hour: 0x23,
        day: 0x31,
        month: 0x12,
        year: 0x24,
        status_b: 0x02,
    };
    assert_eq!(
        Rtc::new(&raw),
        Rtc { year: 2024, month: 12, day: 31, hour: 23, minute: 7, second: 59 }
    );
}

#[test]
fn binary_registers_decode() {
    let raw = RtcRegisters { second: 5, minute: 6, hour: 7, day: 8, month: 9, year: 25, status_b: 0x06 };
    let mut rtc = Rtc { year: 0, month: 0, day: 0, hour: 0, minute: 0, second: 0 };
    rtc.sync(&raw);
    assert_eq!(rtc, Rtc { year: 2025, month: 9, day: 8, hour: 7, minute: 6, second: 5 });
    assert_eq!(Rtc::size(), 19);
}

#[test]
fn twelve_hour_form_moves_hours_without_flag() {
    let raw = RtcRegisters { second: 0, minute: 0, hour: 3, day: 1, month: 1, year: 0, status_b: 0x04 };
    assert_eq!(Rtc::new(&raw).hour, 15);
    let raw = RtcRegisters { second: 0, minute: 0, hour: 0x83, day: 1, month: 1, year: 0, status_b: 0x04 };
    assert_eq!(Rtc::new(&raw).hour, 0x83);
}

#[test]
fn encode_to_bcd_registers() {
    let rtc = Rtc { year: 2024, month: 12, day: 31, hour: 23, minute: 7, second: 59 };
    let r = encode_rtc(&rtc, 0x02);
    assert_eq!(
        r,
        RtcRegisters { second: 0x59, minute: 0x07, hour: 0x23, day: 0x31, month: 0x12, year: 0x24, status_b: 0x02 }
    );
    // decoding what was encoded gives the reading back
    assert_eq!(Rtc::new(&r), rtc);
}

#[test]
fn encode_binary_registers() {
    let rtc = Rtc { year: 2030, month: 6, day: 15, hour: 11, minute: 45, second: 1 };
    let r = encode_rtc(&rtc, 0x04);
    assert_eq!(
        r,
        RtcRegisters { second: 1, minute: 45, hour: 11, day: 15, month: 6, year: 30, status_b: 0x04 }
    );
}

#[test]
fn clock_chip_register_values() {
    assert_eq!(enable_interrupt_value(0x02, Interrupt::Update), 0x12);
    assert_eq!(enable_interrupt_value(0x02, Interrupt::Periodic), 0x42);
    assert_eq!(enable_interrupt_value(0x02, Interrupt::Alarm), 0x22);
    assert_eq!(periodic_rate_value(0x26, 0x0F), 0x2F);
    assert_eq!(nmi_disabled(0x0B), 0x8B);
    assert_eq!(nmi_enabled(0x8B), 0x0B);
}
