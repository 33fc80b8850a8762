use waterfall::idt::IrqTable;
use waterfall::pic::PicMasks;
use waterfall::time::{
    init, last_rtc_update, nanowait, pit_interrupt_handler, rtc_interrupt_handler,
    set_pit_frequency_divider, ticks, PitProgram, TimerState,
};

#[test]
fn ticks_count_and_rtc_update_records_them() {
    let mut t = TimerState::new();
    assert_eq!(ticks(&t), 0);
    pit_interrupt_handler(&mut t);
    pit_interrupt_handler(&mut t);
    pit_interrupt_handler(&mut t);
    assert_eq!(ticks(&t), 3);
    assert_eq!(last_rtc_update(&t), 0);
    rtc_interrupt_handler(&mut t);
    assert_eq!(last_rtc_update(&t), 3);
    pit_interrupt_handler(&mut t);
    assert_eq!((ticks(&t), last_rtc_update(&t)), (4, 3));
}

#[test]
fn calibration_and_busy_wait() {
    let mut t = TimerState::new();
    t.calibrate(1_000, 1_000 + 3 * 250_000 + 7);
    assert_eq!(t.clocks_per_nanosecond(), 3);
    assert!(nanowait(&t, 400, 100, 100));
    assert!(nanowait(&t, 400, 100, 1_299));
    assert!(!nanowait(&t, 400, 100, 1_300));
}

#[test]
fn pit_programming_bytes() {
    assert_eq!(
        set_pit_frequency_divider(0x1234, 2),
        PitProgram { command_port: 0x43, command: 0xB6, data_port: 0x42, low: 0x34, high: 0x12 }
    );
}

#[test]
fn init_installs_timer_and_clock_handlers() {
    let mut table: IrqTable<char> = IrqTable::new('-');
    let mut masks = PicMasks { master: 0xFF, slave: 0xFF };
    let p = init(&mut table, &mut masks, 'p', 'r');
    assert_eq!(table.handler(0), 'p');
    assert_eq!(table.handler(8), 'r');
    assert_eq!(table.handler(1), '-');
    assert_eq!(masks, PicMasks { master: 0xFE, slave: 0xFE });
    assert_eq!(p, PitProgram { command_port: 0x43, command: 0x36, data_port: 0x40, low: 0, high: 0 });
}
