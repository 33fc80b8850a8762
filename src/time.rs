//! Tick counting from the programmable interval timer and the real-time
//! clock, cycle-counter waits, and the timer's programming.

use crate::idt::{set_irq_handler, Irq, IrqTable};
use crate::pic::PicMasks;
use vstd::prelude::*;

verus! {

/// The divider the timer is programmed with; 65536 is written as 0.
pub const PIT_DIVIDER: usize = 65536;

/// How long the cycle counter is sampled for calibration, in microseconds
/// (250 ms).
pub const CALIBRATION_MICROS: u64 = 250_000;

/// Command port of the interval timer.
pub const PIT_COMMAND_PORT: u16 = 0x43;

/// Data port of timer channel 0; channel `c` is at this port plus `c`.
pub const PIT_CHANNEL0_PORT: u16 = 0x40;

/// Counters driven by the timer and clock interrupts.
pub struct TimerState {
    pit_ticks: usize,
    last_rtc_update: usize,
    clocks_per_nanosecond: u64,
}

impl TimerState {
    pub closed spec fn ticks_spec(&self) -> usize {
        self.pit_ticks
    }

    pub closed spec fn last_rtc_update_spec(&self) -> usize {
        self.last_rtc_update
    }

    pub closed spec fn clocks_per_nanosecond_spec(&self) -> u64 {
        self.clocks_per_nanosecond
    }

    /// All counters at zero.
    pub fn new() -> (t: TimerState)
        ensures
            t.ticks_spec() == 0,
            t.last_rtc_update_spec() == 0,
            t.clocks_per_nanosecond_spec() == 0,
    {
        TimerState { pit_ticks: 0, last_rtc_update: 0, clocks_per_nanosecond: 0 }
    }

    /// Cycle-counter ticks per nanosecond, as last calibrated.
    pub fn clocks_per_nanosecond(&self) -> (r: u64)
        ensures
            r == self.clocks_per_nanosecond_spec(),
    {
        self.clocks_per_nanosecond
    }

    /// Records the calibration: the cycle counter read `start` and then `end`
    /// across a sleep of `CALIBRATION_MICROS` microseconds.
    pub fn calibrate(&mut self, start: u64, end: u64)
        requires
            start <= end,
        ensures
            final(self).clocks_per_nanosecond_spec() == (end - start) as int / CALIBRATION_MICROS as int,
            final(self).ticks_spec() == old(self).ticks_spec(),
            final(self).last_rtc_update_spec() == old(self).last_rtc_update_spec(),
    {
        self.clocks_per_nanosecond = (end - start) / CALIBRATION_MICROS;
    }
}

/// Timer interrupts counted so far.
pub fn ticks(t: &TimerState) -> (r: usize)
    ensures
        r == t.ticks_spec(),
{
    t.pit_ticks
}

/// The tick count when the real-time clock last reported an update.
pub fn last_rtc_update(t: &TimerState) -> (r: usize)
    ensures
        r == t.last_rtc_update_spec(),
{
    t.last_rtc_update
}

/// The timer line's handler: one more tick (the counter wraps).
pub fn pit_interrupt_handler(t: &mut TimerState)
    ensures
        final(t).ticks_spec() == if old(t).ticks_spec() == usize::MAX {
            0
        } else {
            (old(t).ticks_spec() + 1) as usize
        },
        final(t).last_rtc_update_spec() == old(t).last_rtc_update_spec(),
        final(t).clocks_per_nanosecond_spec() == old(t).clocks_per_nanosecond_spec(),
{
    t.pit_ticks = t.pit_ticks.wrapping_add(1);
}

/// The clock line's handler: remember the tick count of this update (the
/// caller then acknowledges the clock chip).
pub fn rtc_interrupt_handler(t: &mut TimerState)
    ensures
        final(t).last_rtc_update_spec() == old(t).ticks_spec(),
        final(t).ticks_spec() == old(t).ticks_spec(),
        final(t).clocks_per_nanosecond_spec() == old(t).clocks_per_nanosecond_spec(),
{
    t.last_rtc_update = t.pit_ticks;
}

/// One step of a busy wait of `nanoseconds`: whether a cycle counter that
/// read `start` when the wait began and reads `now` has not yet advanced by
/// the calibrated number of cycles.
pub fn nanowait(t: &TimerState, nanoseconds: u64, start: u64, now: u64) -> (keep_waiting: bool)
    requires
        nanoseconds * t.clocks_per_nanosecond_spec() <= u64::MAX,
        start <= now,
    ensures
        keep_waiting == (now - start < nanoseconds * t.clocks_per_nanosecond_spec()),
{
    let delta = nanoseconds * t.clocks_per_nanosecond;
    now - start < delta
}

/// The port writes that program one timer channel.
#[derive(Clone, Copy, Debug, PartialEq, Eq, Structural)]
pub struct PitProgram {
    pub command_port: u16,
    pub command: u8,
    pub data_port: u16,
    pub low: u8,
    pub high: u8,
}

/// Programs `channel` in rate-generator-like mode 6 with lobyte/hibyte
/// access and the given divider.
pub fn set_pit_frequency_divider(divider: u16, channel: u8) -> (p: PitProgram)
    requires
        channel < 4,
    ensures
        p.command_port == PIT_COMMAND_PORT,
        p.command == channel * 64 + 3 * 16 + 6,
        p.data_port == PIT_CHANNEL0_PORT + channel,
        p.low == divider % 256,
        p.high == divider / 256,
{
    let operating_mode: u8 = 6;
    let access_mode: u8 = 3;
    let command = (channel << 6u8) | (access_mode << 4u8) | operating_mode;
    assert(command == channel * 64 + 3 * 16 + 6) by (bit_vector)
        requires
            channel < 4,
            operating_mode == 6,
            access_mode == 3,
            command == (channel << 6u8) | (access_mode << 4u8) | operating_mode,
    ;
    PitProgram {
        command_port: PIT_COMMAND_PORT,
        command,
        data_port: PIT_CHANNEL0_PORT + channel as u16,
        low: (divider % 256) as u8,
        high: (divider / 256) as u8,
    }
}

/// Sets up timekeeping: installs the timer and clock handlers (unmasking
/// both lines) and returns how channel 0 is to be programmed.
pub fn init<H: Copy>(
    table: &mut IrqTable<H>,
    masks: &mut PicMasks,
    pit_handler: H,
    rtc_handler: H,
) -> (p: PitProgram)
    requires
        old(table).wf(),
    ensures
        final(table).wf(),
        final(table)@ == old(table)@.update(Irq::Timer.line_spec() as int, pit_handler).update(
            Irq::Rtc.line_spec() as int,
            rtc_handler,
        ),
        final(masks).word() == old(masks).word() & !(1u16 << 0u16) & !(1u16 << 8u16),
        p == (PitProgram {
            command_port: PIT_COMMAND_PORT,
            command: 0x36,
            data_port: PIT_CHANNEL0_PORT,
            low: 0,
            high: 0,
        }),
{
    let divider: u16 = if PIT_DIVIDER < 65536 {
        PIT_DIVIDER as u16
    } else {
        0
    };
    let program = set_pit_frequency_divider(divider, 0);
    set_irq_handler(table, masks, Irq::Timer.line(), pit_handler);
    set_irq_handler(table, masks, Irq::Rtc.line(), rtc_handler);
    program
}

} // verus!
