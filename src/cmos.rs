//! Real-time clock readings and their decoding from the CMOS registers.

use vstd::prelude::*;

verus! {

/// The century the two-digit year register counts from.
pub const RTC_CENTURY: u16 = 2000;

/// Status register B bit: values are binary rather than BCD.
pub const STATUS_B_BINARY: u8 = 0x04;

/// Status register B bit: hours are in 24-hour form.
pub const STATUS_B_24_HOUR: u8 = 0x02;

/// A date and time of day as the real-time clock keeps it.
#[derive(Clone, Copy, Debug, PartialEq, Eq, Structural)]
pub struct Rtc {
    pub year: u16,
    pub month: u8,
    pub day: u8,
    pub hour: u8,
    pub minute: u8,
    pub second: u8,
}

/// The raw time registers and status register B, as read (twice, until two
/// reads agree) from the chip.
#[derive(Clone, Copy, Debug, PartialEq, Eq, Structural)]
pub struct RtcRegisters {
    pub second: u8,
    pub minute: u8,
    pub hour: u8,
    pub day: u8,
    pub month: u8,
    pub year: u8,
    pub status_b: u8,
}

/// A two-digit BCD value as a binary number.
pub open spec fn bcd_value(v: int) -> int {
    v % 16 + (v / 16) * 10
}

/// The hour register decoded from BCD; bit 7 (the PM flag) is kept.
pub open spec fn bcd_hour(h: u8) -> int {
    let low = (h & 0x0F) as int + ((h & 0x70) as int / 16) * 10;
    if h & 0x80 != 0 { low + 128 } else { low }
}

/// The hour after the BCD step, as the decoder leaves it.
pub open spec fn decoded_hour_raw(r: RtcRegisters) -> int {
    if r.status_b & STATUS_B_BINARY == 0 { bcd_hour(r.hour) } else { r.hour as int }
}

/// What the decoder makes of the registers: BCD values are converted unless
/// register B says binary; in 12-hour form an hour without bit 7 is moved
/// on by 12 (modulo 24); the year is counted from 2000.
pub open spec fn decode_rtc(r: RtcRegisters) -> Rtc {
    let bcd = r.status_b & STATUS_B_BINARY == 0;
    let hour = decoded_hour_raw(r);
    let hour = if r.status_b & STATUS_B_24_HOUR == 0 && (hour as u8) & 0x80 == 0 {
        ((hour % 128) + 12) % 24
    } else {
        hour
    };
    Rtc {
        second: (if bcd { bcd_value(r.second as int) } else { r.second as int }) as u8,
        minute: (if bcd { bcd_value(r.minute as int) } else { r.minute as int }) as u8,
        hour: hour as u8,
        day: (if bcd { bcd_value(r.day as int) } else { r.day as int }) as u8,
        month: (if bcd { bcd_value(r.month as int) } else { r.month as int }) as u8,
        year: ((if bcd { bcd_value(r.year as int) } else { r.year as int }) + RTC_CENTURY) as u16,
    }
}

fn from_bcd(v: u8) -> (r: u8)
    ensures
        r == bcd_value(v as int),
{
    assert((v & 0x0F) == v % 16) by (bit_vector);
    (v & 0x0F) + ((v / 16) * 10)
}

impl Rtc {
    /// Decodes a consistent set of register values into a date and time.
    pub fn new(raw: &RtcRegisters) -> (rtc: Rtc)
        ensures
            rtc == decode_rtc(*raw),
    {
        let bcd = raw.status_b & STATUS_B_BINARY == 0;
        let mut rtc = Rtc {
            second: raw.second,
            minute: raw.minute,
            hour: raw.hour,
            day: raw.day,
            month: raw.month,
            year: raw.year as u16,
        };
        if bcd {
            rtc.second = from_bcd(raw.second);
            rtc.minute = from_bcd(raw.minute);
            let h = raw.hour;
            assert((h & 0x70) / 16 <= 7 && (h & 0x0F) <= 15) by (bit_vector);
            let low = (h & 0x0F) + (((h & 0x70) / 16) * 10);
            assert(low < 128 ==> (low | (h & 0x80)) == if h & 0x80 != 0 {
                (low + 128) as u8
            } else {
                low
            }) by (bit_vector);
            rtc.hour = low | (h & 0x80);
            rtc.day = from_bcd(raw.day);
            rtc.month = from_bcd(raw.month);
            rtc.year = from_bcd(raw.year) as u16;
        }
        proof {
            assert(rtc.hour as int == decoded_hour_raw(*raw));
        }
        if raw.status_b & STATUS_B_24_HOUR == 0 && rtc.hour & 0x80 == 0 {
            let h = rtc.hour;
            assert(h & 0x80 == 0 ==> (h & 0x7F) == h % 128) by (bit_vector);
            rtc.hour = ((h & 0x7F) + 12) % 24;
        }
        rtc.year = rtc.year + RTC_CENTURY;
        rtc
    }

    /// Length of the printed form `YYYY-MM-DD HH:MM:SS`.
    pub fn size() -> (r: usize)
        ensures
            r == 19,
    {
        19
    }

    /// Replaces this reading by a fresh one decoded from `raw`.
    pub fn sync(&mut self, raw: &RtcRegisters)
        ensures
            *final(self) == decode_rtc(*raw),
    {
        *self = Rtc::new(raw);
    }
}

/// A binary value as two BCD digits.
pub open spec fn bcd_encoded(v: int) -> int {
    16 * (v / 10) + v % 10
}

/// Whether `rtc` can be written to a chip whose status register B is
/// `status_b`: the year is 2000 or later, in 12-hour form the hour is 1 to 12,
/// and every value fits its register in the chip's encoding.
pub open spec fn encodable(rtc: Rtc, status_b: u8) -> bool {
    let year = rtc.year - RTC_CENTURY;
    &&& rtc.year >= RTC_CENTURY
    &&& status_b & STATUS_B_24_HOUR == 0 ==> 1 <= rtc.hour <= 12
    &&& status_b & STATUS_B_BINARY == 0 ==> {
        &&& rtc.second < 160 && rtc.minute < 160 && rtc.hour < 160
        &&& rtc.day < 160 && rtc.month < 160 && year < 160
    }
    &&& year <= 255
}

/// The register values that set the chip to `rtc`.
pub open spec fn encode_rtc_spec(rtc: Rtc, status_b: u8) -> RtcRegisters {
    let bcd = status_b & STATUS_B_BINARY == 0;
    let year = rtc.year - RTC_CENTURY;
    RtcRegisters {
        second: (if bcd { bcd_encoded(rtc.second as int) } else { rtc.second as int }) as u8,
        minute: (if bcd { bcd_encoded(rtc.minute as int) } else { rtc.minute as int }) as u8,
        hour: (if bcd { bcd_encoded(rtc.hour as int) } else { rtc.hour as int }) as u8,
        day: (if bcd { bcd_encoded(rtc.day as int) } else { rtc.day as int }) as u8,
        month: (if bcd { bcd_encoded(rtc.month as int) } else { rtc.month as int }) as u8,
        year: (if bcd { bcd_encoded(year) } else { year }) as u8,
        status_b,
    }
}

proof fn lemma_bcd_round_trip(v: u8)
    requires
        v < 100,
    ensures
        bcd_value(bcd_encoded(v as int)) == v,
{
    assert(bcd_encoded(v as int) % 16 == v % 10 && bcd_encoded(v as int) / 16 == v / 10);
}

proof fn lemma_bcd_hour_round_trip(v: u8)
    requires
        v < 80,
    ensures
        bcd_hour(bcd_encoded(v as int) as u8) == v,
{
    let hi: u8 = v / 10;
    let lo: u8 = v % 10;
    let h: u8 = (hi << 4u8) | lo;
    assert((h & 0x0F) == lo && (h & 0x70) / 16 == hi && h & 0x80 == 0) by (bit_vector)
        requires
            hi < 8,
            lo < 10,
            h == (hi << 4u8) | lo,
    ;
    assert(h == (hi as u16 * 16 + lo as u16) as u8) by (bit_vector)
        requires
            hi < 8,
            lo < 10,
            h == (hi << 4u8) | lo,
    ;
    assert(h as int == bcd_encoded(v as int));
}

/// In 24-hour form, decoding what `encode_rtc` writes gives the reading
/// back: in BCD form for values of two digits (years 2000 to 2099, hours
/// below 80, since bit 7 of the hour register is a flag), in binary form for
/// every value that can be written.
pub proof fn lemma_rtc_round_trip(rtc: Rtc, status_b: u8)
    requires
        encodable(rtc, status_b),
        status_b & STATUS_B_24_HOUR != 0,
        status_b & STATUS_B_BINARY == 0 ==> {
            &&& rtc.second < 100 && rtc.minute < 100 && rtc.hour < 80
            &&& rtc.day < 100 && rtc.month < 100 && rtc.year - RTC_CENTURY < 100
        },
    ensures
        decode_rtc(encode_rtc_spec(rtc, status_b)) == rtc,
{
    let year = (rtc.year - RTC_CENTURY) as u8;
    if status_b & STATUS_B_BINARY == 0 {
        lemma_bcd_round_trip(rtc.second);
        lemma_bcd_round_trip(rtc.minute);
        lemma_bcd_hour_round_trip(rtc.hour);
        lemma_bcd_round_trip(rtc.day);
        lemma_bcd_round_trip(rtc.month);
        lemma_bcd_round_trip(year);
    }
}

fn to_bcd(v: u8) -> (r: u8)
    requires
        v < 160,
    ensures
        r == bcd_encoded(v as int),
{
    16 * (v / 10) + (v % 10)
}

/// The values to write to the time registers to set the clock to `rtc`,
/// given the chip's status register B.
pub fn encode_rtc(rtc: &Rtc, status_b: u8) -> (r: RtcRegisters)
    requires
        encodable(*rtc, status_b),
    ensures
        r == encode_rtc_spec(*rtc, status_b),
{
    let year = rtc.year - RTC_CENTURY;
    if status_b & STATUS_B_BINARY == 0 {
        RtcRegisters {
            second: to_bcd(rtc.second),
            minute: to_bcd(rtc.minute),
            hour: to_bcd(rtc.hour),
            day: to_bcd(rtc.day),
            month: to_bcd(rtc.month),
            year: to_bcd(year as u8),
            status_b,
        }
    } else {
        RtcRegisters {
            second: rtc.second,
            minute: rtc.minute,
            hour: rtc.hour,
            day: rtc.day,
            month: rtc.month,
            year: year as u8,
            status_b,
        }
    }
}

/// The interrupt sources of the clock chip, enabled through register B.
#[derive(Clone, Copy, Debug, PartialEq, Eq, Structural)]
pub enum Interrupt {
    Periodic,
    Alarm,
    Update,
}

impl Interrupt {
    pub open spec fn bit_spec(&self) -> u8 {
        match self {
            Interrupt::Periodic => 0x40,
            Interrupt::Alarm => 0x20,
            Interrupt::Update => 0x10,
        }
    }

    /// The bit of register B that enables this source.
    pub fn bit(&self) -> (r: u8)
        ensures
            r == self.bit_spec(),
    {
        match self {
            Interrupt::Periodic => 0x40,
            Interrupt::Alarm => 0x20,
            Interrupt::Update => 0x10,
        }
    }
}

/// Register B with `interrupt` enabled, given its previous value.
pub fn enable_interrupt_value(prev: u8, interrupt: Interrupt) -> (r: u8)
    ensures
        r == prev | interrupt.bit_spec(),
{
    prev | interrupt.bit()
}

/// Register A with the periodic rate set to `rate`, given its previous
/// value: the upper nibble is kept.
pub fn periodic_rate_value(prev: u8, rate: u8) -> (r: u8)
    ensures
        r == (prev & 0xF0) | rate,
{
    (prev & 0xF0) | rate
}

/// The address register with non-maskable interrupts disabled (bit 7 set).
pub fn nmi_disabled(prev: u8) -> (r: u8)
    ensures
        r == prev | 0x80,
{
    prev | 0x80
}

/// The address register with non-maskable interrupts enabled (bit 7 clear).
pub fn nmi_enabled(prev: u8) -> (r: u8)
    ensures
        r == prev & 0x7F,
{
    prev & 0x7F
}

} // verus!
