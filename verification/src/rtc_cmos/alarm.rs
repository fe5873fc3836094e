//! Alarm readback and programming, the alarm's reach, and its range check.

use vstd::prelude::*;
use crate::rtc_cmos::bcd::{
    bcd_to_binary, binary_to_bcd, uses_bcd, spec_uses_bcd, bcd_value, bcd_of, lemma_bcd_round_trip,
};
use crate::rtc_cmos::registers::{AIE, DM_BINARY};

verus! {

/// How long to wait to avoid an update in progress, in milliseconds.
pub const UIP_AVOID_TIMEOUT_MS: u32 = 10;

/// Seconds in a day.
pub const SECS_PER_DAY: i64 = 24 * 60 * 60;

/// Seconds in the shortest month.
pub const SECS_PER_MONTH: i64 = 28 * SECS_PER_DAY;

/// Seconds in a year of 365 days.
pub const SECS_PER_YEAR: i64 = 365 * SECS_PER_DAY;

/// ACPI alarm registers must lie in the first bank, below this number.
pub const ACPI_REGISTER_LIMIT: u8 = 128;

/// How far ahead an alarm can be set, given the alarm registers present.
#[derive(Debug, Clone, Copy, PartialEq, Eq)]
pub enum AlarmRange {
    Day,
    Month,
    Year,
}

/// The alarm reaches and their names, shortest first.
pub const ALARM_RANGES: [(&'static str, AlarmRange); 3] = [
    ("day", AlarmRange::Day),
    ("month", AlarmRange::Month),
    ("year", AlarmRange::Year),
];

/// Alarm fields as stored; `day` and `month` are absent without the enhanced registers.
#[derive(Debug, Clone, Copy, PartialEq, Eq)]
pub struct RawAlarm {
    pub second: u8,
    pub minute: u8,
    pub hour: u8,
    pub day: Option<u8>,
    pub month: Option<u8>,
}

/// Alarm time fields; `-1` marks a field that is unavailable or a wildcard.
#[derive(Debug, Clone, Copy, PartialEq, Eq)]
pub struct AlarmTime {
    pub second: i16,
    pub minute: i16,
    pub hour: i16,
    pub day: i16,
    /// Zero-based month, or `-1`.
    pub month: i16,
}

/// A decoded alarm and its register-B state.
#[derive(Debug, Clone, Copy, PartialEq, Eq)]
pub struct DecodedAlarm {
    pub time: AlarmTime,
    pub enabled: bool,
    pub pending: bool,
}

/// Register values to write when programming an alarm.
#[derive(Debug, Clone, Copy, PartialEq, Eq)]
pub struct EncodedAlarm {
    pub second: u8,
    pub minute: u8,
    pub hour: u8,
    pub day: Option<u8>,
    pub month: Option<u8>,
}

/// Refusal of an alarm later than the hardware can tell apart, naming its reach.
#[derive(Debug, Clone, Copy, PartialEq, Eq)]
pub enum AlarmRefusal {
    AlarmBeyondDay { alarm: i64, latest: i64 },
    AlarmBeyondMonth { alarm: i64, latest: i64 },
    AlarmBeyondYear { alarm: i64, latest: i64 },
}

/// An ACPI alarm register number, or zero when it is not in the first bank.
pub fn sanitize_acpi_register(register: u8) -> (r: u8)
    ensures
        r == (if register >= ACPI_REGISTER_LIMIT { 0 } else { register }),
{
    if register >= ACPI_REGISTER_LIMIT {
        0
    } else {
        register
    }
}

/// The alarm's reach: a month register gives a year, a day register a month, neither a day.
pub fn alarm_range(day_register: u8, month_register: u8) -> (r: AlarmRange)
    ensures
        r == (if month_register != 0 {
            AlarmRange::Year
        } else if day_register != 0 {
            AlarmRange::Month
        } else {
            AlarmRange::Day
        }),
{
    if month_register != 0 {
        AlarmRange::Year
    } else if day_register != 0 {
        AlarmRange::Month
    } else {
        AlarmRange::Day
    }
}

/// The largest alarm offset, in seconds, for a reach: one second short of a day, a 28-day
/// month, or a 365-day year.
pub open spec fn spec_offset_max(range: AlarmRange) -> i64 {
    match range {
        AlarmRange::Day => (SECS_PER_DAY - 1) as i64,
        AlarmRange::Month => (SECS_PER_MONTH - 1) as i64,
        AlarmRange::Year => (SECS_PER_YEAR - 1) as i64,
    }
}

/// The largest alarm offset for a reach.
pub fn alarm_offset_max(range: AlarmRange) -> (r: i64)
    ensures
        r == spec_offset_max(range),
{
    match range {
        AlarmRange::Day => SECS_PER_DAY - 1,
        AlarmRange::Month => SECS_PER_MONTH - 1,
        AlarmRange::Year => SECS_PER_YEAR - 1,
    }
}

/// Accepts an alarm at or before the latest time; refuses a later one, naming the reach.
pub fn validate_alarm(range: AlarmRange, alarm_timestamp: i64, maximum_timestamp: i64) -> (r:
    Result<(), AlarmRefusal>)
    ensures
        alarm_timestamp <= maximum_timestamp ==> r is Ok,
        alarm_timestamp > maximum_timestamp ==> r == Err::<(), AlarmRefusal>(
            match range {
                AlarmRange::Day => AlarmRefusal::AlarmBeyondDay {
                    alarm: alarm_timestamp,
                    latest: maximum_timestamp,
                },
                AlarmRange::Month => AlarmRefusal::AlarmBeyondMonth {
                    alarm: alarm_timestamp,
                    latest: maximum_timestamp,
                },
                AlarmRange::Year => AlarmRefusal::AlarmBeyondYear {
                    alarm: alarm_timestamp,
                    latest: maximum_timestamp,
                },
            },
        ),
{
    if alarm_timestamp <= maximum_timestamp {
        return Ok(());
    }
    Err(
        match range {
            AlarmRange::Day => AlarmRefusal::AlarmBeyondDay {
                alarm: alarm_timestamp,
                latest: maximum_timestamp,
            },
            AlarmRange::Month => AlarmRefusal::AlarmBeyondMonth {
                alarm: alarm_timestamp,
                latest: maximum_timestamp,
            },
            AlarmRange::Year => AlarmRefusal::AlarmBeyondYear {
                alarm: alarm_timestamp,
                latest: maximum_timestamp,
            },
        },
    )
}

/// A BCD field below `limit` read as its value; anything else is `-1`.
pub open spec fn bcd_field(v: u8, limit: u8) -> i16 {
    if v < limit {
        bcd_value(v) as i16
    } else {
        -1i16
    }
}

/// The alarm time read from the registers. The day's top two bits are ignored and a zero day
/// or month means unavailable. In BCD mode seconds and minutes must be below 0x60, hours
/// below 0x24, the day at most 0x31 and the month at most 0x12 (made zero-based); a field past
/// its limit reads as `-1i16`. In binary mode values are taken as they are.
pub open spec fn spec_decode_time(raw: RawAlarm, bcd: bool) -> AlarmTime {
    if bcd {
        AlarmTime {
            second: bcd_field(raw.second, 0x60),
            minute: bcd_field(raw.minute, 0x60),
            hour: bcd_field(raw.hour, 0x24),
            day: match raw.day {
                None => -1i16,
                Some(v) => {
                    let d = (v & 0x3f) as u8;
                    if d != 0 && d <= 0x31 {
                        bcd_value(d) as i16
                    } else {
                        -1i16
                    }
                },
            },
            month: match raw.month {
                None => -1i16,
                Some(v) => if v <= 0x12 {
                    (bcd_value(v) - 1) as i16
                } else {
                    -1i16
                },
            },
        }
    } else {
        AlarmTime {
            second: raw.second as i16,
            minute: raw.minute as i16,
            hour: raw.hour as i16,
            day: match raw.day {
                None => -1i16,
                Some(v) => if v & 0x3f == 0 {
                    -1i16
                } else {
                    (v & 0x3f) as i16
                },
            },
            month: match raw.month {
                None => -1i16,
                Some(v) => if v == 0 {
                    -1i16
                } else {
                    v as i16
                },
            },
        }
    }
}

fn decode_bcd_below(value: u8, limit: u8) -> (r: i16)
    ensures
        r == bcd_field(value, limit),
{
    if value < limit {
        bcd_to_binary(value) as i16
    } else {
        -1
    }
}

/// Decodes the alarm registers; the alarm is enabled when register B has AIE set, and is
/// never reported pending.
pub fn decode_alarm(raw: RawAlarm, control_b: u8, always_bcd: bool) -> (r: DecodedAlarm)
    ensures
        r == (DecodedAlarm {
            time: spec_decode_time(raw, spec_uses_bcd(control_b, always_bcd)),
            enabled: control_b & AIE != 0,
            pending: false,
        }),
{
    let mut time = AlarmTime {
        second: raw.second as i16,
        minute: raw.minute as i16,
        hour: raw.hour as i16,
        day: match raw.day {
            None => -1,
            Some(v) => (v & 0x3f) as i16,
        },
        month: match raw.month {
            None => -1,
            Some(v) => v as i16,
        },
    };
    if time.day == 0 {
        time.day = -1;
    }
    if time.month == 0 {
        time.month = -1;
    }
    if uses_bcd(control_b, always_bcd) {
        time.second = decode_bcd_below(raw.second, 0x60);
        time.minute = decode_bcd_below(raw.minute, 0x60);
        time.hour = decode_bcd_below(raw.hour, 0x24);
        match raw.day {
            Some(value) => {
                let value = value & 0x3f;
                time.day =
                    if value != 0 && value <= 0x31 {
                        bcd_to_binary(value) as i16
                    } else {
                        -1
                    };
            },
            None => {},
        }
        match raw.month {
            Some(value) => {
                time.month =
                    if value <= 0x12 {
                        bcd_to_binary(value) as i16 - 1
                    } else {
                        -1
                    };
            },
            None => {},
        }
    }
    DecodedAlarm { time, enabled: control_b & AIE != 0, pending: false }
}

/// `v` in BCD when below `limit`, else the wildcard 0xff.
pub open spec fn bcd_or_wild(v: u8, limit: u8) -> u8 {
    if v < limit {
        bcd_of(v)
    } else {
        0xff
    }
}

/// The register values for an alarm: each field narrowed to eight bits (the month made
/// one-based first); the day and month only where their registers exist. In BCD mode a field
/// out of range (seconds and minutes 60 or more, hours 24 or more, a day outside 1 to 31, a
/// month past 12) becomes the wildcard 0xff.
pub open spec fn spec_encode(
    time: AlarmTime,
    bcd: bool,
    day_register: u8,
    month_register: u8,
) -> EncodedAlarm {
    let month = ((time.month + 1) as i16) as u8;
    let day = time.day as u8;
    if bcd {
        EncodedAlarm {
            second: bcd_or_wild(time.second as u8, 60),
            minute: bcd_or_wild(time.minute as u8, 60),
            hour: bcd_or_wild(time.hour as u8, 24),
            day: if day_register != 0 {
                Some(
                    if 1 <= day <= 31 {
                        bcd_of(day)
                    } else {
                        0xff
                    },
                )
            } else {
                None
            },
            month: if month_register != 0 {
                Some(bcd_or_wild(month, 13))
            } else {
                None
            },
        }
    } else {
        EncodedAlarm {
            second: time.second as u8,
            minute: time.minute as u8,
            hour: time.hour as u8,
            day: if day_register != 0 {
                Some(day)
            } else {
                None
            },
            month: if month_register != 0 {
                Some(month)
            } else {
                None
            },
        }
    }
}

fn wrapping_u8(value: i16) -> (r: u8)
    ensures
        r == value as u8,
{
    value as u8
}

fn encode_bcd_below(value: u8, limit: u8) -> (r: u8)
    ensures
        r == bcd_or_wild(value, limit),
{
    if value < limit {
        binary_to_bcd(value)
    } else {
        0xff
    }
}

/// Encodes an alarm for the registers.
pub fn encode_alarm(
    time: AlarmTime,
    control_b: u8,
    always_bcd: bool,
    day_register: u8,
    month_register: u8,
) -> (r: EncodedAlarm)
    requires
        time.month < i16::MAX,
    ensures
        r == spec_encode(time, spec_uses_bcd(control_b, always_bcd), day_register, month_register),
{
    let mut encoded = EncodedAlarm {
        month: if month_register != 0 {
            Some(wrapping_u8(time.month + 1))
        } else {
            None
        },
        day: if day_register != 0 {
            Some(wrapping_u8(time.day))
        } else {
            None
        },
        hour: wrapping_u8(time.hour),
        minute: wrapping_u8(time.minute),
        second: wrapping_u8(time.second),
    };
    if uses_bcd(control_b, always_bcd) {
        encoded.month =
            match encoded.month {
                Some(v) => Some(
                    if v <= 12 {
                        binary_to_bcd(v)
                    } else {
                        0xff
                    },
                ),
                None => None,
            };
        encoded.day =
            match encoded.day {
                Some(v) => Some(
                    if 1 <= v && v <= 31 {
                        binary_to_bcd(v)
                    } else {
                        0xff
                    },
                ),
                None => None,
            };
        encoded.hour = encode_bcd_below(encoded.hour, 24);
        encoded.minute = encode_bcd_below(encoded.minute, 60);
        encoded.second = encode_bcd_below(encoded.second, 60);
    }
    encoded
}

/// A time the alarm registers can hold: seconds and minutes below 60, hours below 24, a day
/// from 1 to 31, and a zero-based month from 0 to 11.
pub open spec fn alarm_time_in_range(t: AlarmTime) -> bool {
    &&& 0 <= t.second < 60
    &&& 0 <= t.minute < 60
    &&& 0 <= t.hour < 24
    &&& 1 <= t.day <= 31
    &&& 0 <= t.month < 12
}

/// In BCD mode, with both enhanced registers present, an alarm time that the registers can
/// hold reads back unchanged after it is programmed.
pub proof fn lemma_bcd_alarm_round_trip(t: AlarmTime)
    requires
        alarm_time_in_range(t),
    ensures
        ({
            let e = spec_encode(t, true, 1, 1);
            let raw = RawAlarm {
                second: e.second,
                minute: e.minute,
                hour: e.hour,
                day: e.day,
                month: e.month,
            };
            spec_decode_time(raw, true) == t
        }),
{
    let s = t.second as u8;
    let m = t.minute as u8;
    let h = t.hour as u8;
    let d = t.day as u8;
    let mo = ((t.month + 1) as i16) as u8;
    assert(s == t.second && m == t.minute && h == t.hour && d == t.day && mo == t.month + 1);
    lemma_bcd_round_trip(s);
    lemma_bcd_round_trip(m);
    lemma_bcd_round_trip(h);
    lemma_bcd_round_trip(d);
    lemma_bcd_round_trip(mo);
    assert(bcd_of(s) < 0x60 && bcd_of(m) < 0x60 && bcd_of(h) < 0x24);
    assert(bcd_of(mo) <= 0x12);
    let bd = bcd_of(d);
    assert(bd <= 0x31 && bd != 0);
    assert(bd & 0x3f == bd) by (bit_vector)
        requires
            bd <= 0x31,
    ;
}

/// In binary mode (register B selects binary and the platform does not force BCD) programming
/// converts nothing: each field is the time's value narrowed to eight bits, the month made
/// one-based first, and the day and month appear exactly when their registers exist. So a time
/// the registers can hold reads back in binary mode with the same second, minute, hour and day,
/// and with the month one-based (binary readback does not make it zero-based again).
pub proof fn lemma_binary_alarm_is_not_converted(
    t: AlarmTime,
    control_b: u8,
    always_bcd: bool,
    day_register: u8,
    month_register: u8,
)
    requires
        control_b & DM_BINARY != 0,
        !always_bcd,
        t.month < i16::MAX,
    ensures
        ({
            let e = spec_encode(t, spec_uses_bcd(control_b, always_bcd), day_register, month_register);
            &&& e.second == t.second as u8
            &&& e.minute == t.minute as u8
            &&& e.hour == t.hour as u8
            &&& e.day == (if day_register != 0 {
                Some(t.day as u8)
            } else {
                None
            })
            &&& e.month == (if month_register != 0 {
                Some((t.month + 1) as u8)
            } else {
                None
            })
            &&& alarm_time_in_range(t) && day_register != 0 && month_register != 0 ==> {
                let back = spec_decode_time(
                    RawAlarm {
                        second: e.second,
                        minute: e.minute,
                        hour: e.hour,
                        day: e.day,
                        month: e.month,
                    },
                    spec_uses_bcd(control_b, always_bcd),
                );
                &&& back.second == t.second
                &&& back.minute == t.minute
                &&& back.hour == t.hour
                &&& back.day == t.day
                &&& back.month == t.month + 1
            }
        }),
{
    assert(!spec_uses_bcd(control_b, always_bcd));
    if alarm_time_in_range(t) {
        let d = t.day as u8;
        assert(d & 0x3f == d) by (bit_vector)
            requires
                d <= 31,
        ;
    }
}

} // verus!
