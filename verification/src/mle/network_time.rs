//! The TETRA network time element (ETSI TS 100 392-2, table 18.100).

use time::{OffsetDateTime, UtcOffset};
use vstd::prelude::*;

verus! {

/// An instant, with the offset of local time from UTC.
#[derive(Clone, Copy, Debug, PartialEq, Eq, Structural)]
pub struct LocalTime {
    /// Seconds since 1970-01-01 00:00:00 UTC.
    pub unix_seconds: i64,
    /// Seconds by which local time is ahead of UTC.
    pub offset_seconds: i32,
}

// ---------------------------------------------------------------------------
// The calendar
// ---------------------------------------------------------------------------

/// Days from 0001-01-01 to the first of January of year `y` of the Gregorian
/// calendar.
pub open spec fn days_before(y: int) -> int {
    365 * (y - 1) + (y - 1) / 4 - (y - 1) / 100 + (y - 1) / 400
}

/// Days from 1970-01-01 to the first of January of year `y`.
pub open spec fn year_start(y: int) -> int {
    days_before(y) - days_before(1970)
}

/// Whether a day, counted from 1970-01-01, lies in year `y`.
pub open spec fn in_year(day: int, y: int) -> bool {
    year_start(y) <= day < year_start(y + 1)
}

/// The year that a day lies in.
pub open spec fn year_of(day: int) -> int {
    choose|y: int| in_year(day, y)
}

/// The day that an instant lies in.
pub open spec fn day_of(seconds: int) -> int {
    seconds / 86_400
}

/// Whether an instant lies in the years -9999 to 9999.
pub open spec fn in_calendar(seconds: int) -> bool {
    86_400 * year_start(-9999) <= seconds < 86_400 * year_start(10_000)
}

impl LocalTime {
    /// Whether the instant, both as UTC and as local time, lies in the calendar,
    /// with an offset of less than 26 hours.
    pub open spec fn wf(self) -> bool {
        &&& in_calendar(self.unix_seconds as int)
        &&& in_calendar(self.unix_seconds + self.offset_seconds)
        &&& -93_599 <= self.offset_seconds <= 93_599
    }
}

/// A year has 365 or 366 days, and years follow each other.
proof fn lemma_year_length(y: int)
    ensures
        365 <= year_start(y + 1) - year_start(y) <= 366,
{
}

/// Later years start later.
proof fn lemma_years_ascend(y: int, z: int)
    requires
        y <= z,
    ensures
        365 * (z - y) <= year_start(z) - year_start(y) <= 366 * (z - y),
    decreases z - y,
{
    if y < z {
        lemma_years_ascend(y, z - 1);
        lemma_year_length(z - 1);
    }
}

/// Some year holds the day.
proof fn lemma_year_exists(day: int) -> (y: int)
    ensures
        in_year(day, y),
    decreases (if day >= 0 {
        day
    } else {
        -day
    }),
{
    if day == 0 {
        lemma_year_length(1970);
        1970
    } else if day > 0 {
        let y = lemma_year_exists(day - 1);
        lemma_year_length(y + 1);
        if in_year(day, y) {
            y
        } else {
            y + 1
        }
    } else {
        let y = lemma_year_exists(day + 1);
        lemma_year_length(y - 1);
        if in_year(day, y) {
            y
        } else {
            y - 1
        }
    }
}

/// Every day lies in exactly one year.
pub proof fn law_year_is_unique(day: int)
    ensures
        in_year(day, year_of(day)),
        forall|y: int| in_year(day, y) ==> y == year_of(day),
{
    let w = lemma_year_exists(day);
    assert(in_year(day, w));
    let y0 = year_of(day);
    assert forall|y: int| in_year(day, y) implies y == y0 by {
        if y < y0 {
            lemma_years_ascend(y + 1, y0);
        } else if y0 < y {
            lemma_years_ascend(y0 + 1, y);
        }
    }
}

// ---------------------------------------------------------------------------
// What the calendar crate computes
// ---------------------------------------------------------------------------

/// `time::OffsetDateTime::ordinal`, at UTC: the day of the year, counted from 1.
#[verifier::external_body]
fn utc_ordinal(unix_seconds: i64) -> (r: u16)
    requires
        in_calendar(unix_seconds as int),
    ensures
        r == day_of(unix_seconds as int) - year_start(year_of(day_of(unix_seconds as int))) + 1,
{
    OffsetDateTime::from_unix_timestamp(unix_seconds).unwrap().ordinal()
}

/// `time::OffsetDateTime::hour`, at UTC: the hour of the day.
#[verifier::external_body]
fn utc_hour(unix_seconds: i64) -> (r: u8)
    requires
        in_calendar(unix_seconds as int),
    ensures
        r == (unix_seconds as int % 86_400) / 3600,
{
    OffsetDateTime::from_unix_timestamp(unix_seconds).unwrap().hour()
}

/// `time::OffsetDateTime::minute`, at UTC: the minute of the hour.
#[verifier::external_body]
fn utc_minute(unix_seconds: i64) -> (r: u8)
    requires
        in_calendar(unix_seconds as int),
    ensures
        r == (unix_seconds as int % 3600) / 60,
{
    OffsetDateTime::from_unix_timestamp(unix_seconds).unwrap().minute()
}

/// `time::OffsetDateTime::second`, at UTC: the second of the minute.
#[verifier::external_body]
fn utc_second(unix_seconds: i64) -> (r: u8)
    requires
        in_calendar(unix_seconds as int),
    ensures
        r == unix_seconds as int % 60,
{
    OffsetDateTime::from_unix_timestamp(unix_seconds).unwrap().second()
}

/// `time::OffsetDateTime::year`, in local time: the year of the Gregorian
/// calendar.
#[verifier::external_body]
fn local_year(unix_seconds: i64, offset_seconds: i32) -> (r: i32)
    requires
        in_calendar(unix_seconds as int),
        in_calendar(unix_seconds + offset_seconds),
        -93_599 <= offset_seconds <= 93_599,
    ensures
        in_year(day_of(unix_seconds + offset_seconds), r as int),
{
    let offset = UtcOffset::from_whole_seconds(offset_seconds).unwrap();
    OffsetDateTime::from_unix_timestamp(unix_seconds).unwrap().to_offset(offset).year()
}

// ---------------------------------------------------------------------------
// The element
// ---------------------------------------------------------------------------

/// UTC time: steps of two seconds since the year began.
pub open spec fn utc_field(now: LocalTime) -> int {
    let s = now.unix_seconds as int;
    (s - 86_400 * year_start(year_of(day_of(s)))) / 2
}

/// Local time offset: steps of a quarter of an hour, up to 14 hours; 0x3f where
/// the offset is no such step.
pub open spec fn offset_field(now: LocalTime) -> int {
    let magnitude = if now.offset_seconds < 0 {
        -now.offset_seconds
    } else {
        now.offset_seconds as int
    };
    if magnitude % 900 == 0 && magnitude / 900 <= 56 {
        magnitude / 900
    } else {
        0x3f
    }
}

/// Local year since 2000, up to 62; 0x3f for any other year.
pub open spec fn year_field(now: LocalTime) -> int {
    let y = year_of(day_of(now.unix_seconds + now.offset_seconds)) - 2000;
    if 0 <= y <= 62 {
        y
    } else {
        0x3f
    }
}

/// Sign of the local time offset: 1 where local time is behind UTC.
pub open spec fn sign_field(now: LocalTime) -> int {
    if now.offset_seconds < 0 {
        1
    } else {
        0
    }
}

/// The 48 bits of the element: UTC time (24), sign (1), offset (6), year (6),
/// and 11 ones.
pub open spec fn network_time(now: LocalTime) -> int {
    utc_field(now) * 0x100_0000 + sign_field(now) * 0x80_0000 + offset_field(now) * 0x2_0000
        + year_field(now) * 0x800 + 0x7ff
}

/// Seconds of the day, from hour, minute and second.
proof fn lemma_time_of_day(s: int)
    ensures
        s % 86_400 == ((s % 86_400) / 3600) * 3600 + ((s % 3600) / 60) * 60 + s % 60,
        0 <= s % 86_400 < 86_400,
        s == 86_400 * (s / 86_400) + s % 86_400,
{
    assert((s % 86_400) % 3600 == s % 3600);
    assert((s % 3600) % 60 == s % 60);
}

/// The UTC time, from the day of the year and the time of day.
proof fn lemma_utc_field(now: LocalTime)
    ensures
        utc_field(now) == ((day_of(now.unix_seconds as int) - year_start(
            year_of(day_of(now.unix_seconds as int)),
        )) * 86_400 + now.unix_seconds as int % 86_400) / 2,
        0 <= day_of(now.unix_seconds as int) - year_start(
            year_of(day_of(now.unix_seconds as int)),
        ) < 366,
        0 <= utc_field(now) < 15_811_200,
{
    let s = now.unix_seconds as int;
    let d = day_of(s);
    law_year_is_unique(d);
    lemma_year_length(year_of(d));
    lemma_time_of_day(s);
}

/// Taking a packed number apart.
proof fn lemma_packed(u: int, s: int, o: int, y: int)
    requires
        0 <= u <= 0xff_ffff,
        0 <= s <= 1,
        0 <= o <= 0x3f,
        0 <= y <= 0x3f,
    ensures
        ({
            let n = u * 0x100_0000 + s * 0x80_0000 + o * 0x2_0000 + y * 0x800 + 0x7ff;
            &&& 0 <= n < 0x1_0000_0000_0000
            &&& n / 0x100_0000 == u
            &&& (n / 0x80_0000) % 2 == s
            &&& (n / 0x2_0000) % 0x40 == o
            &&& (n / 0x800) % 0x40 == y
            &&& n % 0x800 == 0x7ff
        }),
{
    let n = u * 0x100_0000 + s * 0x80_0000 + o * 0x2_0000 + y * 0x800 + 0x7ff;
    assert(n / 0x80_0000 == 2 * u + s);
    assert(n / 0x2_0000 == 128 * u + 64 * s + o);
    assert(n / 0x800 == 8192 * u + 4096 * s + 64 * o + y);
}

/// The fields of the element do not overlap, and the UTC time is none of the
/// reserved values.
pub proof fn law_network_time_fields(now: LocalTime)
    ensures
        0 <= utc_field(now) < 0xf1_42ff,
        0 <= network_time(now) < 0x1_0000_0000_0000,
        network_time(now) / 0x100_0000 == utc_field(now),
        (network_time(now) / 0x80_0000) % 2 == sign_field(now),
        (network_time(now) / 0x2_0000) % 0x40 == offset_field(now),
        (network_time(now) / 0x800) % 0x40 == year_field(now),
        network_time(now) % 0x800 == 0x7ff,
        !(0x39 <= offset_field(now) <= 0x3e),
{
    lemma_utc_field(now);
    lemma_packed(utc_field(now), sign_field(now), offset_field(now), year_field(now));
}

/// Two stations that see the same instant broadcast the same UTC time, whatever
/// their local time.
pub proof fn law_utc_time_is_shared(a: LocalTime, b: LocalTime)
    requires
        a.unix_seconds == b.unix_seconds,
    ensures
        utc_field(a) == utc_field(b),
{
}

/// Within a year, the UTC time never runs backwards, and two instants that it
/// does not tell apart are less than two seconds apart.
pub proof fn law_utc_time_ascends(a: LocalTime, b: LocalTime)
    requires
        a.unix_seconds <= b.unix_seconds,
        year_of(day_of(a.unix_seconds as int)) == year_of(day_of(b.unix_seconds as int)),
    ensures
        utc_field(a) <= utc_field(b),
        utc_field(a) == utc_field(b) ==> b.unix_seconds - a.unix_seconds < 2,
{
}

/// Encode the network time element.
pub fn encode_tetra_network_time(now: LocalTime) -> (r: u64)
    requires
        now.wf(),
    ensures
        r == network_time(now),
{
    proof {
        lemma_utc_field(now);
        lemma_time_of_day(now.unix_seconds as int);
        law_year_is_unique(day_of(now.unix_seconds + now.offset_seconds));
    }
    let doy: u64 = utc_ordinal(now.unix_seconds) as u64;
    let secs_of_day: u64 = (utc_hour(now.unix_seconds) as u64) * 3600 + (utc_minute(
        now.unix_seconds,
    ) as u64) * 60 + utc_second(now.unix_seconds) as u64;
    let mut utc_units: u64 = ((doy - 1) * 86_400 + secs_of_day) / 2;
    assert(utc_units == utc_field(now));
    if utc_units > 0xff_ffff || (utc_units >= 0xf1_42ff && utc_units <= 0xff_fffe) {
        utc_units = 0xff_ffff;
    }
    let sign: u64 = if now.offset_seconds < 0 {
        1
    } else {
        0
    };
    let magnitude: u64 = if now.offset_seconds < 0 {
        (-now.offset_seconds) as u64
    } else {
        now.offset_seconds as u64
    };
    let offset_units: u64 = if magnitude % 900 != 0 || magnitude / 900 > 56 {
        0x3f
    } else {
        magnitude / 900
    };
    let year: i32 = local_year(now.unix_seconds, now.offset_seconds);
    let years: u64 = if year >= 2000 && year <= 2062 {
        (year - 2000) as u64
    } else {
        0x3f
    };
    assert((utc_units << 24) | (sign << 23) | (offset_units << 17) | (years << 11) | 0x7ff
        == utc_units * 0x100_0000 + sign * 0x80_0000 + offset_units * 0x2_0000 + years * 0x800
        + 0x7ff) by (bit_vector)
        requires
            utc_units <= 0xff_ffff,
            sign <= 1,
            offset_units <= 0x3f,
            years <= 0x3f,
    ;
    (utc_units << 24) | (sign << 23) | (offset_units << 17) | (years << 11) | 0x7ff
}

} // verus!
