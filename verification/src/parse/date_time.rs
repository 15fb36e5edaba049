//! Timestamps as stored in ZIP files (MS-DOS and NTFS formats), and their
//! conversion to points in time.
use vstd::prelude::*;

use chrono::TimeZone;

use super::ParseError;
use crate::le::{read_u16_le, read_u64_le, spec_u16_le, spec_u64_le};

verus! {

/// A point in time: seconds and nanoseconds since 1970-01-01 00:00:00 UTC.
///
/// `nanos` is below 2,000,000,000; it only exceeds 999,999,999 to represent
/// a leap second.
#[derive(Debug, Clone, Copy, PartialEq, Eq, Hash, Structural)]
pub struct DateTimeUtc {
    /// whole seconds since the Unix epoch
    pub secs: i64,
    /// nanoseconds since the last whole second
    pub nanos: u32,
}

/// Whether `y` is a leap year of the proleptic Gregorian calendar (year 0
/// being 1 BCE).
pub open spec fn is_leap_year(y: int) -> bool {
    y % 4 == 0 && (y % 100 != 0 || y % 400 == 0)
}

/// The number of days of month `m` (1 to 12) in year `y`.
pub open spec fn days_in_month(y: int, m: int) -> int {
    if m == 2 {
        if is_leap_year(y) {
            29
        } else {
            28
        }
    } else if m == 4 || m == 6 || m == 9 || m == 11 {
        30
    } else {
        31
    }
}

/// The number of days from 1970-01-01 to the date `y`-`m`-`d` of the
/// proleptic Gregorian calendar (negative before it): years are counted
/// from March, so that the leap day ends them, in cycles of 400 years.
pub open spec fn days_from_civil(y: int, m: int, d: int) -> int {
    let y2 = if m <= 2 {
        y - 1
    } else {
        y
    };
    let era = y2 / 400;
    let year_of_era = y2 - era * 400;
    let month_from_march = (m + 9) % 12;
    let day_of_year = (153 * month_from_march + 2) / 5 + d - 1;
    let day_of_era = year_of_era * 365 + year_of_era / 4 - year_of_era / 100 + day_of_year;
    era * 146097 + day_of_era - 719468
}

/// The first year of chrono's dates (262144 BCE).
pub const CHRONO_MIN_YEAR: i32 = -262143;

/// The last year of chrono's dates.
pub const CHRONO_MAX_YEAR: i32 = 262142;

/// The Unix time of the first second chrono represents, January 1 of
/// [CHRONO_MIN_YEAR].
pub const CHRONO_MIN_SECS: i64 = -8334601228800;

/// The Unix time of the last second chrono represents, December 31 of
/// [CHRONO_MAX_YEAR], 23:59:59.
pub const CHRONO_MAX_SECS: i64 = 8210266876799;

/// The Unix time of the given UTC calendar date and time of day, when they
/// name one that chrono represents: a year in its range, a month, a day that
/// the month has in that year, an hour, a minute and a second.
pub open spec fn spec_utc_ymd_hms(
    year: i32,
    month: u32,
    day: u32,
    hour: u32,
    min: u32,
    sec: u32,
) -> Option<i64> {
    if CHRONO_MIN_YEAR <= year <= CHRONO_MAX_YEAR && 1 <= month <= 12 && 1 <= day <= days_in_month(
        year as int,
        month as int,
    ) && hour < 24 && min < 60 && sec < 60 {
        Some(
            (days_from_civil(year as int, month as int, day as int) * 86400 + hour * 3600 + min * 60
                + sec) as i64,
        )
    } else {
        None
    }
}

/// Whether chrono accepts `secs` seconds and `nsecs` nanoseconds since the
/// Unix epoch as a point in time: the seconds are in its range, and the
/// nanoseconds are below one second, or below two in the last second of a
/// minute (a leap second).
pub open spec fn spec_utc_timestamp_valid(secs: i64, nsecs: u32) -> bool {
    &&& CHRONO_MIN_SECS <= secs <= CHRONO_MAX_SECS
    &&& nsecs < 2_000_000_000
    &&& (nsecs < 1_000_000_000 || secs % 60 == 59)
}

/// Calls `chrono::TimeZone::timestamp_opt` on `Utc`.
///
/// Trusted: chrono documents that this gives a point in time exactly when
/// the seconds are in the range of its dates (from January 1, 262144 BCE to
/// December 31, 262142 CE) and the nanoseconds are valid (below one second,
/// or below two in the last second of a minute), and that the result
/// round-trips to `secs` and `nsecs`.
#[verifier::external_body]
fn utc_timestamp_opt(secs: i64, nsecs: u32) -> (r: Option<DateTimeUtc>)
    ensures
        r is Some <==> spec_utc_timestamp_valid(secs, nsecs),
        r matches Some(d) ==> d == (DateTimeUtc { secs, nanos: nsecs }),
{
    match chrono::Utc.timestamp_opt(secs, nsecs) {
        chrono::LocalResult::Single(dt) => Some(
            DateTimeUtc { secs: dt.timestamp(), nanos: dt.timestamp_subsec_nanos() },
        ),
        chrono::LocalResult::Ambiguous(_, _) => None,
        chrono::LocalResult::None => None,
    }
}

/// Calls `chrono::TimeZone::with_ymd_and_hms` on `Utc` and takes the Unix
/// timestamp of the result.
///
/// Trusted: chrono documents that it reads the fields in the proleptic
/// Gregorian calendar, that it gives nothing for a month, day, hour, minute
/// or second out of range, for a day the month does not have, or for a year
/// out of the range of its dates; and that the timestamp counts the
/// non-leap seconds since 1970-01-01 00:00:00 UTC.
#[verifier::external_body]
fn utc_ymd_hms(year: i32, month: u32, day: u32, hour: u32, min: u32, sec: u32) -> (r: Option<i64>)
    ensures
        r == spec_utc_ymd_hms(year, month, day, hour, min, sec),
{
    match chrono::Utc.with_ymd_and_hms(year, month, day, hour, min, sec) {
        chrono::LocalResult::Single(dt) => Some(dt.timestamp()),
        chrono::LocalResult::Ambiguous(_, _) => None,
        chrono::LocalResult::None => None,
    }
}

/// The point in time `secs` seconds after the Unix epoch, when it is valid.
pub open spec fn spec_from_unix_secs(secs: i64) -> Option<DateTimeUtc> {
    if spec_utc_timestamp_valid(secs, 0) {
        Some(DateTimeUtc { secs, nanos: 0 })
    } else {
        None
    }
}

/// The point in time `secs` seconds after the Unix epoch, if chrono accepts it.
pub fn from_unix_secs(secs: i64) -> (r: Option<DateTimeUtc>)
    ensures
        r == spec_from_unix_secs(secs),
{
    utc_timestamp_opt(secs, 0)
}

/// The Unix epoch, 1970-01-01 00:00:00 UTC.
pub open spec fn spec_zero_datetime() -> DateTimeUtc {
    DateTimeUtc { secs: 0, nanos: 0 }
}

/// The Unix epoch, used when a timestamp could not be decoded.
pub fn zero_datetime() -> (r: DateTimeUtc)
    ensures
        r == spec_zero_datetime(),
{
    DateTimeUtc { secs: 0, nanos: 0 }
}

/// A timestamp in MS-DOS format
///
/// Represents dates from year 1980 to 2180, with 2 second precision.
#[derive(Debug, Clone, Copy, PartialEq, Eq, Structural)]
pub struct MsdosTimestamp {
    /// Time in 2-second intervals
    pub time: u16,
    /// Date in MS-DOS format
    pub date: u16,
}

/// The calendar fields packed into an MS-DOS date and time, in the argument
/// order of `spec_utc_ymd_hms`:
/// year (bits 9-15 of the date, plus 1980), month (bits 5-8), day (bits 0-4),
/// hour (bits 11-15 of the time), minute (bits 5-10), second (bits 0-4, times 2).
pub open spec fn msdos_fields(date: u16, time: u16) -> (i32, u32, u32, u32, u32, u32) {
    (
        (date / 512 + 1980) as i32,
        ((date / 32) % 16) as u32,
        (date % 32) as u32,
        (time / 2048) as u32,
        ((time / 32) % 64) as u32,
        ((time % 32) * 2) as u32,
    )
}

/// The fields of an MS-DOS date and time: the year is 1980 plus bits 9-15
/// of the date, the month bits 5-8, the day bits 0-4; the hour is bits 11-15
/// of the time, the minute bits 5-10, and the second twice bits 0-4.
pub proof fn lemma_msdos_fields(date: u16, time: u16)
    ensures
        msdos_fields(date, time).0 == (date >> 9u16) + 1980,
        msdos_fields(date, time).1 == (date >> 5u16) & 0xf,
        msdos_fields(date, time).2 == date & 0x1f,
        msdos_fields(date, time).3 == time >> 11u16,
        msdos_fields(date, time).4 == (time >> 5u16) & 0x3f,
        msdos_fields(date, time).5 == 2 * (time & 0x1f),
{
    assert((date >> 9u16) == date / 512 && ((date >> 5u16) & 0xf) == (date / 32) % 16 && (date & 0x1f) == date
        % 32 && (time >> 11u16) == time / 2048 && ((time >> 5u16) & 0x3f) == (time / 32) % 64 && (time & 0x1f)
        == time % 32) by (bit_vector);
}

impl MsdosTimestamp {
    /// The timestamp stored in the four bytes `s[i..i + 4]`: time, then date.
    pub open spec fn spec_at(s: Seq<u8>, i: int) -> MsdosTimestamp {
        MsdosTimestamp { time: spec_u16_le(s, i), date: spec_u16_le(s, i + 2) }
    }

    /// Reads the timestamp stored at `input[pos..pos + 4]`.
    pub fn read_at(input: &[u8], pos: usize) -> (t: Self)
        requires
            pos + 4 <= input.len(),
        ensures
            t == MsdosTimestamp::spec_at(input@, pos as int),
    {
        MsdosTimestamp { time: read_u16_le(input, pos), date: read_u16_le(input, pos + 2) }
    }

    /// Parser for MS-DOS timestamps
    pub fn parser(input: &[u8]) -> (r: Result<(usize, Self), ParseError>)
        ensures
            r is Err <==> input@.len() < 4,
            r is Err ==> r == Err::<(usize, Self), ParseError>(ParseError::Incomplete),
            r matches Ok((n, t)) ==> n == 4 && t == MsdosTimestamp::spec_at(input@, 0),
    {
        if input.len() < 4 {
            return Err(ParseError::Incomplete);
        }
        Ok((4, MsdosTimestamp::read_at(input, 0)))
    }

    /// The point in time this timestamp stands for, read as UTC, when its
    /// fields form a valid date and time.
    pub open spec fn spec_to_datetime(self) -> Option<DateTimeUtc> {
        let f = msdos_fields(self.date, self.time);
        match spec_utc_ymd_hms(f.0, f.1, f.2, f.3, f.4, f.5) {
            Some(secs) => Some(DateTimeUtc { secs, nanos: 0 }),
            None => None,
        }
    }

    /// Attempts to convert to a UTC date time: there is one when the fields
    /// form a date and a time of day (the first 28 days of every month do),
    /// and none when a field is out of range.
    pub fn to_datetime(&self) -> (r: Option<DateTimeUtc>)
        ensures
            r == self.spec_to_datetime(),
            ({
                let f = msdos_fields(self.date, self.time);
                &&& r is Some ==> 1 <= f.1 <= 12 && 1 <= f.2 <= 31 && f.3 < 24 && f.4 < 60 && f.5 < 60
                &&& 1 <= f.1 <= 12 && 1 <= f.2 <= 28 && f.3 < 24 && f.4 < 60 && f.5 < 60 ==> r is Some
            }),
    {
        // bits 0-4: day of the month (1-31)
        let d = (self.date % 32) as u32;
        // bits 5-8: month (1 = january, 2 = february and so on)
        let m = ((self.date / 32) % 16) as u32;
        // bits 9-15: year offset from 1980
        let y = (self.date / 512) as i32 + 1980;
        // bits 0-4: second divided by 2
        let s = (self.time % 32) as u32 * 2;
        // bits 5-10: minute (0-59)
        let mi = ((self.time / 32) % 64) as u32;
        // bits 11-15: hour (0-23 on a 24-hour clock)
        let h = (self.time / 2048) as u32;
        match utc_ymd_hms(y, m, d, h, mi, s) {
            Some(secs) => Some(DateTimeUtc { secs, nanos: 0 }),
            None => None,
        }
    }
}

/// A timestamp in NTFS format.
#[derive(Debug, Clone, Copy, PartialEq, Eq, Structural)]
pub struct NtfsTimestamp {
    /// Timestamp in 100ns intervals since 1601-01-01 00:00:00 UTC
    pub timestamp: u64,
}

/// NTFS timestamps count 100ns intervals: this many per second.
pub const NTFS_TICKS_PER_SECOND: u64 = 10000000;

impl NtfsTimestamp {
    /// The timestamp stored in the eight bytes `s[i..i + 8]`.
    pub open spec fn spec_at(s: Seq<u8>, i: int) -> NtfsTimestamp {
        NtfsTimestamp { timestamp: spec_u64_le(s, i) }
    }

    /// Parse an NTFS timestamp from a byte slice
    pub fn parser(input: &[u8]) -> (r: Result<(usize, Self), ParseError>)
        ensures
            r is Err <==> input@.len() < 8,
            r is Err ==> r == Err::<(usize, Self), ParseError>(ParseError::Incomplete),
            r matches Ok((n, t)) ==> n == 8 && t == NtfsTimestamp::spec_at(input@, 0),
    {
        if input.len() < 8 {
            return Err(ParseError::Incomplete);
        }
        Ok((8, NtfsTimestamp { timestamp: read_u64_le(input, 0) }))
    }

    /// Whole seconds since the NTFS epoch (1601-01-01 00:00:00 UTC) of
    /// this timestamp.
    pub open spec fn spec_ntfs_secs(self) -> int {
        (self.timestamp / NTFS_TICKS_PER_SECOND) as int
    }

    /// Nanoseconds past the second of this timestamp.
    pub open spec fn spec_unix_nanos(self) -> u32 {
        ((self.timestamp % NTFS_TICKS_PER_SECOND) * 100) as u32
    }

    /// The point in time this timestamp stands for: its seconds after the
    /// NTFS epoch as chrono places it, when chrono accepts the result.
    pub open spec fn spec_to_datetime(self) -> Option<DateTimeUtc> {
        match spec_utc_ymd_hms(1601, 1, 1, 0, 0, 0) {
            None => None,
            Some(epoch) => {
                let secs = epoch + self.spec_ntfs_secs();
                let nanos = self.spec_unix_nanos();
                if i64::MIN <= secs <= i64::MAX && spec_utc_timestamp_valid(secs as i64, nanos) {
                    Some(DateTimeUtc { secs: secs as i64, nanos })
                } else {
                    None
                }
            },
        }
    }

    /// Attempts to convert to a UTC date time (every NTFS timestamp has one:
    /// see [lemma_ntfs_to_unix]).
    pub fn to_datetime(&self) -> (r: Option<DateTimeUtc>)
        ensures
            r == self.spec_to_datetime(),
    {
        // windows timestamp resolution
        let ticks_per_second = NTFS_TICKS_PER_SECOND;
        let secs = (self.timestamp / ticks_per_second) as i64;
        let nsecs = ((self.timestamp % ticks_per_second) * 100) as u32;
        let epoch = match utc_ymd_hms(1601, 1, 1, 0, 0, 0) {
            Some(e) => e,
            None => {
                return None;
            },
        };
        match epoch.checked_add(secs) {
            Some(t) => utc_timestamp_opt(t, nsecs),
            None => None,
        }
    }
}

/// 1601-01-01 00:00:00 UTC, the NTFS epoch, is 11644473600 seconds before
/// the Unix epoch.
pub proof fn lemma_ntfs_epoch()
    ensures
        spec_utc_ymd_hms(1601, 1, 1, 0, 0, 0) == Some(-11644473600i64),
{
    assert(days_from_civil(1601, 1, 1) == -134774);
}

/// Every NTFS timestamp converts: to its whole seconds less the 11644473600
/// seconds from 1601 to 1970, and to its remaining 100ns ticks as
/// nanoseconds.
pub proof fn lemma_ntfs_to_unix(t: NtfsTimestamp)
    ensures
        t.spec_to_datetime() == Some(
            DateTimeUtc {
                secs: (t.timestamp / NTFS_TICKS_PER_SECOND - 11644473600) as i64,
                nanos: ((t.timestamp % NTFS_TICKS_PER_SECOND) * 100) as u32,
            },
        ),
{
    lemma_ntfs_epoch();
}

/// The range of seconds chrono accepts runs from the first second of its
/// first year to the last second of its last year.
pub proof fn lemma_chrono_range()
    ensures
        CHRONO_MIN_SECS == days_from_civil(CHRONO_MIN_YEAR as int, 1, 1) * 86400,
        CHRONO_MAX_SECS == days_from_civil(CHRONO_MAX_YEAR as int, 12, 31) * 86400 + 86399,
        spec_utc_ymd_hms(CHRONO_MIN_YEAR, 1, 1, 0, 0, 0) == Some(CHRONO_MIN_SECS),
        spec_utc_ymd_hms(CHRONO_MAX_YEAR, 12, 31, 23, 59, 59) == Some(CHRONO_MAX_SECS),
{
}

} // verus!
