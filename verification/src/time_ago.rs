//! How long ago something happened, in words.

use crate::text;
use crate::text::decimal_of;
use vstd::prelude::*;
use vstd::string::StringExecFns;

verus! {

/// The seconds of a minute.
pub const MINUTE: i64 = 60;

/// The seconds of an hour.
pub const HOUR: i64 = 3600;

/// The seconds of a day.
pub const DAY: i64 = 86400;

/// The seconds of a month, of 30 days.
pub const MONTH: i64 = 2592000;

/// The seconds of a year, of 365 days.
pub const YEAR: i64 = 31536000;

/// How long before `now` the moment `timestamp` was, both in seconds since the epoch. The
/// difference wraps around at the ends of `i64`.
pub open spec fn elapsed(timestamp: i64, now: i64) -> i64 {
    now.wrapping_sub(timestamp)
}

/// A span of seconds in words, rounded down to the largest unit that it fills.
pub open spec fn span_text(seconds: i64) -> Seq<char> {
    if seconds < MINUTE {
        "just now"@
    } else if seconds < HOUR {
        text::decimal((seconds / MINUTE) as nat) + " min ago"@
    } else if seconds < DAY {
        text::decimal((seconds / HOUR) as nat) + " hr ago"@
    } else if seconds < MONTH {
        text::decimal((seconds / DAY) as nat) + " days ago"@
    } else if seconds < YEAR {
        text::decimal((seconds / MONTH) as nat) + " mo ago"@
    } else {
        text::decimal((seconds / YEAR) as nat) + " yr ago"@
    }
}

/// How long before `now` the moment `timestamp` was, in words; 0 stands for a moment that
/// is not known.
pub open spec fn time_ago(timestamp: i64, now: i64) -> Seq<char> {
    if timestamp == 0 {
        "unknown"@
    } else {
        span_text(elapsed(timestamp, now))
    }
}

/// What is made of a reading of the clock: 0 where the clock stands before the epoch.
pub open spec fn clock_value(reading: Option<u64>) -> i64 {
    match reading {
        Some(s) => s as i64,
        None => 0,
    }
}

/// A moment that lies ahead of the clock reads as one that has just passed.
pub proof fn future_reads_as_now(timestamp: i64, now: i64)
    requires
        timestamp != 0,
        timestamp > now,
        now - timestamp >= i64::MIN,
    ensures
        time_ago(timestamp, now) == "just now"@,
{
}

/// A span is told in the largest unit that it fills, rounded down: of minutes up to 59, of
/// hours up to 23, of days up to 29, of months of 30 days short of a year of 365, and of years
/// without end. `rest` is what is left over.
pub proof fn spans_are_counted_in_units(timestamp: i64, now: i64, n: int, rest: int)
    requires
        timestamp != 0,
        n >= 1,
        rest >= 0,
    ensures
        ({
            let span = now - timestamp;
            let words = time_ago(timestamp, now);
            &&& i64::MIN <= span < 60 ==> words == "just now"@
            &&& span == n * 60 + rest && rest < 60 && span < 3600 ==> words == text::decimal(
                n as nat,
            ) + " min ago"@
            &&& span == n * 3600 + rest && rest < 3600 && span < 86400 ==> words == text::decimal(
                n as nat,
            ) + " hr ago"@
            &&& span == n * 86400 + rest && rest < 86400 && span < 2592000 ==> words
                == text::decimal(n as nat) + " days ago"@
            &&& span == n * 2592000 + rest && rest < 2592000 && span < 31536000 ==> words
                == text::decimal(n as nat) + " mo ago"@
            &&& span == n * 31536000 + rest && rest < 31536000 && span <= i64::MAX ==> words
                == text::decimal(n as nat) + " yr ago"@
        }),
{
}

/// A moment that is not known is told as such, whatever the time.
pub proof fn unknown_moments_are_told_as_such(now: i64)
    ensures
        time_ago(0, now) == "unknown"@,
{
}

/// A reading of the clock is taken as it is, where it fits, and wraps around where it does not;
/// before the epoch it is 0.
pub proof fn clock_readings_are_taken_as_they_are(reading: u64)
    ensures
        reading <= i64::MAX ==> clock_value(Some(reading)) == reading,
        reading > i64::MAX ==> clock_value(Some(reading)) == reading - 0x1_0000_0000_0000_0000,
        clock_value(None) == 0,
{
    assert(reading > 0x7fff_ffff_ffff_ffff ==> (reading as i64) == reading
        - 0x1_0000_0000_0000_0000) by (bit_vector);
}

/// What has passed since a moment is the difference to the clock, which wraps around at the
/// ends of `i64`; and what is said of a moment that is known goes by that alone.
pub proof fn only_what_has_passed_counts(t1: i64, now1: i64, t2: i64, now2: i64)
    ensures
        now1 - t1 > i64::MAX ==> elapsed(t1, now1) == now1 - t1 - 0x1_0000_0000_0000_0000,
        now1 - t1 < i64::MIN ==> elapsed(t1, now1) == now1 - t1 + 0x1_0000_0000_0000_0000,
        i64::MIN <= now1 - t1 <= i64::MAX ==> elapsed(t1, now1) == now1 - t1,
        t1 != 0 && t2 != 0 && elapsed(t1, now1) == elapsed(t2, now2) ==> time_ago(t1, now1)
            == time_ago(t2, now2),
{
}

/// What is said of a moment depends only on how long ago it was, not on when that was.
pub proof fn only_the_span_counts(t1: i64, now1: i64, t2: i64, now2: i64)
    requires
        t1 != 0,
        t2 != 0,
        now1 - t1 == now2 - t2,
    ensures
        time_ago(t1, now1) == time_ago(t2, now2),
{
}

/// The unit in which a span is told, from the least to the largest, and how many of it.
pub open spec fn told(seconds: i64) -> (int, int) {
    if seconds < MINUTE {
        (0, 0)
    } else if seconds < HOUR {
        (1, seconds as int / 60)
    } else if seconds < DAY {
        (2, seconds as int / 3600)
    } else if seconds < MONTH {
        (3, seconds as int / 86400)
    } else if seconds < YEAR {
        (4, seconds as int / 2592000)
    } else {
        (5, seconds as int / 31536000)
    }
}

/// A count of a unit in words.
pub open spec fn told_text(t: (int, int)) -> Seq<char> {
    if t.0 == 0 {
        "just now"@
    } else {
        text::decimal(t.1 as nat) + if t.0 == 1 {
            " min ago"@
        } else if t.0 == 2 {
            " hr ago"@
        } else if t.0 == 3 {
            " days ago"@
        } else if t.0 == 4 {
            " mo ago"@
        } else {
            " yr ago"@
        }
    }
}

/// An older moment never reads as more recent: it is told in a larger unit, or in as many
/// of the same unit or more. Left out are moments so far from the clock that the difference
/// wraps around.
pub proof fn older_never_reads_as_more_recent(older: i64, newer: i64, now: i64)
    requires
        older != 0,
        newer != 0,
        older <= newer,
        now - older <= i64::MAX,
        now - newer >= i64::MIN,
    ensures
        ({
            let a = told(elapsed(older, now));
            let b = told(elapsed(newer, now));
            &&& time_ago(older, now) == told_text(a)
            &&& time_ago(newer, now) == told_text(b)
            &&& a.0 > b.0 || (a.0 == b.0 && a.1 >= b.1)
        }),
{
}

/// `std::time::SystemTime::elapsed` of the epoch: the whole seconds from the epoch to the
/// clock's present, or nothing where the clock stands before the epoch. Nothing is said of
/// the value: it is the clock's.
#[verifier::external_body]
fn seconds_since_epoch() -> (r: Option<u64>) {
    std::time::UNIX_EPOCH.elapsed().ok().map(|d| d.as_secs())
}

/// The number of seconds that a reading of the clock stands for.
pub fn clock_seconds(reading: Option<u64>) -> (r: i64)
    ensures
        r == clock_value(reading),
{
    match reading {
        Some(s) => #[verifier::truncate] (s as i64),
        None => 0,
    }
}

/// The clock's present, in seconds since the epoch.
pub fn current_seconds() -> (r: i64)
    ensures
        exists|reading: Option<u64>| r == #[trigger] clock_value(reading),
{
    let reading = seconds_since_epoch();
    clock_seconds(reading)
}

/// A count and its unit, in words.
fn counted(n: i64, unit: &str) -> (r: String)
    requires
        n >= 0,
    ensures
        r@ == text::decimal(n as nat) + unit@,
{
    decimal_of(n as u64).concat(unit)
}

/// How long before `now` the moment `timestamp` was, in words.
pub fn describe_elapsed(timestamp: i64, now: i64) -> (r: String)
    ensures
        r@ == time_ago(timestamp, now),
{
    if timestamp == 0 {
        return "unknown".to_string();
    }
    let diff: i64 = now.wrapping_sub(timestamp);
    if diff < MINUTE {
        "just now".to_string()
    } else if diff < HOUR {
        counted(diff / MINUTE, " min ago")
    } else if diff < DAY {
        counted(diff / HOUR, " hr ago")
    } else if diff < MONTH {
        counted(diff / DAY, " days ago")
    } else if diff < YEAR {
        counted(diff / MONTH, " mo ago")
    } else {
        counted(diff / YEAR, " yr ago")
    }
}

/// How long ago the moment `timestamp` was by the clock, in words.
pub fn format_time_ago(timestamp: i64) -> (r: String)
    ensures
        timestamp == 0 ==> r@ == "unknown"@,
        exists|reading: Option<u64>|
            r@ == time_ago(timestamp, #[trigger] clock_value(reading)),
{
    let now = current_seconds();
    describe_elapsed(timestamp, now)
}

} // verus!
