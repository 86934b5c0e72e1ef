//! UTC instants: reading the system clock, moving an instant by whole
//! seconds (through chrono), and writing an instant as RFC 3339 text.
use vstd::prelude::*;
use crate::num_format::{dec_digits, zero_pad, format_unsigned, zero_padded};
use crate::text::{push_char, append_str};

verus! {

/// The earliest instant chrono represents, 1 January of year -262143 at
/// midnight, in seconds since the Unix epoch.
pub const MIN_TIMESTAMP: i64 = -8_334_601_228_800;

/// The second of the latest instant chrono represents, 31 December of year
/// 262142 at 23:59:59, in seconds since the Unix epoch.
pub const MAX_TIMESTAMP: i64 = 8_210_266_876_799;

/// The largest number of whole seconds a chrono `TimeDelta` holds.
pub const MAX_DELTA_SECONDS: i64 = 9_223_372_036_854_775;

/// A UTC instant: whole seconds since the Unix epoch and the nanoseconds
/// within that second.
#[derive(Clone, Copy, Debug, PartialEq, Eq, Structural)]
pub struct UtcTime {
    pub secs: i64,
    pub nanos: u32,
}

impl UtcTime {
    /// Whether the instant is one chrono represents, outside a leap second.
    pub open spec fn wf(self) -> bool {
        &&& MIN_TIMESTAMP <= self.secs <= MAX_TIMESTAMP
        &&& self.nanos < 1_000_000_000
    }

    /// Whether `self` comes strictly before `other`.
    pub open spec fn spec_before(self, other: UtcTime) -> bool {
        self.secs < other.secs || (self.secs == other.secs && self.nanos < other.nanos)
    }

    /// Whether `self` comes strictly before `other`.
    #[verifier::when_used_as_spec(spec_before)]
    pub fn before(self, other: UtcTime) -> (r: bool)
        ensures
            r == self.spec_before(other),
    {
        self.secs < other.secs || (self.secs == other.secs && self.nanos < other.nanos)
    }
}

/// `t` moved by `delta` whole seconds, where chrono represents both the
/// shift and the result.
pub open spec fn shifted(t: UtcTime, delta: int) -> Option<UtcTime> {
    if -MAX_DELTA_SECONDS <= delta <= MAX_DELTA_SECONDS && MIN_TIMESTAMP <= t.secs + delta <= MAX_TIMESTAMP {
        Some(UtcTime { secs: (t.secs + delta) as i64, nanos: t.nanos })
    } else {
        None
    }
}

/// The current UTC time, or `None` where the system clock reads before the
/// Unix epoch or beyond chrono's range.
///
/// Trusted: calls `std::time::SystemTime::now` and `duration_since(UNIX_EPOCH)`
/// (an error before the epoch), then `chrono::DateTime::from_timestamp` with
/// the whole seconds and the nanoseconds of that duration (`None` outside
/// chrono's range). A `Duration`'s nanoseconds are below a billion, so every
/// instant that comes back is at or after the epoch and `wf`.
#[verifier::external_body]
pub fn utc_now() -> (t: Option<UtcTime>)
    ensures
        t matches Some(u) ==> u.wf() && u.secs >= 0,
{
    let since = std::time::SystemTime::now().duration_since(std::time::UNIX_EPOCH).ok()?;
    let now = chrono::DateTime::from_timestamp(i64::try_from(since.as_secs()).ok()?, since.subsec_nanos())?;
    Some(UtcTime { secs: now.timestamp(), nanos: now.timestamp_subsec_nanos() })
}

/// `t` moved by `delta` whole seconds.
///
/// Trusted: calls `chrono::DateTime::from_timestamp`, `TimeDelta::try_seconds`
/// and `DateTime::checked_add_signed`. `try_seconds` fails exactly when
/// `|delta|` exceeds `i64::MAX / 1000`; for an instant outside a leap second,
/// `checked_add_signed` adds the seconds, keeps the nanoseconds, and fails
/// exactly when the result falls outside `NaiveDate::MIN ..= NaiveDate::MAX`.
#[verifier::external_body]
pub fn shift_seconds(t: UtcTime, delta: i64) -> (r: Option<UtcTime>)
    requires
        t.wf(),
    ensures
        r == shifted(t, delta as int),
{
    let start = chrono::DateTime::from_timestamp(t.secs, t.nanos)?;
    let moved = start.checked_add_signed(chrono::TimeDelta::try_seconds(delta)?)?;
    Some(UtcTime { secs: moved.timestamp(), nanos: moved.timestamp_subsec_nanos() })
}

/// The proleptic Gregorian date `(year, month, day)` of the day `days`
/// days after 1 January 1970.
pub open spec fn civil_from_days(days: int) -> (int, int, int) {
    let z = days + 719468;
    let era = z / 146097;
    let doe = z - era * 146097;
    let yoe = (doe - doe / 1460 + doe / 36524 - doe / 146096) / 365;
    let doy = doe - (365 * yoe + yoe / 4 - yoe / 100);
    let mp = (5 * doy + 2) / 153;
    let day = doy - (153 * mp + 2) / 5 + 1;
    let month = if mp < 10 { mp + 3 } else { mp - 9 };
    (yoe + era * 400 + if month <= 2 { 1int } else { 0int }, month, day)
}

/// `n` in decimal, zero-padded to at least `width` digits.
pub open spec fn padded(n: int, width: nat) -> Seq<char> {
    zero_pad(dec_digits(n as nat), width)
}

/// A year as RFC 3339 text writes it: four digits for years 0 to 9999,
/// otherwise a sign and at least four digits.
pub open spec fn year_text(year: int) -> Seq<char> {
    if 0 <= year <= 9999 {
        padded(year, 4)
    } else if year < 0 {
        seq!['-'] + padded(-year, 4)
    } else {
        seq!['+'] + padded(year, 4)
    }
}

/// The RFC 3339 text of the instant `secs` seconds and `nanos` nanoseconds
/// after the Unix epoch, in UTC, with milliseconds and a `Z` suffix, such as
/// `2018-01-26T18:30:09.453Z`.
pub open spec fn rfc3339_millis_text(secs: i64, nanos: u32) -> Seq<char> {
    let (year, month, day) = civil_from_days((secs as int) / 86400);
    let second_of_day = (secs as int) % 86400;
    year_text(year) + seq!['-'] + padded(month, 2) + seq!['-'] + padded(day, 2) + seq!['T']
        + padded(second_of_day / 3600, 2) + seq![':'] + padded(second_of_day % 3600 / 60, 2) + seq![':']
        + padded(second_of_day % 60, 2) + seq!['.'] + padded((nanos as int) / 1_000_000, 3) + seq!['Z']
}

fn push_padded(out: &mut String, n: u64, width: usize)
    ensures
        final(out)@ == old(out)@ + padded(n as int, width as nat),
{
    let digits = format_unsigned(n);
    let text = zero_padded(digits.as_str(), width);
    append_str(out, text.as_str());
}

fn split_seconds(secs: i64) -> (r: (i64, i64))
    requires
        MIN_TIMESTAMP <= secs <= MAX_TIMESTAMP,
    ensures
        r.0 == (secs as int) / 86400,
        r.1 == (secs as int) % 86400,
        -100_000_000 <= r.0 <= 100_000_000,
{
    // Shifted by whole days so the division is of a non-negative number.
    let shifted_secs: i64 = secs + 8_640_000_000_000;
    (shifted_secs / 86400 - 100_000_000, shifted_secs % 86400)
}

fn civil_date(days: i64) -> (r: (i64, i64, i64))
    requires
        -100_000_000 <= days <= 100_000_000,
    ensures
        (r.0 as int, r.1 as int, r.2 as int) == civil_from_days(days as int),
{
    // Shifted by whole 400-year eras so every division is of a non-negative number.
    let z: i64 = days + 719468 + 146_097_000;
    let era: i64 = z / 146097 - 1000;
    let doe: i64 = z % 146097;
    assert(era == (days + 719468) / 146097 && doe == (days + 719468) - era * 146097);
    let yoe: i64 = (doe - doe / 1460 + doe / 36524 - doe / 146096) / 365;
    let doy: i64 = doe - (365 * yoe + yoe / 4 - yoe / 100);
    let mp: i64 = (5 * doy + 2) / 153;
    let day: i64 = doy - (153 * mp + 2) / 5 + 1;
    let month: i64 = if mp < 10 { mp + 3 } else { mp - 9 };
    let year: i64 = yoe + era * 400 + if month <= 2 { 1 } else { 0 };
    (year, month, day)
}

fn push_year(out: &mut String, year: i64)
    requires
        -1_000_000 <= year <= 1_000_000,
    ensures
        final(out)@ == old(out)@ + year_text(year as int),
{
    if 0 <= year && year <= 9999 {
        push_padded(out, year as u64, 4);
    } else if year < 0 {
        push_char(out, '-');
        push_padded(out, (-year) as u64, 4);
    } else {
        push_char(out, '+');
        push_padded(out, year as u64, 4);
    }
    assert(final(out)@ =~= old(out)@ + year_text(year as int));
}

/// Writes an instant as RFC 3339 text with milliseconds and a `Z` suffix, as
/// chrono's `DateTime::to_rfc3339_opts(SecondsFormat::Millis, true)` writes it.
pub fn rfc3339_millis(t: UtcTime) -> (r: String)
    requires
        t.wf(),
    ensures
        r@ == rfc3339_millis_text(t.secs, t.nanos),
{
    let (days, second_of_day) = split_seconds(t.secs);
    let (year, month, day) = civil_date(days);
    assert(-1_000_000 <= year <= 1_000_000) by {
        lemma_civil_year_bound(days as int);
    }
    let mut out = String::new();
    push_year(&mut out, year);
    push_char(&mut out, '-');
    push_padded(&mut out, month as u64, 2);
    push_char(&mut out, '-');
    push_padded(&mut out, day as u64, 2);
    push_char(&mut out, 'T');
    push_padded(&mut out, (second_of_day / 3600) as u64, 2);
    push_char(&mut out, ':');
    push_padded(&mut out, (second_of_day % 3600 / 60) as u64, 2);
    push_char(&mut out, ':');
    push_padded(&mut out, (second_of_day % 60) as u64, 2);
    push_char(&mut out, '.');
    push_padded(&mut out, (t.nanos / 1_000_000) as u64, 3);
    push_char(&mut out, 'Z');
    assert(out@ =~= rfc3339_millis_text(t.secs, t.nanos));
    out
}

proof fn lemma_civil_year_bound(days: int)
    requires
        -100_000_000 <= days <= 100_000_000,
    ensures
        -1_000_000 <= civil_from_days(days).0 <= 1_000_000,
{
}

/// Whether `timestamp` is the text of an instant that the clock can report:
/// one at or after the Unix epoch.
pub open spec fn is_clock_text(timestamp: Seq<char>) -> bool {
    exists|now: UtcTime| now.wf() && now.secs >= 0 && timestamp == #[trigger] rfc3339_millis_text(now.secs, now.nanos)
}

/// The current UTC time as RFC 3339 text with milliseconds and a `Z` suffix,
/// or `None` where the system clock cannot be read as such an instant.
pub fn now_rfc3339_millis() -> (r: Option<String>)
    ensures
        r matches Some(t) ==> is_clock_text(t@),
{
    match utc_now() {
        Some(now) => Some(rfc3339_millis(now)),
        None => None,
    }
}

} // verus!
