//! Launch times ("NET", no earlier than) as plain values, and the calendar
//! computations on them, which are carried out by `chrono`.
use vstd::prelude::*;
use chrono::{DateTime, TimeDelta};
use crate::text::{digit_char, zero_padded};

verus! {

/// The earliest second that `chrono` can represent: -262143-01-01T00:00:00.
pub const MIN_TIMESTAMP: i64 = -8334601228800;
/// The last second that `chrono` can represent: +262142-12-31T23:59:59.
pub const MAX_TIMESTAMP: i64 = 8210266876799;

pub const SECS_PER_DAY: i64 = 86400;
pub const NANOS_PER_SEC: u32 = 1_000_000_000;

/// A UTC date and time: whole seconds since 1970-01-01T00:00:00 (leap
/// seconds not counted) and the nanoseconds within that second. As in
/// `chrono`, a leap second is written as second 59 of a minute with
/// `nanos` in `1_000_000_000 .. 2_000_000_000`.
#[derive(Clone, Copy, PartialEq, Eq, Structural, Debug)]
pub struct NetTime {
    pub secs: i64,
    pub nanos: u32,
}

impl NetTime {
    /// A date and time that `chrono` can represent.
    pub open spec fn wf(self) -> bool {
        &&& MIN_TIMESTAMP <= self.secs <= MAX_TIMESTAMP
        &&& self.nanos < 2 * NANOS_PER_SEC
        &&& (self.nanos >= NANOS_PER_SEC ==> self.secs % 60 == 59)
    }

    /// The day that holds this instant, counted from 1970-01-01.
    pub open spec fn day_number(self) -> int {
        self.secs as int / SECS_PER_DAY as int
    }

    /// Seconds since midnight, in `0 .. 86400`.
    pub open spec fn second_of_day(self) -> int {
        self.secs as int % SECS_PER_DAY as int
    }

    /// Strictly later, in the order of `chrono`'s `NaiveDateTime`.
    pub open spec fn is_later_than(self, other: NetTime) -> bool {
        self.secs > other.secs || (self.secs == other.secs && self.nanos > other.nanos)
    }

    /// Makes a time from its parts; `None` when `chrono` cannot represent it.
    pub fn new(secs: i64, nanos: u32) -> (r: Option<NetTime>)
        ensures
            r == (if (NetTime { secs, nanos }).wf() { Some(NetTime { secs, nanos }) } else { None::<NetTime> }),
    {
        let t = NetTime { secs, nanos };
        if MIN_TIMESTAMP <= secs && secs <= MAX_TIMESTAMP && nanos < 2 * NANOS_PER_SEC
            && (nanos < NANOS_PER_SEC || ((secs - MIN_TIMESTAMP) as u64) % 60 == 59) {
            proof {
                lemma_minute_offset(secs as int);
            }
            Some(t)
        } else {
            None
        }
    }

    /// Whether `self` comes strictly after `other`.
    pub fn later_than(&self, other: &NetTime) -> (r: bool)
        ensures
            r == self.is_later_than(*other),
    {
        self.secs > other.secs || (self.secs == other.secs && self.nanos > other.nanos)
    }
}

/// What `chrono` gives for a time shifted by a whole number of minutes:
/// a leap second is left as soon as the shift is not zero.
pub open spec fn shifted_by_minutes(t: NetTime, minutes: int) -> Option<NetTime> {
    let leap = t.nanos >= NANOS_PER_SEC;
    let secs = if leap && minutes < 0 { t.secs + 1 + 60 * minutes } else { t.secs + 60 * minutes };
    let nanos = if leap && minutes != 0 { t.nanos - NANOS_PER_SEC } else { t.nanos as int };
    if MIN_TIMESTAMP <= secs <= MAX_TIMESTAMP {
        Some(NetTime { secs: secs as i64, nanos: nanos as u32 })
    } else {
        None
    }
}

/// Integer division rounding toward zero, as Rust's `/` does.
pub open spec fn div_toward_zero(x: int, d: int) -> int
    recommends
        d > 0,
{
    if x >= 0 { x / d } else { -((-x) / d) }
}

/// Whole minutes from the time of day of `b` to that of `a` (dates are
/// ignored), rounded toward zero: `chrono`'s `(a.time() - b.time()).num_minutes()`.
pub open spec fn time_of_day_minutes_between(a: NetTime, b: NetTime) -> int {
    let sa = a.second_of_day();
    let sb = b.second_of_day();
    let frac = a.nanos - b.nanos;
    let secs = if sa > sb && b.nanos >= NANOS_PER_SEC {
        sa - sb + 1
    } else if sa < sb && a.nanos >= NANOS_PER_SEC {
        sa - sb - 1
    } else {
        sa - sb
    };
    let whole = secs + frac / NANOS_PER_SEC as int;
    let sub = frac % NANOS_PER_SEC as int;
    let seconds = if whole < 0 && sub > 0 { whole + 1 } else { whole };
    div_toward_zero(seconds, 60)
}

/// Two decimal digits.
pub open spec fn two_digits(n: nat) -> Seq<char> {
    seq![digit_char(n / 10), digit_char(n % 10)]
}

/// The fraction of a second as `chrono` prints it: nothing for zero, else a
/// dot followed by 3, 6 or 9 digits, the fewest that are exact.
pub open spec fn fraction_text(nano: nat) -> Seq<char> {
    if nano == 0 {
        Seq::empty()
    } else if nano % 1_000_000 == 0 {
        seq!['.'] + zero_padded(nano / 1_000_000, 3)
    } else if nano % 1_000 == 0 {
        seq!['.'] + zero_padded(nano / 1_000, 6)
    } else {
        seq!['.'] + zero_padded(nano, 9)
    }
}

/// The time of day as `chrono` displays a `NaiveTime`: `HH:MM:SS` and the
/// fraction; a leap second shows as second 60.
pub open spec fn clock_text(t: NetTime) -> Seq<char> {
    let sod = t.second_of_day() as nat;
    let leap = t.nanos >= NANOS_PER_SEC;
    let sec = if leap { sod % 60 + 1 } else { sod % 60 };
    let nano = if leap { (t.nanos - NANOS_PER_SEC) as nat } else { t.nanos as nat };
    two_digits(sod / 3600) + seq![':'] + two_digits((sod / 60) % 60) + seq![':'] + two_digits(sec)
        + fraction_text(nano)
}

/// The date of a day (counted from 1970-01-01) as `chrono` formats it with
/// `"%d-%m-%Y"`.
pub uninterp spec fn day_month_year_text(day: int) -> Seq<char>;

/// The text of a time as `chrono`'s `DateTime<Utc>::to_rfc3339` writes it.
pub uninterp spec fn rfc3339_text(secs: int, nanos: int) -> Seq<char>;

/// Shifts a time by whole minutes.
/// Calls `chrono::NaiveDateTime::checked_add_signed` with `TimeDelta::minutes`;
/// the contract restates that function's handling of leap seconds and its
/// `None` outside the representable range.
#[verifier::external_body]
pub(crate) fn shift_minutes(t: &NetTime, minutes: i64) -> (r: Option<NetTime>)
    requires
        t.wf(),
        -1_000_000_000 <= minutes <= 1_000_000_000,
    ensures
        r == shifted_by_minutes(*t, minutes as int),
{
    let base = DateTime::from_timestamp(t.secs, t.nanos).unwrap().naive_utc();
    match base.checked_add_signed(TimeDelta::minutes(minutes)) {
        Some(v) => Some(NetTime { secs: v.and_utc().timestamp(), nanos: v.and_utc().timestamp_subsec_nanos() }),
        None => None,
    }
}

/// Minutes between the times of day of two instants.
/// Calls `chrono`'s `NaiveTime - NaiveTime` (`signed_duration_since`) and
/// `TimeDelta::num_minutes`; the contract restates both.
#[verifier::external_body]
pub(crate) fn time_of_day_minutes(a: &NetTime, b: &NetTime) -> (r: i64)
    requires
        a.wf(),
        b.wf(),
    ensures
        r == time_of_day_minutes_between(*a, *b),
{
    let ta = DateTime::from_timestamp(a.secs, a.nanos).unwrap().naive_utc().time();
    let tb = DateTime::from_timestamp(b.secs, b.nanos).unwrap().naive_utc().time();
    (ta - tb).num_minutes()
}

/// The date of a time as "DD-MM-YYYY".
/// Calls `chrono::NaiveDate::format("%d-%m-%Y")`; the text is named, not
/// restated: it depends on the day alone.
#[verifier::external_body]
pub(crate) fn date_text(t: &NetTime) -> (s: String)
    requires
        t.wf(),
    ensures
        s@ == day_month_year_text(t.day_number()),
{
    DateTime::from_timestamp(t.secs, t.nanos).unwrap().naive_utc().date().format("%d-%m-%Y").to_string()
}

/// The time of day as `chrono` displays it.
/// Calls `Display` of `chrono::NaiveTime`; the contract restates its format.
#[verifier::external_body]
pub(crate) fn time_text(t: &NetTime) -> (s: String)
    requires
        t.wf(),
    ensures
        s@ == clock_text(*t),
{
    DateTime::from_timestamp(t.secs, t.nanos).unwrap().naive_utc().time().to_string()
}

/// The RFC 3339 text of a time.
/// Calls `chrono::DateTime<Utc>::to_rfc3339`; the text is named, not restated.
#[verifier::external_body]
pub(crate) fn rfc3339(t: &NetTime) -> (s: String)
    requires
        t.wf(),
    ensures
        s@ == rfc3339_text(t.secs as int, t.nanos as int),
{
    DateTime::from_timestamp(t.secs, t.nanos).unwrap().to_rfc3339()
}

proof fn lemma_day_offset(s: int)
    requires
        MIN_TIMESTAMP <= s,
    ensures
        (s - MIN_TIMESTAMP) / 86400 == s / 86400 - MIN_TIMESTAMP / 86400,
{
    assert(MIN_TIMESTAMP as int == 86400 * (-96465292int));
    let q = s / 86400;
    let r = s % 86400;
    assert(s == 86400 * q + r && 0 <= r < 86400);
    assert(s - MIN_TIMESTAMP == (q + 96465292) * 86400 + r);
    vstd::arithmetic::div_mod::lemma_fundamental_div_mod_converse(s - MIN_TIMESTAMP, 86400, q + 96465292, r);
    assert(MIN_TIMESTAMP / 86400 == -96465292int);
}

proof fn lemma_minute_offset(s: int)
    requires
        MIN_TIMESTAMP <= s,
    ensures
        (s - MIN_TIMESTAMP) % 60 == s % 60,
{
    let q = s / 60;
    let r = s % 60;
    assert(s == 60 * q + r && 0 <= r < 60);
    assert(s - MIN_TIMESTAMP == (q + 138910020480) * 60 + r);
    vstd::arithmetic::div_mod::lemma_fundamental_div_mod_converse(s - MIN_TIMESTAMP, 60, q + 138910020480, r);
}

/// Whether two instants fall on the same calendar day (UTC).
pub fn same_day(a: &NetTime, b: &NetTime) -> (r: bool)
    requires
        a.wf(),
        b.wf(),
    ensures
        r == (a.day_number() == b.day_number()),
{
    let da: u64 = ((a.secs - MIN_TIMESTAMP) as u64) / 86400;
    let db: u64 = ((b.secs - MIN_TIMESTAMP) as u64) / 86400;
    proof {
        lemma_day_offset(a.secs as int);
        lemma_day_offset(b.secs as int);
    }
    da == db
}

} // verus!
