//! Moments in time and the days between them.
//!
//! Calendar arithmetic, parsing and formatting are chrono's. Here a moment is
//! plain numbers, so that whatever depends on the time can be given one.
use vstd::prelude::*;

verus! {

/// The first second, counted from 1970-01-01T00:00:00Z, that has a calendar date.
pub const MIN_SECS: i64 = -8_334_601_228_800;

/// The last second, counted from 1970-01-01T00:00:00Z, that has a calendar date.
pub const MAX_SECS: i64 = 8_210_266_876_799;

/// A moment in UTC: the whole seconds since 1970-01-01T00:00:00Z and the
/// nanoseconds past them. Within a leap second the nanoseconds go past one
/// billion and the seconds stay at the last second of the minute.
#[derive(Clone, Copy, Debug, PartialEq, Eq, Structural)]
pub struct Timestamp {
    pub secs: i64,
    pub nanos: u32,
}

impl Timestamp {
    /// Whether the moment has a calendar date and a time of day.
    pub open spec fn valid(self) -> bool {
        &&& MIN_SECS <= self.secs <= MAX_SECS
        &&& self.nanos < 2_000_000_000
        &&& self.in_leap_second() ==> self.secs as int % 60 == 59
    }

    /// Whether the moment lies within a leap second.
    pub open spec fn in_leap_second(self) -> bool {
        self.nanos >= 1_000_000_000
    }

    /// The second of the day.
    pub open spec fn second_of_day(self) -> int {
        self.secs as int % 86_400
    }

    /// 1970-01-01T00:00:00Z.
    pub open spec fn spec_epoch() -> Timestamp {
        Timestamp { secs: 0, nanos: 0 }
    }

    /// 1970-01-01T00:00:00Z.
    pub fn epoch() -> (t: Timestamp)
        ensures
            t == Timestamp::spec_epoch(),
            t.valid(),
    {
        Timestamp { secs: 0, nanos: 0 }
    }
}

/// A moment that the system clock gave. There is no other way to come by one than
/// `utc_now`, and nothing outside this module can show that the clock gave a
/// moment, short of reading it.
#[derive(Debug)]
pub struct ClockReading {
    moment: Timestamp,
}

impl View for ClockReading {
    type V = Timestamp;

    closed spec fn view(&self) -> Timestamp {
        self.moment
    }
}

impl ClockReading {
    /// The moment that was read.
    pub fn moment(&self) -> (moment: Timestamp)
        ensures
            moment == self@,
    {
        self.moment
    }
}

/// What a reading says is the moment that it holds, and nothing made of it.
proof fn lemma_readings_are_not_altered(reading: ClockReading)
    ensures
        reading@ == reading.moment,
{
}

/// The leap second that a difference of times of day has to count: one that
/// the moment with the earlier time of day is in the middle of.
pub open spec fn leap_correction(later: Timestamp, earlier: Timestamp) -> int {
    if later.second_of_day() > earlier.second_of_day() && earlier.in_leap_second() {
        1
    } else if later.second_of_day() < earlier.second_of_day() && later.in_leap_second() {
        -1
    } else {
        0
    }
}

/// The nanoseconds from `earlier` to `later`; negative when `later` comes first.
pub open spec fn elapsed_nanos(later: Timestamp, earlier: Timestamp) -> int {
    (later.secs - earlier.secs + leap_correction(later, earlier)) * 1_000_000_000 + later.nanos
        - earlier.nanos
}

/// The whole days in a number of nanoseconds, rounded towards zero.
pub open spec fn whole_days(nanos: int) -> int {
    if nanos >= 0 {
        nanos / 86_400_000_000_000
    } else {
        -((-nanos) / 86_400_000_000_000)
    }
}

/// The whole days from `earlier` to `later`.
pub open spec fn days_between(later: Timestamp, earlier: Timestamp) -> int {
    whole_days(elapsed_nanos(later, earlier))
}

/// What chrono reads in a text as an RFC 3339 date and time: the seconds and
/// nanoseconds of that moment in UTC, or nothing.
pub uninterp spec fn rfc3339_moment(text: Seq<char>) -> Option<(i64, u32)>;

/// The RFC 3339 text that chrono writes for a moment in UTC.
pub uninterp spec fn rfc3339_text(secs: i64, nanos: u32) -> Seq<char>;

/// The moment that a text denotes, if it is an RFC 3339 date and time.
pub open spec fn parsed_moment(text: Seq<char>) -> Option<Timestamp> {
    match rfc3339_moment(text) {
        Some((secs, nanos)) => Some(Timestamp { secs, nanos }),
        None => None,
    }
}

/// `chrono::DateTime::parse_from_rfc3339`, with its result in UTC as
/// `timestamp` and `timestamp_subsec_nanos` give it. What it accepts has a
/// name here and is not spelled out. A result always is a valid moment.
#[verifier::external_body]
fn parse_from_rfc3339(text: &str) -> (moment: Option<(i64, u32)>)
    ensures
        moment == rfc3339_moment(text@),
        moment matches Some((secs, nanos)) ==> (Timestamp { secs, nanos }).valid(),
{
    chrono::DateTime::parse_from_rfc3339(text)
        .ok()
        .map(|t| (t.timestamp(), t.timestamp_subsec_nanos()))
}

/// `chrono::Utc::now`. Nothing is promised of the moment but that it is a
/// valid one, not before 1970; with a system clock set earlier the call panics.
#[verifier::external_body]
pub(crate) fn utc_now() -> (now: ClockReading)
    ensures
        now@.valid(),
        now@.secs >= 0,
{
    let t = chrono::Utc::now();
    ClockReading {
        moment: Timestamp { secs: t.timestamp(), nanos: t.timestamp_subsec_nanos() },
    }
}

/// The difference of two `chrono::DateTime<Utc>`, made with `from_timestamp`, and
/// `TimeDelta::num_days` of it: the whole days between the two moments, rounded
/// towards zero. `from_timestamp` knows every valid moment.
#[verifier::external_body]
fn num_days(later: Timestamp, earlier: Timestamp) -> (days: i64)
    requires
        later.valid(),
        earlier.valid(),
    ensures
        days == days_between(later, earlier),
{
    let later = chrono::DateTime::from_timestamp(later.secs, later.nanos).unwrap();
    let earlier = chrono::DateTime::from_timestamp(earlier.secs, earlier.nanos).unwrap();
    (later - earlier).num_days()
}

/// `chrono::DateTime::<Utc>::to_rfc3339`, of a moment made with `from_timestamp`,
/// which knows every valid one. The text has a name here and is not
/// spelled out.
#[verifier::external_body]
fn to_rfc3339(moment: Timestamp) -> (text: String)
    requires
        moment.valid(),
    ensures
        text@ == rfc3339_text(moment.secs, moment.nanos),
{
    chrono::DateTime::from_timestamp(moment.secs, moment.nanos).unwrap().to_rfc3339()
}

impl Timestamp {
    /// The moment that an RFC 3339 text denotes.
    pub fn parse(text: &str) -> (moment: Option<Timestamp>)
        ensures
            moment == parsed_moment(text@),
            moment matches Some(t) ==> t.valid(),
    {
        match parse_from_rfc3339(text) {
            Some((secs, nanos)) => Some(Timestamp { secs, nanos }),
            None => None,
        }
    }

    /// The whole days from `earlier` to this moment.
    pub fn days_since(self, earlier: Timestamp) -> (days: i64)
        requires
            self.valid(),
            earlier.valid(),
        ensures
            days == days_between(self, earlier),
    {
        num_days(self, earlier)
    }

    /// The moment as an RFC 3339 text in UTC.
    pub fn to_text(self) -> (text: String)
        requires
            self.valid(),
        ensures
            text@ == rfc3339_text(self.secs, self.nanos),
    {
        to_rfc3339(self)
    }
}

} // verus!
