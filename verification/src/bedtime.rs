//! Times of day, bedtimes, and the distance between two bedtimes.

use vstd::prelude::*;

verus! {

/// Seconds in one calendar day.
pub const SECONDS_PER_DAY: u32 = 86_400;

/// How a time of day is written in a text field: the hour of a 24-hour
/// clock, a colon, and the minute.
pub const TIME_FORMAT: &'static str = "%H:%M";

/// A wall-clock time, held as whole seconds since midnight.
#[derive(Clone, Copy, Debug, PartialEq, Eq, Structural)]
pub struct TimeOfDay {
    pub secs: u32,
}

impl TimeOfDay {
    /// A time of day lies between 00:00:00 and 23:59:59.
    pub open spec fn wf(&self) -> bool {
        self.secs < SECONDS_PER_DAY
    }

    /// The seconds since midnight of `hour:min:sec`, where that is a time of day.
    pub open spec fn spec_from_hms(hour: int, min: int, sec: int) -> Option<int> {
        if 0 <= hour < 24 && 0 <= min < 60 && 0 <= sec < 60 {
            Some(hour * 3600 + min * 60 + sec)
        } else {
            None
        }
    }

    /// Builds the time `hour:min:sec`, or nothing where a field is out of range.
    pub fn from_hms(hour: u32, min: u32, sec: u32) -> (r: Option<TimeOfDay>)
        ensures
            match r {
                Some(t) => t.wf() && Self::spec_from_hms(hour as int, min as int, sec as int)
                    == Some(t.secs as int),
                None => Self::spec_from_hms(hour as int, min as int, sec as int).is_none(),
            },
    {
        if hour < 24 && min < 60 && sec < 60 {
            Some(TimeOfDay { secs: hour * 3600 + min * 60 + sec })
        } else {
            None
        }
    }

    /// Builds a time from seconds since midnight, or nothing at 86400 and above.
    pub fn from_secs(secs: u32) -> (r: Option<TimeOfDay>)
        ensures
            r == (if secs < SECONDS_PER_DAY {
                Some(TimeOfDay { secs })
            } else {
                None
            }),
    {
        if secs < SECONDS_PER_DAY {
            Some(TimeOfDay { secs })
        } else {
            None
        }
    }

    /// The time of day for the outcome of a parse: the seconds it gave,
    /// where it gave any and they are within a day.
    pub open spec fn spec_from_parsed(parsed: Option<u32>) -> Option<TimeOfDay> {
        match parsed {
            Some(secs) => if secs < SECONDS_PER_DAY {
                Some(TimeOfDay { secs })
            } else {
                None
            },
            None => None,
        }
    }

    /// Turns the outcome of a parse into a time of day.
    pub fn from_parsed(parsed: Option<u32>) -> (r: Option<TimeOfDay>)
        ensures
            r == Self::spec_from_parsed(parsed),
            r matches Some(t) ==> t.wf(),
    {
        match parsed {
            Some(secs) => Self::from_secs(secs),
            None => None,
        }
    }

    /// The time of day that `text` writes as hour and minute.
    pub open spec fn spec_parse(text: Seq<char>) -> Option<TimeOfDay> {
        Self::spec_from_parsed(parsed_time(text, TIME_FORMAT@))
    }

    /// Reads a time of day written as hour and minute, such as `23:05`.
    pub fn parse(text: &str) -> (r: Option<TimeOfDay>)
        ensures
            r == Self::spec_parse(text@),
            r matches Some(t) ==> t.wf(),
    {
        Self::from_parsed(parse_time(text, TIME_FORMAT))
    }

    pub fn hour(&self) -> (r: u32)
        ensures
            r == self.secs / 3600,
    {
        self.secs / 3600
    }

    pub fn minute(&self) -> (r: u32)
        ensures
            r == (self.secs / 60) % 60,
    {
        (self.secs / 60) % 60
    }

    pub fn second(&self) -> (r: u32)
        ensures
            r == self.secs % 60,
    {
        self.secs % 60
    }
}

/// What `chrono::NaiveTime::parse_from_str` makes of `text` under `format`,
/// as seconds since midnight; nothing where it reports an error.
pub uninterp spec fn parsed_time(text: Seq<char>, format: Seq<char>) -> Option<u32>;

/// `chrono::NaiveTime::parse_from_str`, the time read off as seconds since
/// midnight by `chrono::Timelike::num_seconds_from_midnight`. The outcome
/// depends on the text and the format alone; the contract names it and
/// claims nothing else of it.
#[verifier::external_body]
fn parse_time(text: &str, format: &str) -> (r: Option<u32>)
    ensures
        r == parsed_time(text@, format@),
{
    match chrono::NaiveTime::parse_from_str(text, format) {
        Ok(time) => Some(chrono::Timelike::num_seconds_from_midnight(&time)),
        Err(_) => None,
    }
}

/// A bedtime: a time of day, tagged with whether it falls on the calendar
/// day after the one it is recorded for.
#[derive(Clone, Copy, Debug, PartialEq, Eq, Structural)]
pub struct Bedtime {
    pub time: TimeOfDay,
    pub next_day: bool,
}

impl Bedtime {
    pub open spec fn wf(&self) -> bool {
        self.time.wf()
    }

    /// The instant of this bedtime, in seconds after the midnight that starts
    /// the day it is recorded for: a bedtime on the next day is a day later.
    pub open spec fn instant(&self) -> int {
        self.time.secs + if self.next_day {
            SECONDS_PER_DAY as int
        } else {
            0
        }
    }

    /// The whole minutes between the instants of two bedtimes.
    pub open spec fn spec_abs_diff(&self, other: &Bedtime) -> int {
        if other.instant() >= self.instant() {
            (other.instant() - self.instant()) / 60
        } else {
            (self.instant() - other.instant()) / 60
        }
    }

    /// The distance in whole minutes between this bedtime and `other`.
    pub fn abs_diff(&self, other: &Bedtime) -> (r: i64)
        ensures
            r == self.spec_abs_diff(other),
            r >= 0,
    {
        let mine: i64 = self.time.secs as i64 + if self.next_day {
            SECONDS_PER_DAY as i64
        } else {
            0
        };
        let theirs: i64 = other.time.secs as i64 + if other.next_day {
            SECONDS_PER_DAY as i64
        } else {
            0
        };
        if theirs >= mine {
            (theirs - mine) / 60
        } else {
            (mine - theirs) / 60
        }
    }
}

/// The distance between two bedtimes does not depend on their order.
pub proof fn lemma_abs_diff_symmetric(a: Bedtime, b: Bedtime)
    ensures
        a.spec_abs_diff(&b) == b.spec_abs_diff(&a),
{
}

/// A bedtime is at distance zero from itself.
pub proof fn lemma_abs_diff_self(a: Bedtime)
    ensures
        a.spec_abs_diff(&a) == 0,
{
}

} // verus!
