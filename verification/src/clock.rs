//! UTC timestamps, backed by `chrono`.
use vstd::prelude::*;

use chrono::{DateTime, Utc};

verus! {

/// Seconds in a day.
pub const SECS_PER_DAY: i64 = 86_400;

/// The UTC day (days since the Unix epoch, rounded down) of a Unix time.
pub open spec fn utc_day(secs: int) -> int {
    secs / SECS_PER_DAY as int
}

/// The UTC day of a Unix time.
pub fn utc_day_of(secs: i64) -> (day: i64)
    ensures
        day == utc_day(secs as int),
{
    if secs >= 0 {
        secs / SECS_PER_DAY
    } else {
        let t = -(secs + 1);
        let q = t / SECS_PER_DAY;
        let r = t % SECS_PER_DAY;
        proof {
            vstd::arithmetic::div_mod::lemma_fundamental_div_mod_converse(
                secs as int,
                SECS_PER_DAY as int,
                -q - 1,
                SECS_PER_DAY - r - 1,
            );
        }
        -q - 1
    }
}

/// Unix day (days since 1970-01-01) of chrono's first representable date,
/// -262143-01-01.
pub const CHRONO_MIN_UNIX_DAY: i64 = -96_465_292;

/// Unix day of chrono's last representable date, 262142-12-31.
pub const CHRONO_MAX_UNIX_DAY: i64 = 95_026_236;

/// Whether `chrono::DateTime::<Utc>::from_timestamp(secs, nanos)` yields a
/// date-time: the day lies within chrono's date range, the nanoseconds are
/// below two billion, and nanoseconds of a billion or more (a leap second)
/// fall only on the last second of a minute.
pub open spec fn chrono_accepts(secs: i64, nanos: u32) -> bool {
    let day = utc_day(secs as int);
    let second_of_day = secs - day * SECS_PER_DAY;
    &&& CHRONO_MIN_UNIX_DAY <= day <= CHRONO_MAX_UNIX_DAY
    &&& nanos < 2_000_000_000
    &&& (nanos < 1_000_000_000 || second_of_day % 60 == 59)
}

/// The text that `to_rfc3339` gives for the date-time
/// `chrono::DateTime::<Utc>::from_timestamp(secs, nanos)`.
pub uninterp spec fn rfc3339_text(secs: i64, nanos: u32) -> Seq<char>;

/// Whether chrono can represent the instant (`secs`, `nanos`), as
/// `chrono::DateTime::<Utc>::from_timestamp(secs, nanos).is_some()`.
pub fn chrono_accepts_exec(secs: i64, nanos: u32) -> (b: bool)
    ensures
        b == chrono_accepts(secs, nanos),
{
    let day = utc_day_of(secs);
    if day < CHRONO_MIN_UNIX_DAY || day > CHRONO_MAX_UNIX_DAY || nanos >= 2_000_000_000 {
        return false;
    }
    let second_of_day = secs - day * SECS_PER_DAY;
    nanos < 1_000_000_000 || second_of_day % 60 == 59
}

/// Calls `chrono::Utc::now()` and splits the result into `timestamp()` and
/// `timestamp_subsec_nanos()`. chrono builds `now()` as
/// `from_timestamp(secs, subsec_nanos).unwrap()` from the system time since
/// the Unix epoch, so the seconds are not negative, the nanoseconds are below
/// one billion and `from_timestamp` accepts the pair; which instant comes back
/// is not stated. chrono panics if the system clock is before 1970.
#[verifier::external_body]
fn utc_now_parts() -> (r: (i64, u32))
    ensures
        r.0 >= 0,
        r.1 < 1_000_000_000,
        chrono_accepts(r.0, r.1),
{
    let now = Utc::now();
    (now.timestamp(), now.timestamp_subsec_nanos())
}

/// Calls `chrono::DateTime::<Utc>::from_timestamp(secs, nanos)` and then
/// `to_rfc3339()` on the date-time; the contract names the text.
#[verifier::external_body]
fn rfc3339_exec(secs: i64, nanos: u32) -> (s: String)
    requires
        chrono_accepts(secs, nanos),
    ensures
        s@ == rfc3339_text(secs, nanos),
{
    DateTime::<Utc>::from_timestamp(secs, nanos).unwrap().to_rfc3339()
}

/// An instant in UTC: whole seconds since the Unix epoch and the nanoseconds
/// after them. Every value names an instant that chrono can represent.
#[derive(Clone, Copy, Debug)]
pub struct Timestamp {
    secs: i64,
    nanos: u32,
}

/// `timestamp_nanos_opt` of the instant (`secs`, `nanos`): nanoseconds since
/// the epoch, `None` where chrono's `i64` arithmetic overflows.
pub open spec fn nanos_since_epoch(secs: i64, nanos: u32) -> Option<i64> {
    let (t, ns) = if secs < 0 { (secs + 1, nanos - 1_000_000_000) } else { (secs as int, nanos as int) };
    let scaled = t * 1_000_000_000;
    if scaled < i64::MIN || scaled > i64::MAX {
        None
    } else if scaled + ns < i64::MIN || scaled + ns > i64::MAX {
        None
    } else {
        Some((scaled + ns) as i64)
    }
}

impl Timestamp {
    #[verifier::type_invariant]
    spec fn representable(self) -> bool {
        chrono_accepts(self.secs, self.nanos)
    }

    /// Whole seconds since the Unix epoch.
    pub closed spec fn spec_secs(&self) -> i64 {
        self.secs
    }

    /// Nanoseconds after the whole second.
    pub closed spec fn spec_nanos(&self) -> u32 {
        self.nanos
    }

    /// The instant given by `secs` and `nanos`, if chrono can represent it.
    pub fn from_unix(secs: i64, nanos: u32) -> (t: Option<Timestamp>)
        ensures
            t is Some <==> chrono_accepts(secs, nanos),
            t matches Some(t) ==> t.spec_secs() == secs && t.spec_nanos() == nanos,
    {
        if chrono_accepts_exec(secs, nanos) {
            Some(Timestamp { secs, nanos })
        } else {
            None
        }
    }

    /// The current instant.
    pub fn now() -> (t: Timestamp)
        ensures
            t.spec_secs() >= 0,
            t.spec_nanos() < 1_000_000_000,
    {
        let (secs, nanos) = utc_now_parts();
        Timestamp { secs, nanos }
    }

    /// Whole seconds since the Unix epoch.
    pub fn secs(&self) -> (s: i64)
        ensures
            s == self.spec_secs(),
    {
        self.secs
    }

    /// Nanoseconds after the whole second.
    pub fn nanos(&self) -> (n: u32)
        ensures
            n == self.spec_nanos(),
    {
        self.nanos
    }

    /// Nanoseconds since the epoch, as chrono's `timestamp_nanos_opt`.
    pub fn nanos_since_epoch(&self) -> (n: Option<i64>)
        ensures
            n == nanos_since_epoch(self.spec_secs(), self.spec_nanos()),
    {
        let (t, ns): (i64, i64) = if self.secs < 0 {
            (self.secs + 1, self.nanos as i64 - 1_000_000_000)
        } else {
            (self.secs, self.nanos as i64)
        };
        match t.checked_mul(1_000_000_000) {
            None => None,
            Some(scaled) => scaled.checked_add(ns),
        }
    }

    /// RFC 3339 text of the instant, as chrono's `to_rfc3339`.
    pub fn to_rfc3339(&self) -> (s: String)
        ensures
            s@ == rfc3339_text(self.spec_secs(), self.spec_nanos()),
    {
        proof {
            use_type_invariant(self);
        }
        rfc3339_exec(self.secs, self.nanos)
    }
}

} // verus!
