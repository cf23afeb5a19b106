//! Points in time, held as plain numbers, and the two questions the ledger
//! asks of the calendar: what time is it, and in which month does a moment lie.

use vstd::prelude::*;

verus! {

/// A moment in UTC: whole seconds since 1970-01-01T00:00:00Z and the
/// nanoseconds past that second.
#[derive(Clone, Copy, Debug, PartialEq, Eq, Structural)]
pub struct Timestamp {
    pub secs: i64,
    pub nanos: u32,
}

/// The calendar month (1 to 12) of the UTC moment `secs` seconds and `nanos`
/// nanoseconds after the epoch, or `None` where the calendar cannot represent
/// that moment. It names two steps of chrono taken one after the other:
/// `DateTime::<Utc>::from_timestamp` makes the moment from the two numbers,
/// and `Datelike::month` reads its month.
pub uninterp spec fn utc_month(secs: i64, nanos: u32) -> Option<u32>;

impl Timestamp {
    /// The calendar month of this moment in UTC.
    pub open spec fn spec_month(self) -> Option<u32> {
        utc_month(self.secs, self.nanos)
    }

    /// Whether the calendar can represent this moment: it lies in one of
    /// the months 1 to 12.
    pub open spec fn in_calendar(self) -> bool {
        self.spec_month() matches Some(m) && 1 <= m <= 12
    }

    /// Whether this moment lies in calendar month `month` (1 to 12) in UTC.
    pub open spec fn in_month(self, month: u32) -> bool {
        self.spec_month() == Some(month)
    }

    /// The current moment, as the system clock gives it. Whatever the clock
    /// says, it is a moment that the calendar can represent: it lies in a
    /// month. Does not return where the system clock reads a time before
    /// 1970 or beyond the calendar's range.
    pub fn now() -> (now: Timestamp)
        ensures
            now.in_calendar(),
    {
        utc_now()
    }

    /// The calendar month (1 to 12) of this moment, `None` where the moment
    /// is outside the calendar's range.
    pub fn month(&self) -> (m: Option<u32>)
        ensures
            m == self.spec_month(),
            m matches Some(v) ==> 1 <= v <= 12,
    {
        month_of(self.secs, self.nanos)
    }
}

/// Trusted: `chrono::Utc::now`, read back through `DateTime::timestamp` and
/// `DateTime::timestamp_subsec_nanos`. Which moment comes back depends on
/// the system clock and is not claimed. The contract claims only that the
/// two numbers are those of a moment on the calendar, in a month 1 to 12:
/// `Utc::now` returns a `DateTime`, chrono documents that
/// `DateTime::from_timestamp` gives every `DateTime` back from the two
/// numbers read here, and that `Datelike::month` is 1 to 12. `Utc::now`
/// panics where the system clock reads a time before 1970 or beyond chrono's
/// range; nothing in a contract can exclude that.
#[verifier::external_body]
fn utc_now() -> (now: Timestamp)
    ensures
        now.in_calendar(),
{
    let t = chrono::Utc::now();
    Timestamp { secs: t.timestamp(), nanos: t.timestamp_subsec_nanos() }
}

/// Trusted: `chrono::DateTime::<Utc>::from_timestamp` followed by
/// `chrono::Datelike::month`. The contract claims that the answer depends on
/// the two numbers alone, and that a month, where there is one, is 1 to 12.
#[verifier::external_body]
fn month_of(secs: i64, nanos: u32) -> (m: Option<u32>)
    ensures
        m == utc_month(secs, nanos),
        m matches Some(v) ==> 1 <= v <= 12,
{
    let moment = chrono::DateTime::<chrono::Utc>::from_timestamp(secs, nanos)?;
    Some(chrono::Datelike::month(&moment))
}

} // verus!
