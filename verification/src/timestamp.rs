//! Points in time, and the text clients receive for them.

use vstd::prelude::*;

verus! {

/// An instant, with the offset from UTC of the clock that recorded it.
#[derive(Debug, Clone, Copy, PartialEq, Eq, Structural)]
pub struct Timestamp {
    /// Whole seconds since the Unix epoch.
    pub seconds: i64,
    /// Nanoseconds since the last whole second.
    pub nanos: u32,
    /// What the recording clock was ahead of UTC, in seconds.
    pub offset: i32,
}

/// The RFC 3339 text of the instant `seconds` and `nanos` after the Unix
/// epoch, as a clock `offset` seconds ahead of UTC shows it.
pub uninterp spec fn rfc3339(seconds: int, nanos: int, offset: int) -> Seq<char>;

/// The first second that the calendar holds, in seconds since the Unix
/// epoch: the first of the year 262144 before the common era.
pub const EARLIEST_SECOND: i64 = -8334601228800;

/// The last second that the calendar holds, in seconds since the Unix epoch:
/// the last of the year 262142.
pub const LATEST_SECOND: i64 = 8210266876799;

/// Whether the calendar holds an instant: its clock is less than a day off
/// UTC, its second is one of the calendar, and its nanoseconds make less than
/// a second, or less than two in the last second of a minute, where a leap
/// second can stand.
pub open spec fn calendar_holds(seconds: int, nanos: int, offset: int) -> bool {
    &&& -86400 < offset < 86400
    &&& EARLIEST_SECOND <= seconds <= LATEST_SECOND
    &&& (nanos < 1_000_000_000 || (nanos < 2_000_000_000 && seconds % 60 == 59))
}

/// Makes the instant with `chrono::DateTime::from_timestamp`, moves it to the
/// offset made with `chrono::FixedOffset::east_opt`, and calls
/// `DateTime::to_rfc3339` on it. There is an answer exactly when both can be
/// made, and it is the RFC 3339 text of the instant at that offset.
/// `east_opt` takes the offsets of less than a day and no others.
/// `from_timestamp` takes the instants whose day lies in chrono's calendar,
/// from the first day of its least year to the last day of its greatest,
/// with nanoseconds below a second, or below two in the last second of a
/// minute, where a leap second can stand.
#[verifier::external_body]
fn format_rfc3339(seconds: i64, nanos: u32, offset: i32) -> (r: Option<String>)
    ensures
        r is Some <==> calendar_holds(seconds as int, nanos as int, offset as int),
        r matches Some(text) ==> text@ == rfc3339(seconds as int, nanos as int, offset as int),
{
    let zone = chrono::FixedOffset::east_opt(offset)?;
    let instant = chrono::DateTime::from_timestamp(seconds, nanos)?;
    Some(instant.with_timezone(&zone).to_rfc3339())
}

impl Timestamp {
    /// The RFC 3339 text of this instant.
    pub open spec fn text(self) -> Seq<char> {
        rfc3339(self.seconds as int, self.nanos as int, self.offset as int)
    }

    /// Whether the calendar holds this instant.
    pub open spec fn has_text(self) -> bool {
        calendar_holds(self.seconds as int, self.nanos as int, self.offset as int)
    }

    /// The RFC 3339 text of this instant, such as `2022-03-01T12:00:00+00:00`;
    /// `None` for an instant that the calendar does not hold.
    pub fn to_rfc3339(&self) -> (r: Option<String>)
        ensures
            r is Some <==> self.has_text(),
            r matches Some(text) ==> text@ == self.text(),
    {
        format_rfc3339(self.seconds, self.nanos, self.offset)
    }
}

} // verus!
