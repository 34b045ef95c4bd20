//! The moment a record was made: an instant, with the local offset from UTC.

use vstd::prelude::*;

verus! {

/// Seconds from the epoch to the first second of the year 0000; it lies
/// before the epoch.
pub const FIRST_SECOND: i64 = -62_167_219_200;

/// Seconds from the epoch to the last second of the year 9999.
pub const LAST_SECOND: i64 = 253_402_300_799;

/// An offset from UTC stays below one day, east or west.
pub const OFFSET_LIMIT: i32 = 86_400;

/// Nanoseconds in a second. A count from here up to twice this stands for a
/// leap second.
pub const NANOS_PER_SECOND: u32 = 1_000_000_000;

/// Whether a moment can be written with a four-digit year: the offset is
/// less than a day, the local time lies in the years 0000 to 9999, and the
/// nanoseconds are below a second, or below two in the last second of a
/// minute (a leap second).
pub open spec fn representable(seconds: int, nanos: int, offset: int) -> bool {
    &&& -OFFSET_LIMIT < offset < OFFSET_LIMIT
    &&& FIRST_SECOND <= seconds + offset <= LAST_SECOND
    &&& 0 <= nanos < 2 * NANOS_PER_SECOND
    &&& nanos >= NANOS_PER_SECOND ==> seconds % 60 == 59
}

/// The text of a moment in RFC 3339, as chrono writes it: the local date and
/// time, the fraction of the second in 0, 3, 6 or 9 digits, and the offset
/// as `Z` or as hours and minutes.
pub uninterp spec fn rfc3339_text(seconds: int, nanos: int, offset: int) -> Seq<char>;

/// What a `Timestamp` stands for.
pub struct Moment {
    /// Seconds since 1970-01-01T00:00:00Z, leap seconds not counted.
    pub seconds: int,
    /// Nanoseconds into that second.
    pub nanos: int,
    /// Seconds that local time is ahead of UTC.
    pub offset: int,
}

impl Moment {
    /// The moment in RFC 3339.
    pub open spec fn text(self) -> Seq<char> {
        rfc3339_text(self.seconds, self.nanos, self.offset)
    }
}

/// A moment in local time that RFC 3339 can express.
#[derive(Clone, Copy, Debug, PartialEq, Eq)]
pub struct Timestamp {
    seconds: i64,
    nanos: u32,
    offset: i32,
}

impl View for Timestamp {
    type V = Moment;

    closed spec fn view(&self) -> Moment {
        Moment {
            seconds: self.seconds as int,
            nanos: self.nanos as int,
            offset: self.offset as int,
        }
    }
}

/// Has chrono write the moment: `FixedOffset::east_opt` and
/// `DateTime::from_timestamp` make the date-time from the three numbers,
/// `DateTime::with_timezone` puts it at the offset, and
/// `DateTime::to_rfc3339_opts` with `SecondsFormat::AutoSi` and `Z` allowed
/// writes it, as chrono's `Serialize` for a `DateTime` does. The text
/// depends on the three numbers alone. Off the representable moments the
/// first two may refuse and the last may panic, so those are left out.
#[verifier::external_body]
fn rfc3339(seconds: i64, nanos: u32, offset: i32) -> (text: String)
    requires
        representable(seconds as int, nanos as int, offset as int),
    ensures
        text@ == rfc3339_text(seconds as int, nanos as int, offset as int),
{
    let zone = chrono::FixedOffset::east_opt(offset).unwrap();
    let utc = chrono::DateTime::from_timestamp(seconds, nanos).unwrap();
    utc.with_timezone(&zone).to_rfc3339_opts(chrono::SecondsFormat::AutoSi, true)
}

impl Timestamp {
    #[verifier::type_invariant]
    spec fn well_formed(self) -> bool {
        representable(self.seconds as int, self.nanos as int, self.offset as int)
    }

    /// The timestamp of `seconds` since the epoch and `nanos` more, seen at
    /// `offset` seconds east of UTC; `None` where RFC 3339 cannot express it.
    pub fn new(seconds: i64, nanos: u32, offset: i32) -> (made: Option<Timestamp>)
        ensures
            made is Some <==> representable(seconds as int, nanos as int, offset as int),
            made matches Some(t) ==> t@ == (Moment {
                seconds: seconds as int,
                nanos: nanos as int,
                offset: offset as int,
            }),
    {
        if offset <= -OFFSET_LIMIT || offset >= OFFSET_LIMIT {
            return None;
        }
        if seconds < FIRST_SECOND - OFFSET_LIMIT as i64
            || seconds > LAST_SECOND + OFFSET_LIMIT as i64 {
            return None;
        }
        let local: i64 = seconds + offset as i64;
        if local < FIRST_SECOND || local > LAST_SECOND {
            return None;
        }
        if nanos >= 2 * NANOS_PER_SECOND {
            return None;
        }
        if nanos >= NANOS_PER_SECOND {
            let second: i64 = seconds % 60;
            if !(second == 59 || second == -1) {
                return None;
            }
        }
        Some(Timestamp { seconds, nanos, offset })
    }

    /// Seconds since the epoch.
    pub fn seconds(&self) -> (seconds: i64)
        ensures
            seconds == self@.seconds,
    {
        self.seconds
    }

    /// Nanoseconds into the second.
    pub fn nanos(&self) -> (nanos: u32)
        ensures
            nanos == self@.nanos,
    {
        self.nanos
    }

    /// Seconds that local time is ahead of UTC.
    pub fn offset(&self) -> (offset: i32)
        ensures
            offset == self@.offset,
    {
        self.offset
    }

    /// The timestamp in RFC 3339.
    pub fn to_rfc3339(&self) -> (text: String)
        ensures
            text@ == self@.text(),
    {
        proof {
            use_type_invariant(self);
        }
        rfc3339(self.seconds, self.nanos, self.offset)
    }
}

} // verus!
