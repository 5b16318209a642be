//! Instants written with a fixed offset from UTC.

use vstd::prelude::*;

verus! {

/// An instant, together with the offset from UTC that it was written with.
#[derive(Clone, Copy, Debug, PartialEq, Eq, Structural)]
pub struct Timestamp {
    /// Whole seconds from 1970-01-01T00:00:00Z to the instant, negative
    /// before that day, leap seconds not counted.
    pub seconds: i64,
    /// Nanoseconds from that second to the instant; a thousand million or
    /// more within a leap second.
    pub nanoseconds: u32,
    /// Seconds by which the local time of the instant is ahead of UTC.
    pub offset: i32,
}

/// The instant that `chrono` reads from `text` as a
/// `DateTime<FixedOffset>`, or `None` where it reports an error.
pub uninterp spec fn parsed_timestamp(text: Seq<char>) -> Option<Timestamp>;

/// Calls `chrono`'s `FromStr` for `DateTime<FixedOffset>`, which accepts
/// RFC 3339 in a relaxed form, and reads the result through `timestamp`,
/// `timestamp_subsec_nanos` and `offset().local_minus_utc()`. The contract
/// names what the call yields: the same text always reads as the same
/// instant, or always fails.
#[verifier::external_body]
fn read_timestamp(text: &str) -> (r: Option<Timestamp>)
    ensures
        r == parsed_timestamp(text@),
{
    match text.parse::<chrono::DateTime<chrono::FixedOffset>>() {
        Ok(t) => Some(
            Timestamp {
                seconds: t.timestamp(),
                nanoseconds: t.timestamp_subsec_nanos(),
                offset: t.offset().local_minus_utc(),
            },
        ),
        Err(_) => None,
    }
}

impl Timestamp {
    /// Reads an instant from `text`.
    pub fn parse(text: &str) -> (r: Option<Timestamp>)
        ensures
            r == parsed_timestamp(text@),
    {
        read_timestamp(text)
    }

    /// Whether `self` and `other` are the same instant, whatever offsets
    /// they were written with.
    pub fn same_instant(&self, other: &Timestamp) -> (same: bool)
        ensures
            same == (self.seconds == other.seconds && self.nanoseconds == other.nanoseconds),
    {
        self.seconds == other.seconds && self.nanoseconds == other.nanoseconds
    }
}

} // verus!
