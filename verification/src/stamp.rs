//! Wall-clock instants as plain values, and their RFC 3339 text.

use chrono::TimeZone;
use vstd::prelude::*;

verus! {

/// The largest number of seconds away from the Unix epoch that a tracked
/// instant may have (about 34 000 years either way).
pub const MAX_TRACKED_SECS: i64 = 0x100_0000_0000;

/// The largest number of seconds away from the Unix epoch that can be
/// formatted; it leaves room above [`MAX_TRACKED_SECS`] for the short shifts
/// that the tracker applies.
pub const MAX_FORMATTED_SECS: i64 = 0x200_0000_0000;

/// A wall-clock instant: seconds and nanoseconds since the Unix epoch (UTC),
/// together with the local offset east of UTC, in seconds, that was in force
/// when the instant was read.
#[derive(Clone, Copy, Debug, PartialEq, Eq)]
pub struct Stamp {
    pub secs: i64,
    pub nanos: u32,
    pub offset: i32,
}

/// The fields can be turned into a date and time: the nanoseconds stay below
/// one second, the offset is less than a day, and the instant lies within
/// [`MAX_FORMATTED_SECS`] of the epoch.
pub open spec fn formattable(secs: i64, nanos: u32, offset: i32) -> bool {
    &&& nanos < 1_000_000_000
    &&& -86_400 < offset < 86_400
    &&& -MAX_FORMATTED_SECS <= secs <= MAX_FORMATTED_SECS
}

/// The RFC 3339 text that chrono writes for the instant `secs`/`nanos` seen
/// at the UTC offset `offset`.
pub uninterp spec fn rfc3339_text(secs: i64, nanos: u32, offset: i32) -> Seq<char>;

/// Calls `chrono::FixedOffset::east_opt`, `chrono::TimeZone::timestamp_opt`
/// and `chrono::DateTime::to_rfc3339`. Claimed: for formattable fields both
/// constructors succeed (chrono accepts offsets strictly inside one day and
/// dates up to year 262 142), and the text returned is the one named
/// `rfc3339_text` for these three arguments.
#[verifier::external_body]
fn format_rfc3339(secs: i64, nanos: u32, offset: i32) -> (text: String)
    requires
        formattable(secs, nanos, offset),
    ensures
        text@ == rfc3339_text(secs, nanos, offset),
{
    let zone = chrono::FixedOffset::east_opt(offset).unwrap();
    zone.timestamp_opt(secs, nanos).unwrap().to_rfc3339()
}

impl Stamp {
    /// A tracked instant: its nanoseconds stay below one second, its offset
    /// is less than a day and it lies within [`MAX_TRACKED_SECS`] of the epoch.
    pub open spec fn wf(self) -> bool {
        &&& self.nanos < 1_000_000_000
        &&& -86_400 < self.offset < 86_400
        &&& -MAX_TRACKED_SECS <= self.secs <= MAX_TRACKED_SECS
    }

    /// The RFC 3339 text of this instant, as chrono writes it.
    pub open spec fn text(self) -> Seq<char> {
        rfc3339_text(self.secs, self.nanos, self.offset)
    }

    /// The instant `delta` seconds later, seen at the UTC offset `offset`
    /// (the local offset in force at that later instant).
    pub open spec fn shifted(self, delta: i64, offset: i32) -> Stamp {
        Stamp { secs: (self.secs + delta) as i64, nanos: self.nanos, offset }
    }

    /// Builds an instant from a clock reading, or `None` when the reading is
    /// not a tracked instant.
    pub fn new(secs: i64, nanos: u32, offset: i32) -> (r: Option<Stamp>)
        ensures
            r matches Some(s) ==> s == (Stamp { secs, nanos, offset }) && s.wf(),
            r is None <==> !(Stamp { secs, nanos, offset }).wf(),
            r is Some <==> (nanos < 1_000_000_000 && -86_400 < offset < 86_400
                && -0x100_0000_0000 <= secs <= 0x100_0000_0000),
    {
        if nanos < 1_000_000_000 && -86_400 < offset && offset < 86_400
            && -MAX_TRACKED_SECS <= secs && secs <= MAX_TRACKED_SECS {
            Some(Stamp { secs, nanos, offset })
        } else {
            None
        }
    }

    /// The instant `delta` seconds later, seen at `offset`, the local offset
    /// in force at that later instant: adding whole seconds to a local date
    /// and time moves the instant and looks the offset up again.
    pub fn plus_seconds(&self, delta: i64, offset: i32) -> (r: Stamp)
        requires
            self.wf(),
            -MAX_TRACKED_SECS <= delta <= MAX_TRACKED_SECS,
            -86_400 < offset < 86_400,
        ensures
            r == self.shifted(delta, offset),
            r.secs == self.secs + delta,
            r.nanos == self.nanos,
            r.offset == offset,
    {
        Stamp { secs: self.secs + delta, nanos: self.nanos, offset }
    }

    /// The RFC 3339 text of this instant.
    pub fn to_rfc3339(&self) -> (text: String)
        requires
            formattable(self.secs, self.nanos, self.offset),
        ensures
            text@ == self.text(),
            text@ == rfc3339_text(self.secs, self.nanos, self.offset),
    {
        format_rfc3339(self.secs, self.nanos, self.offset)
    }
}

/// A tracked instant is exactly one whose nanoseconds stay below one
/// second, whose offset is less than a day either way, and which lies within
/// 2^40 seconds of the epoch.
pub proof fn law_tracked_bounds(s: Stamp)
    ensures
        s.wf() <==> (s.nanos < 1_000_000_000 && -86_400 < s.offset < 86_400
            && -0x100_0000_0000 <= s.secs <= 0x100_0000_0000),
{
}

/// Fields can be formatted exactly when the nanoseconds stay below one
/// second, the offset is less than a day either way, and the instant lies
/// within 2^41 seconds of the epoch.
pub proof fn law_formattable_bounds(secs: i64, nanos: u32, offset: i32)
    ensures
        formattable(secs, nanos, offset) <==> (nanos < 1_000_000_000 && -86_400 < offset < 86_400
            && -0x200_0000_0000 <= secs <= 0x200_0000_0000),
{
}

/// A tracked instant moved ten seconds later can still be formatted, at any
/// offset of less than a day.
pub proof fn law_shift_by_ten_formattable(s: Stamp, offset: i32)
    requires
        s.wf(),
        -86_400 < offset < 86_400,
    ensures
        formattable((s.secs + 10) as i64, s.nanos, offset),
{
}

/// Shifting moves the instant by exactly `delta` seconds, keeps its
/// nanoseconds and takes the given offset.
pub proof fn law_shift_moves_by_delta(s: Stamp, delta: i64, offset: i32)
    requires
        i64::MIN <= s.secs + delta <= i64::MAX,
    ensures
        s.shifted(delta, offset).secs == s.secs + delta,
        s.shifted(delta, offset).nanos == s.nanos,
        s.shifted(delta, offset).offset == offset,
{
}

/// Shifting twice adds the shifts; the last offset given is kept.
pub proof fn law_shifts_add(s: Stamp, d1: i64, o1: i32, d2: i64, o2: i32)
    requires
        i64::MIN <= s.secs + d1 <= i64::MAX,
        i64::MIN <= s.secs + d1 + d2 <= i64::MAX,
        i64::MIN <= d1 + d2 <= i64::MAX,
    ensures
        s.shifted(d1, o1).shifted(d2, o2) == s.shifted((d1 + d2) as i64, o2),
{
}

/// The text of an instant is chrono's RFC 3339 text of its own three fields.
pub proof fn law_text_of_fields(s: Stamp)
    ensures
        s.text() == rfc3339_text(s.secs, s.nanos, s.offset),
{
}

} // verus!
