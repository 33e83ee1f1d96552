//! Instants on the UTC time line and their RFC 3339 text.

use vstd::prelude::*;

verus! {

/// Seconds since the Unix epoch of the first instant that can be rendered:
/// midnight of 1 January of the year -262143.
pub const MIN_SECS: i64 = -8_334_601_228_800;

/// Seconds since the Unix epoch of the last second that can be rendered:
/// 23:59:59 of 31 December of the year 262142.
pub const MAX_SECS: i64 = 8_210_266_876_799;

/// One more than the largest nanosecond count within a second.
pub const NANOS_PER_SEC: u32 = 1_000_000_000;

/// Whether `secs` whole seconds and `nanos` nanoseconds after the Unix epoch
/// name an instant that has an RFC 3339 rendering.
pub open spec fn renderable(secs: int, nanos: int) -> bool {
    &&& MIN_SECS <= secs <= MAX_SECS
    &&& 0 <= nanos < NANOS_PER_SEC
}

/// The whole second in which the instant lies that is `secs` seconds and
/// `nanos` nanoseconds before the Unix epoch.
pub open spec fn spec_secs_before(secs: int, nanos: int) -> int {
    if nanos == 0 {
        -secs
    } else {
        -secs - 1
    }
}

/// The nanoseconds past that whole second.
pub open spec fn spec_nanos_before(nanos: int) -> int {
    if nanos == 0 {
        0
    } else {
        NANOS_PER_SEC - nanos
    }
}

/// The RFC 3339 text, with a numeric `+00:00` offset, of the instant `secs`
/// seconds and `nanos` nanoseconds after the Unix epoch.
pub uninterp spec fn rfc3339_utc(secs: int, nanos: int) -> Seq<char>;

/// An instant between the years -262143 and 262142, to the nanosecond.
#[derive(Clone, Copy, Debug)]
pub struct Timestamp {
    secs: i64,
    nanos: u32,
}

impl Timestamp {
    #[verifier::type_invariant]
    spec fn in_range(self) -> bool {
        renderable(self.secs as int, self.nanos as int)
    }

    /// Whole seconds since the Unix epoch; negative before it.
    pub closed spec fn secs(self) -> int {
        self.secs as int
    }

    /// Nanoseconds past the whole second.
    pub closed spec fn nanos(self) -> int {
        self.nanos as int
    }

    /// The instant `secs` seconds and `nanos` nanoseconds after the Unix
    /// epoch, or `None` where that instant cannot be rendered.
    pub fn new(secs: i64, nanos: u32) -> (t: Option<Timestamp>)
        ensures
            t is Some <==> renderable(secs as int, nanos as int),
            t matches Some(ts) ==> ts.secs() == secs && ts.nanos() == nanos,
    {
        if MIN_SECS <= secs && secs <= MAX_SECS && nanos < NANOS_PER_SEC {
            Some(Timestamp { secs, nanos })
        } else {
            None
        }
    }

    /// The instant that lies `secs` seconds and `nanos` nanoseconds after
    /// the Unix epoch; `None` where `nanos` does not stay below one second
    /// or the instant cannot be rendered.
    pub fn after_epoch(secs: u64, nanos: u32) -> (t: Option<Timestamp>)
        ensures
            t is Some <==> renderable(secs as int, nanos as int),
            t matches Some(ts) ==> ts.secs() == secs && ts.nanos() == nanos,
    {
        if secs <= MAX_SECS as u64 {
            Timestamp::new(secs as i64, nanos)
        } else {
            None
        }
    }

    /// The instant that lies `secs` seconds and `nanos` nanoseconds before
    /// the Unix epoch; `None` where `nanos` does not stay below one second
    /// or the instant cannot be rendered.
    ///
    /// Nanoseconds always count forward from a whole second: half a second
    /// before the epoch is second -1 and 500,000,000 nanoseconds.
    pub fn before_epoch(secs: u64, nanos: u32) -> (t: Option<Timestamp>)
        ensures
            t is Some <==> nanos < NANOS_PER_SEC && renderable(
                spec_secs_before(secs as int, nanos as int),
                spec_nanos_before(nanos as int),
            ),
            t matches Some(ts) ==> ts.secs() == spec_secs_before(secs as int, nanos as int)
                && ts.nanos() == spec_nanos_before(nanos as int),
    {
        if secs > MAX_SECS as u64 + MAX_SECS as u64 || nanos >= NANOS_PER_SEC {
            None
        } else if nanos == 0 {
            Timestamp::new(-(secs as i64), 0)
        } else {
            Timestamp::new(-(secs as i64) - 1, NANOS_PER_SEC - nanos)
        }
    }

    /// The Unix epoch, 1 January 1970 at midnight.
    pub fn epoch() -> (t: Timestamp)
        ensures
            t.secs() == 0,
            t.nanos() == 0,
    {
        Timestamp { secs: 0, nanos: 0 }
    }

    /// Whole seconds since the Unix epoch.
    pub fn seconds(&self) -> (s: i64)
        ensures
            s == self.secs(),
            MIN_SECS <= s <= MAX_SECS,
    {
        proof {
            use_type_invariant(self);
        }
        self.secs
    }

    /// Nanoseconds past the whole second.
    pub fn subsec_nanos(&self) -> (n: u32)
        ensures
            n == self.nanos(),
            n < NANOS_PER_SEC,
    {
        proof {
            use_type_invariant(self);
        }
        self.nanos
    }

    /// The instant as RFC 3339 text in UTC.
    pub fn to_rfc3339(&self) -> (text: String)
        ensures
            text@ == rfc3339_utc(self.secs(), self.nanos()),
    {
        proof {
            use_type_invariant(self);
        }
        render_rfc3339(self.secs, self.nanos)
    }
}

/// The text of an instant; that of the Unix epoch where there is none.
pub open spec fn text_or_epoch(at: Option<Timestamp>) -> Seq<char> {
    match at {
        Some(instant) => rfc3339_utc(instant.secs(), instant.nanos()),
        None => rfc3339_utc(0, 0),
    }
}

/// The text of an instant; that of the Unix epoch where there is none.
pub fn render_or_epoch(at: Option<Timestamp>) -> (text: String)
    ensures
        text@ == text_or_epoch(at),
{
    match at {
        Some(instant) => instant.to_rfc3339(),
        None => Timestamp::epoch().to_rfc3339(),
    }
}

/// Calls `chrono::DateTime::<Utc>::from_timestamp` and then
/// `DateTime::to_rfc3339` on its result.
///
/// Not proved: that for every renderable instant the first call returns a
/// date and time, and that the text then written depends on the two numbers
/// alone. The text itself is only named, by `rfc3339_utc`.
#[verifier::external_body]
fn render_rfc3339(secs: i64, nanos: u32) -> (text: String)
    requires
        renderable(secs as int, nanos as int),
    ensures
        text@ == rfc3339_utc(secs as int, nanos as int),
{
    chrono::DateTime::<chrono::Utc>::from_timestamp(secs, nanos).unwrap().to_rfc3339()
}

} // verus!
