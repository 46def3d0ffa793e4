//! Instants as plain values, the clock, and elapsed time in milliseconds.

use vstd::prelude::*;

verus! {

/// Largest UNIX second the calendar supports (end of year 262142).
pub const MAX_SECS: i64 = 8_210_266_876_799i64;

/// Smallest UNIX second the calendar supports (start of year -262143).
pub const MIN_SECS: i64 = -8_334_601_315_200i64;

/// Nanoseconds in one second.
pub const NANOS_PER_SEC: u32 = 1_000_000_000u32;

/// An instant in UTC: whole seconds since the UNIX epoch and the
/// nanoseconds past that second.
#[derive(Clone, Copy, Debug, PartialEq, Eq, Structural)]
pub struct Timestamp {
    pub secs: i64,
    pub nanos: u32,
}

impl Timestamp {
    /// The instant lies in the supported calendar range and carries no
    /// leap-second nanoseconds.
    pub open spec fn wf(self) -> bool {
        &&& MIN_SECS <= self.secs <= MAX_SECS
        &&& self.nanos < NANOS_PER_SEC
    }

    /// Nanoseconds since the epoch.
    pub open spec fn total_nanos(self) -> int {
        self.secs * 1_000_000_000 + self.nanos
    }
}

/// Integer division of `a` by a positive `b`, rounded toward zero.
pub open spec fn div_toward_zero(a: int, b: int) -> int {
    if a >= 0 {
        a / b
    } else {
        -((-a) / b)
    }
}

/// Whole milliseconds from `start` to `end`, rounded toward zero
/// (negative when `end` is earlier).
pub open spec fn elapsed_millis_spec(start: Timestamp, end: Timestamp) -> int {
    div_toward_zero(end.total_nanos() - start.total_nanos(), 1_000_000)
}

/// The current instant of the system clock.
///
/// Calls `chrono::Utc::now`. Its source reads the system clock as a
/// duration since the epoch (panicking before it) and builds the instant
/// from its whole seconds and sub-second nanoseconds, which are below one
/// second; so the seconds are non-negative and within the calendar range.
/// Which instant comes back is not stated.
#[verifier::external_body]
pub(crate) fn now() -> (t: Timestamp)
    ensures
        t.wf(),
        t.secs >= 0,
{
    let t = chrono::Utc::now();
    Timestamp { secs: t.timestamp(), nanos: t.timestamp_subsec_nanos() }
}

/// Whole milliseconds elapsed from `start` to `end`, rounded toward zero.
pub fn elapsed_millis(start: Timestamp, end: Timestamp) -> (ms: i64)
    requires
        start.wf(),
        end.wf(),
    ensures
        ms as int == elapsed_millis_spec(start, end),
{
    let ds: i128 = end.secs as i128 - start.secs as i128;
    let dn: i128 = end.nanos as i128 - start.nanos as i128;
    let d: i128 = ds * 1_000_000_000i128 + dn;
    assert(d as int == end.total_nanos() - start.total_nanos());
    if d >= 0 {
        let q: i128 = d / 1_000_000i128;
        assert(q <= d);
        q as i64
    } else {
        let m: i128 = -d;
        let q: i128 = m / 1_000_000i128;
        assert(q <= m);
        -(q as i64)
    }
}

} // verus!
