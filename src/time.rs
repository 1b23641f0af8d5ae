use vstd::prelude::*;

verus! {

/// An instant in UTC: whole seconds since the Unix epoch and the nanoseconds
/// past that second (a leap second shows as `nanos` of a billion or more).
#[derive(Clone, Copy, Debug, PartialEq, Eq, Structural)]
pub struct UtcTime {
    pub secs: i64,
    pub nanos: u32,
}

/// `a` is the same instant as `b` or a later one.
pub open spec fn at_or_after(a: UtcTime, b: UtcTime) -> bool {
    a.secs > b.secs || (a.secs == b.secs && a.nanos >= b.nanos)
}

/// `a` is an instant strictly after `b`.
pub open spec fn later_than(a: UtcTime, b: UtcTime) -> bool {
    !at_or_after(b, a)
}

/// Seconds from the start of `t`'s second to the start of the next minute.
pub open spec fn secs_to_next_minute(t: UtcTime) -> int {
    60 - (t.secs as int) % 60
}

impl UtcTime {
    pub fn new(secs: i64, nanos: u32) -> (r: UtcTime)
        ensures
            r.secs == secs,
            r.nanos == nanos,
    {
        UtcTime { secs, nanos }
    }

    /// Whether `self` is the instant `other` or later.
    pub fn is_at_or_after(&self, other: &UtcTime) -> (r: bool)
        ensures
            r == at_or_after(*self, *other),
    {
        self.secs > other.secs || (self.secs == other.secs && self.nanos >= other.nanos)
    }

    /// The second within the minute, from 0 to 59.
    pub fn second_of_minute(&self) -> (r: u32)
        ensures
            r as int == (self.secs as int) % 60,
            r < 60,
    {
        let s = self.secs % 60;
        if s < 0 {
            (s + 60) as u32
        } else {
            s as u32
        }
    }
}

/// How long the scheduler sleeps after a tick at `now`: until the top of the
/// next minute, at least one second.
pub fn seconds_until_next_minute(now: UtcTime) -> (r: u64)
    ensures
        r as int == secs_to_next_minute(now),
        1 <= r <= 60,
{
    (60 - now.second_of_minute()) as u64
}

} // verus!

verus! {

/// Nanoseconds since the Unix epoch of an instant.
pub open spec fn epoch_nanos(t: UtcTime) -> int {
    t.secs * 1_000_000_000 + t.nanos
}

/// Relies on `std::time::SystemTime::now` measured with `duration_since`
/// against `UNIX_EPOCH`: whether the clock is at or after the epoch, and the
/// distance to it as whole seconds and `Duration::subsec_nanos`, which is
/// always below a billion.
#[verifier::external_body]
fn read_clock() -> (r: (bool, u64, u32))
    ensures
        r.2 < 1_000_000_000,
{
    match std::time::SystemTime::now().duration_since(std::time::UNIX_EPOCH) {
        Ok(d) => (true, d.as_secs(), d.subsec_nanos()),
        Err(e) => (false, e.duration().as_secs(), e.duration().subsec_nanos()),
    }
}

/// The instant at `secs` seconds and `nanos` nanoseconds after the epoch, or
/// before it when `after_epoch` is false. A distance past the range of
/// `UtcTime` gives its latest or earliest instant.
pub fn instant_from_clock(after_epoch: bool, secs: u64, nanos: u32) -> (r: UtcTime)
    requires
        nanos < 1_000_000_000,
    ensures
        r.nanos < 1_000_000_000,
        secs <= i64::MAX && after_epoch ==> r == (UtcTime { secs: secs as i64, nanos }),
        secs <= i64::MAX && !after_epoch ==> epoch_nanos(r) == -(secs * 1_000_000_000 + nanos),
        secs > i64::MAX && after_epoch ==> r == (UtcTime { secs: i64::MAX, nanos: 999_999_999 }),
        secs > i64::MAX && !after_epoch ==> r == (UtcTime { secs: i64::MIN, nanos: 0 }),
{
    if secs > i64::MAX as u64 {
        if after_epoch {
            UtcTime { secs: i64::MAX, nanos: 999_999_999 }
        } else {
            UtcTime { secs: i64::MIN, nanos: 0 }
        }
    } else if after_epoch {
        UtcTime { secs: secs as i64, nanos }
    } else if nanos == 0 {
        UtcTime { secs: -(secs as i64), nanos: 0 }
    } else {
        UtcTime { secs: -(secs as i64) - 1, nanos: 1_000_000_000 - nanos }
    }
}

/// The system clock as a UTC instant.
pub fn now_utc() -> (r: UtcTime)
    ensures
        r.nanos < 1_000_000_000,
{
    let (after_epoch, secs, nanos) = read_clock();
    instant_from_clock(after_epoch, secs, nanos)
}

/// Seconds from now, by the system clock, to the top of the next minute.
pub fn seconds_left_in_minute() -> (r: u64)
    ensures
        exists|now: UtcTime| now.nanos < 1_000_000_000 && r as int == secs_to_next_minute(now),
        1 <= r <= 60,
{
    seconds_until_next_minute(now_utc())
}

} // verus!
