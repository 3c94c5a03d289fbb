//! Plain time values: instants and spans in nanoseconds, and calendar months.

use vstd::prelude::*;

verus! {

/// Nanoseconds in one second.
pub const NANOS_PER_SECOND: i128 = 1_000_000_000;

/// First second that a calendar instant can name (year -9999).
pub const FIRST_SECOND: i64 = -377_705_116_800;

/// Last second that a calendar instant can name (year 9999).
pub const LAST_SECOND: i64 = 253_402_300_799;

/// An instant, in nanoseconds since the Unix epoch.
#[derive(Clone, Copy, Debug, PartialEq, Eq, Structural)]
pub struct UtcTime {
    pub nanos: i128,
}

/// A signed span of time, in nanoseconds.
#[derive(Clone, Copy, Debug, PartialEq, Eq, Structural)]
pub struct Duration {
    pub nanos: i128,
}

/// Whether the whole second can be named by a calendar instant.
pub open spec fn calendar_second(second: int) -> bool {
    FIRST_SECOND <= second <= LAST_SECOND
}

impl UtcTime {
    /// Instants inside the calendar range.
    pub open spec fn wf(self) -> bool {
        FIRST_SECOND * NANOS_PER_SECOND <= self.nanos < (LAST_SECOND + 1) * NANOS_PER_SECOND
    }

    /// Whole seconds since the epoch, rounded towards the past.
    pub open spec fn second(self) -> int {
        self.nanos as int / NANOS_PER_SECOND as int
    }

    /// Whole seconds since the epoch, rounded towards the past.
    pub fn unix_timestamp(self) -> (second: i64)
        requires
            self.wf(),
        ensures
            second == self.second(),
            calendar_second(second as int),
    {
        let quotient: i128 = self.nanos / NANOS_PER_SECOND;
        let second: i128 = if self.nanos % NANOS_PER_SECOND < 0 {
            quotient - 1
        } else {
            quotient
        };
        second as i64
    }

    /// The instant that starts the whole second.
    pub open spec fn at(second: int) -> UtcTime {
        UtcTime { nanos: (second * NANOS_PER_SECOND) as i128 }
    }

    /// The instant at a whole second, where the calendar can name it.
    pub fn from_unix_timestamp(second: i64) -> (result: Option<UtcTime>)
        ensures
            result == if calendar_second(second as int) {
                Some(UtcTime::at(second as int))
            } else {
                None::<UtcTime>
            },
            result matches Some(value) ==> value.wf() && value.second() == second,
    {
        if FIRST_SECOND <= second && second <= LAST_SECOND {
            Some(UtcTime { nanos: second as i128 * NANOS_PER_SECOND })
        } else {
            None
        }
    }

    /// The instant with its fraction of a second dropped.
    pub fn canonical_second(self) -> (result: UtcTime)
        requires
            self.wf(),
        ensures
            result == UtcTime::at(self.second()),
            result.wf(),
            result.second() == self.second(),
            result.nanos <= self.nanos,
    {
        UtcTime { nanos: self.unix_timestamp() as i128 * NANOS_PER_SECOND }
    }

    /// The instant `span` later, where the calendar can name it.
    pub fn checked_add(self, span: Duration) -> (result: Option<UtcTime>)
        requires
            self.wf(),
            span.wf(),
        ensures
            result == if (UtcTime { nanos: (self.nanos + span.nanos) as i128 }).wf() {
                Some(UtcTime { nanos: (self.nanos + span.nanos) as i128 })
            } else {
                None::<UtcTime>
            },
            result matches Some(value) ==> value.nanos == self.nanos + span.nanos,
    {
        let nanos: i128 = self.nanos + span.nanos;
        if FIRST_SECOND as i128 * NANOS_PER_SECOND <= nanos && nanos < (LAST_SECOND as i128 + 1)
            * NANOS_PER_SECOND {
            Some(UtcTime { nanos })
        } else {
            None
        }
    }
}

impl Duration {
    /// Spans whose whole seconds fit 64 bits.
    pub open spec fn wf(self) -> bool {
        i64::MIN * NANOS_PER_SECOND - NANOS_PER_SECOND < self.nanos < i64::MAX * NANOS_PER_SECOND
            + NANOS_PER_SECOND
    }

    /// Whole seconds of the span, rounded towards zero.
    pub open spec fn seconds_of(nanos: int) -> int {
        if nanos >= 0 {
            nanos / NANOS_PER_SECOND as int
        } else {
            -((-nanos) / NANOS_PER_SECOND as int)
        }
    }

    /// A span of whole seconds.
    pub fn seconds(count: i64) -> (result: Duration)
        ensures
            result.nanos == count * NANOS_PER_SECOND,
            result.wf(),
    {
        Duration { nanos: count as i128 * NANOS_PER_SECOND }
    }

    /// Whether the span is longer than zero.
    pub fn is_positive(self) -> (result: bool)
        ensures
            result == (self.nanos > 0),
    {
        self.nanos > 0
    }

    /// Whole seconds of the span, rounded towards zero.
    pub fn whole_seconds(self) -> (result: i64)
        requires
            self.wf(),
        ensures
            result == Duration::seconds_of(self.nanos as int),
    {
        let quotient: i128 = self.nanos / NANOS_PER_SECOND;
        quotient as i64
    }
}

/// Whether a principal resolved at `resolved_at`, with credential expiry
/// `expires_at`, may still act at `now` when resolutions older than `maximum`
/// are refused.
pub open spec fn fresh_within(
    resolved_at: UtcTime,
    expires_at: Option<UtcTime>,
    now: UtcTime,
    maximum: Duration,
) -> bool {
    &&& resolved_at.nanos <= now.nanos
    &&& now.nanos - resolved_at.nanos <= maximum.nanos
    &&& expires_at matches Some(expiry) ==> now.nanos < expiry.nanos
}

/// Whether a resolution is current; an age equal to the bound is accepted.
pub fn is_fresh_within(
    resolved_at: UtcTime,
    expires_at: Option<UtcTime>,
    now: UtcTime,
    maximum: Duration,
) -> (result: bool)
    requires
        resolved_at.wf(),
        now.wf(),
    ensures
        result == fresh_within(resolved_at, expires_at, now, maximum),
{
    let live: bool = match expires_at {
        Some(expiry) => now.nanos < expiry.nanos,
        None => true,
    };
    resolved_at.nanos <= now.nanos && now.nanos - resolved_at.nanos <= maximum.nanos && live
}

/// A resolution may act from its instant on, for as long as the bound allows,
/// the last instant included, and only before its credential expires.
pub proof fn freshness_is_an_interval(
    resolved_at: UtcTime,
    expires_at: Option<UtcTime>,
    now: UtcTime,
    maximum: Duration,
)
    ensures
        fresh_within(resolved_at, expires_at, now, maximum) <==> resolved_at.nanos <= now.nanos
            <= resolved_at.nanos + maximum.nanos && (expires_at is None || expires_at->0.nanos
            > now.nanos),
{
}

/// Dropping the fraction of a second keeps the second, and rounds towards the
/// past.
pub proof fn whole_seconds_round_down(time: UtcTime, span: Duration)
    requires
        time.wf(),
    ensures
        UtcTime::at(time.second()).nanos <= time.nanos < UtcTime::at(time.second()).nanos
            + 1_000_000_000,
        UtcTime::at(time.second()).nanos == time.second() * 1_000_000_000,
        span.nanos >= 0 ==> Duration::seconds_of(span.nanos as int) * 1_000_000_000 <= span.nanos
            < (Duration::seconds_of(span.nanos as int) + 1) * 1_000_000_000,
        span.nanos < 0 ==> Duration::seconds_of(span.nanos as int) == -Duration::seconds_of(
            -span.nanos,
        ),
{
}

/// The calendar runs from the first second of the year -9999 to the last one of
/// the year 9999.
pub proof fn calendar_runs_from_first_to_last_second(time: UtcTime, second: int)
    ensures
        calendar_second(second) <==> -377_705_116_800 <= second <= 253_402_300_799,
        time.wf() <==> calendar_second(time.second()),
        NANOS_PER_SECOND == 1_000_000_000,
{
}

} // verus!
