//! The wall clock and the monotonic clock, read in milliseconds.

use crate::snowflake_error::SnowflakeIdError;
use std::time::{Duration, Instant, SystemTime, SystemTimeError, UNIX_EPOCH};
use vstd::prelude::*;
use vstd::string::*;

verus! {

/// A point in time of the system's wall clock, `std::time::SystemTime`: carried, never looked into.
#[verifier::external_type_specification]
#[verifier::external_body]
pub struct ExSystemTime(std::time::SystemTime);

/// The error of a wall clock that stands before the point it is measured from,
/// `std::time::SystemTimeError`.
#[verifier::external_type_specification]
#[verifier::external_body]
pub struct ExSystemTimeError(SystemTimeError);

/// A point in time of the monotonic clock, `std::time::Instant`: carried, never looked into.
#[verifier::external_type_specification]
#[verifier::external_body]
pub struct ExInstant(Instant);

/// `SystemTime::now`: some point in time; nothing is claimed of it.
pub assume_specification[ std::time::SystemTime::now ]() -> std::time::SystemTime;

/// `Instant::now`: some point in time; nothing is claimed of it.
pub assume_specification[ Instant::now ]() -> Instant;

/// The time from an earlier instant to a later one.
pub uninterp spec fn time_between(later: Instant, earlier: Instant) -> Duration;

/// `Instant::elapsed`: the time passed since the instant, up to some instant, which depends on when
/// it is called.
pub assume_specification[ Instant::elapsed ](instant: &Instant) -> (r: Duration)
    ensures
        exists|now: Instant| r == #[trigger] time_between(now, *instant),
;

/// The whole milliseconds that a duration holds.
pub uninterp spec fn duration_millis(duration: Duration) -> u128;

/// `Duration::as_millis`: the whole milliseconds of the duration, the same for the same duration.
pub assume_specification[ Duration::as_millis ](duration: &Duration) -> (r: u128)
    ensures
        r == duration_millis(*duration),
;

/// How long after the Unix epoch a point in time lies, or the error for one before it.
pub uninterp spec fn since_epoch(time: SystemTime) -> Result<Duration, SystemTimeError>;

/// `SystemTime::duration_since`, measured from `UNIX_EPOCH`: depends on the point in time alone.
#[verifier::external_body]
fn duration_since_epoch(time: SystemTime) -> (r: Result<Duration, SystemTimeError>)
    ensures
        r == since_epoch(time),
{
    time.duration_since(UNIX_EPOCH)
}

/// Whether `r` is what a reading of the wall clock comes to: its whole milliseconds, cut to 64
/// bits, or the text of its error.
pub open spec fn reads_as(
    reading: Result<Duration, SystemTimeError>,
    r: Result<u64, SnowflakeIdError>,
) -> bool {
    match reading {
        Ok(duration) => r == Ok::<u64, SnowflakeIdError>(
            (duration_millis(duration) % 0x1_0000_0000_0000_0000) as u64,
        ),
        Err(e) => r matches Err(SnowflakeIdError::SystemTime(text))
            && to_string_from_display_ensures::<SystemTimeError>(&e, text),
    }
}

/// Whether `r` is what the wall clock shows at some point in time.
pub open spec fn is_wall_clock_reading(r: Result<u64, SnowflakeIdError>) -> bool {
    exists|time: SystemTime| reads_as(#[trigger] since_epoch(time), r)
}

/// The milliseconds of a reading of the wall clock.
pub fn unix_millis(reading: Result<Duration, SystemTimeError>) -> (r: Result<u64, SnowflakeIdError>)
    ensures
        reads_as(reading, r),
{
    match reading {
        Ok(duration) => {
            let millis: u128 = duration.as_millis();
            assert(millis as u64 == millis % 0x1_0000_0000_0000_0000) by (bit_vector);
            Ok(
                #[verifier::truncate]
                (millis as u64),
            )
        },
        Err(e) => Err(SnowflakeIdError::SystemTime(e.to_string())),
    }
}

/// Get the current system time in milliseconds since Unix epoch.
pub fn current_time_millis() -> (r: Result<u64, SnowflakeIdError>)
    ensures
        is_wall_clock_reading(r),
{
    let time = SystemTime::now();
    unix_millis(duration_since_epoch(time))
}

/// The wall clock shows the whole milliseconds that have passed since the Unix epoch at some point
/// in time, all of them as long as 64 bits hold them, and an error only at a point before it.
pub proof fn law_wall_clock_counts_milliseconds(r: Result<u64, SnowflakeIdError>)
    requires
        is_wall_clock_reading(r),
    ensures
        r matches Ok(millis) ==> exists|time: SystemTime|
            {
                &&& #[trigger] since_epoch(time) is Ok
                &&& duration_millis(since_epoch(time)->Ok_0) <= 18_446_744_073_709_551_615
                    ==> millis == duration_millis(since_epoch(time)->Ok_0)
            },
        r matches Err(e) ==> e is SystemTime && exists|time: SystemTime| #[trigger]
            since_epoch(time) is Err,
{
    let time = choose|time: SystemTime| reads_as(#[trigger] since_epoch(time), r);
    if r is Ok {
        assert(since_epoch(time) is Ok);
    } else {
        assert(since_epoch(time) is Err);
    }
}

/// A clock that can be read is taken at its word, and one that cannot stands at the end of time.
pub proof fn law_unreadable_clock_stands_at_the_end(millis: u64, e: SnowflakeIdError)
    ensures
        or_end_of_time(Ok(millis)) == millis,
        or_end_of_time(Err(e)) == 18_446_744_073_709_551_615,
        is_wall_clock_millis(millis) && millis < 18_446_744_073_709_551_615
            ==> is_wall_clock_reading(Ok(millis)),
{
}

/// The time that `reading` shows, or the end of time where the clock could not be read.
pub open spec fn or_end_of_time(reading: Result<u64, SnowflakeIdError>) -> u64 {
    match reading {
        Ok(millis) => millis,
        Err(_) => u64::MAX,
    }
}

/// Whether `millis` is what the wall clock shows at some point in time, a clock that cannot be
/// read standing at the end of time.
pub open spec fn is_wall_clock_millis(millis: u64) -> bool {
    exists|reading: Result<u64, SnowflakeIdError>| #[trigger]
        is_wall_clock_reading(reading) && millis == or_end_of_time(reading)
}

/// The wall clock in milliseconds, or the end of time where it cannot be read.
pub fn wall_clock_millis() -> (r: u64)
    ensures
        is_wall_clock_millis(r),
{
    let reading = current_time_millis();
    match reading {
        Ok(millis) => millis,
        Err(_) => u64::MAX,
    }
}

/// The whole milliseconds of a duration, or the largest number where they do not fit.
pub open spec fn clamped(duration: Duration) -> u64 {
    if duration_millis(duration) > u64::MAX {
        u64::MAX
    } else {
        duration_millis(duration) as u64
    }
}

/// The whole milliseconds of a duration, or the largest number where they do not fit.
pub fn clamped_millis(duration: Duration) -> (r: u64)
    ensures
        r == clamped(duration),
{
    let millis: u128 = duration.as_millis();
    if millis > u64::MAX as u128 {
        u64::MAX
    } else {
        millis as u64
    }
}

/// A clock that never goes back, counted in milliseconds from its start.
#[derive(Debug, Clone, Copy)]
pub struct MonotonicClock {
    origin: Instant,
}

impl MonotonicClock {
    /// The instant that the clock counts from.
    pub closed spec fn started(&self) -> Instant {
        self.origin
    }

    /// The clock shows the whole milliseconds that have passed since its start, at some instant, or
    /// the largest number where they do not fit.
    pub proof fn law_clock_counts_milliseconds(&self, millis: u64)
        requires
            self.can_read(millis),
        ensures
            exists|now: Instant|
                {
                    let passed = duration_millis(#[trigger] time_between(now, self.started()));
                    &&& passed <= 18_446_744_073_709_551_615 ==> millis == passed
                    &&& passed > 18_446_744_073_709_551_615 ==> millis
                        == 18_446_744_073_709_551_615
                },
    {
        let now = choose|now: Instant|
            millis == clamped(#[trigger] time_between(now, self.origin));
        let passed = duration_millis(time_between(now, self.started()));
        assert(passed <= 18_446_744_073_709_551_615 ==> millis == passed);
    }

    /// Whether the clock shows `millis` at some instant: the whole milliseconds from its start.
    pub closed spec fn can_read(&self, millis: u64) -> bool {
        exists|now: Instant| millis == clamped(#[trigger] time_between(now, self.origin))
    }

    /// Starts a clock at zero. Its origin is whatever instant the system shows, of which nothing is
    /// claimed.
    pub fn start() -> Self {
        MonotonicClock { origin: Instant::now() }
    }

    /// The milliseconds since the start.
    pub fn millis(&self) -> (r: u64)
        ensures
            self.can_read(r),
    {
        let passed = self.origin.elapsed();
        clamped_millis(passed)
    }
}

} // verus!
