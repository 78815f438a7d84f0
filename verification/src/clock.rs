//! The system clock, as far as the library reads it.
//!
//! Nothing is known of what a clock returns, so reading one promises
//! nothing about the value. What is computed from a reading depends on the
//! reading alone: differences and conversions of the standard library have
//! names here, and the functions that apply them to a reading say so
//! exactly. Functions that store a reading take it as an argument wherever
//! their contract has to say what was stored.

use std::time::Duration;
use std::time::Instant;
use std::time::SystemTime;
use std::time::SystemTimeError;
use vstd::prelude::*;

verus! {

/// `std::time::SystemTime`, a reading of the wall clock. Opaque.
#[verifier::external_type_specification]
#[verifier::external_body]
pub struct ExSystemTime(SystemTime);

/// `std::time::SystemTimeError`, the error of a wall clock that went back.
/// Opaque.
#[verifier::external_type_specification]
#[verifier::external_body]
pub struct ExSystemTimeError(SystemTimeError);

/// `std::time::Instant`, a reading of the monotonic clock. Opaque.
#[verifier::external_type_specification]
#[verifier::external_body]
pub struct ExInstant(Instant);

/// What `SystemTime::duration_since` returns for two readings of the wall
/// clock: the time from `earlier` to `later`, or an error where `earlier` is
/// the later one.
pub uninterp spec fn time_between(later: SystemTime, earlier: SystemTime) -> Result<
    Duration,
    SystemTimeError,
>;

/// What `Instant::saturating_duration_since` returns for two readings of the
/// monotonic clock: the time from `earlier` to `later`, and no time at all
/// where `earlier` is the later one.
pub uninterp spec fn instants_apart(later: Instant, earlier: Instant) -> Duration;

/// What `Duration::as_secs` returns: the whole seconds of a duration.
pub uninterp spec fn whole_seconds_of(duration: Duration) -> u64;

/// What `Duration::as_micros` returns: the whole microseconds of a duration.
pub uninterp spec fn whole_micros_of(duration: Duration) -> u128;

/// What `Duration::from_secs` returns: the duration of so many whole seconds.
pub uninterp spec fn duration_of_seconds(secs: u64) -> Duration;

/// The whole seconds from `earlier` to `later`, and zero where `earlier` is
/// the later one.
pub open spec fn seconds_between(later: SystemTime, earlier: SystemTime) -> u64 {
    match time_between(later, earlier) {
        Ok(elapsed) => whole_seconds_of(elapsed),
        Err(_) => 0,
    }
}

/// The duration that was measured, and no time at all where measuring
/// failed.
pub open spec fn measured_or_zero(reading: Result<Duration, SystemTimeError>) -> Duration {
    match reading {
        Ok(elapsed) => elapsed,
        Err(_) => duration_of_seconds(0),
    }
}

/// `SystemTime::now`: the wall clock. Any reading may come back.
pub assume_specification[ SystemTime::now ]() -> (now: SystemTime);

/// `SystemTime::duration_since`: the time from `earlier` to `later`, or an
/// error where `earlier` is the later of the two. Never panics. The result
/// depends on the two readings alone; `time_between` names it.
pub assume_specification[ SystemTime::duration_since ](
    later: &SystemTime,
    earlier: SystemTime,
) -> (elapsed: Result<Duration, SystemTimeError>)
    ensures
        elapsed == time_between(*later, earlier),
;

/// `Instant::now`: the monotonic clock. Any reading may come back.
pub assume_specification[ Instant::now ]() -> (now: Instant);

/// `Instant::saturating_duration_since`: the time from `earlier` to `later`,
/// and no time at all where `earlier` is the later of the two. Never
/// panics. The result depends on the two readings alone; `instants_apart`
/// names it.
pub assume_specification[ Instant::saturating_duration_since ](
    later: &Instant,
    earlier: Instant,
) -> (elapsed: Duration)
    ensures
        elapsed == instants_apart(*later, earlier),
;

/// `Duration::as_secs`: the whole seconds of a duration. The result depends
/// on the duration alone; `whole_seconds_of` names it.
pub assume_specification[ Duration::as_secs ](duration: &Duration) -> (secs: u64)
    ensures
        secs == whole_seconds_of(*duration),
;

/// `Duration::as_micros`: the whole microseconds of a duration. The result
/// depends on the duration alone; `whole_micros_of` names it.
pub assume_specification[ Duration::as_micros ](duration: &Duration) -> (micros: u128)
    ensures
        micros == whole_micros_of(*duration),
;

/// `Duration::from_secs`: a duration of whole seconds. The result depends
/// on the number alone; `duration_of_seconds` names it.
pub assume_specification[ Duration::from_secs ](secs: u64) -> (duration: Duration)
    ensures
        duration == duration_of_seconds(secs),
;

/// The constant `SystemTime::UNIX_EPOCH`.
#[verifier::external_body]
pub(crate) fn unix_epoch() -> (epoch: SystemTime) {
    SystemTime::UNIX_EPOCH
}

/// Whole seconds from `earlier` to `later`; zero where `earlier` is the later one.
pub fn whole_seconds_between(later: &SystemTime, earlier: SystemTime) -> (secs: u64)
    ensures
        secs == seconds_between(*later, earlier),
{
    match later.duration_since(earlier) {
        Ok(elapsed) => elapsed.as_secs(),
        Err(_) => 0,
    }
}

/// The duration that was measured, and no time at all where measuring
/// failed.
pub fn elapsed_or_zero(reading: Result<Duration, SystemTimeError>) -> (elapsed: Duration)
    ensures
        elapsed == measured_or_zero(reading),
{
    match reading {
        Ok(elapsed) => elapsed,
        Err(_) => Duration::from_secs(0),
    }
}

/// The whole microseconds of a duration, reduced to the machine word as a
/// cast does.
pub fn whole_micros(elapsed: &Duration) -> (micros: usize)
    ensures
        micros == whole_micros_of(*elapsed) as usize,
{
    let micros: u128 = elapsed.as_micros();
    #[verifier::truncate]
    let word = micros as usize;
    word
}

/// The wall clock in whole seconds since the Unix epoch; zero before it.
pub(crate) fn unix_seconds_now() -> (secs: u64) {
    let now = SystemTime::now();
    whole_seconds_between(&now, unix_epoch())
}

/// Microseconds on the monotonic clock since `started`, reduced to the
/// machine word as a cast does: the whole microseconds from `started` to
/// the reading that the clock gives now.
pub(crate) fn micros_since(started: &Instant) -> (micros: usize)
    ensures
        exists|now: Instant|
            micros == whole_micros_of(#[trigger] instants_apart(now, *started)) as usize,
{
    let now = Instant::now();
    let elapsed = now.saturating_duration_since(*started);
    whole_micros(&elapsed)
}

} // verus!
