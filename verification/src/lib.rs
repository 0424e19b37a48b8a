//! How long the operating system has been running, from what the platform
//! reports.
//!
//! Each platform family has one source of the uptime. Whoever queries it
//! hands the outcome over as a [`Reading`]; what the reading says, in
//! milliseconds or as a failure, is decided here. No arithmetic is done in
//! floating point here: the seconds that the uptime file spells come in as
//! whole milliseconds.

pub mod boot_time;
pub mod error;
pub mod platform;
pub mod reading;
pub mod span;
pub mod text;
pub mod tick_counter;
pub mod uptime_file;

use vstd::prelude::*;
use std::time::Duration;
use crate::boot_time::{
    boot_uptime, lemma_boot_uptime_exact, lemma_boot_uptime_monotonic, uptime_from_boot_time,
};
use crate::error::{says, ErrorKind, Failure, UptimeError};
use crate::platform::Platform;
use crate::reading::Reading;
use crate::span::{duration_millis, duration_nanos};
use crate::tick_counter::{tick_uptime, uptime_from_ticks};
use crate::uptime_file::{file_uptime, uptime_from_file, FileReading};

verus! {

/// What a reading says: the uptime in milliseconds, or the failure.
pub open spec fn uptime_of(reading: Reading) -> Result<u64, Failure> {
    match reading {
        Reading::UptimeFile(Ok(file)) => file_uptime(file),
        Reading::UptimeFile(Err(cause)) => Err(
            Failure { kind: ErrorKind::UnreadableSource, description: cause@ },
        ),
        Reading::TickCount { ticks, last_error } => tick_uptime(ticks, last_error),
        Reading::BootTime(Ok(clock)) => Ok(boot_uptime(clock.boot_secs, clock.now_secs)),
        Reading::BootTime(Err(cause)) => Err(
            Failure { kind: ErrorKind::PlatformFailure, description: cause@ },
        ),
        Reading::Unsupported => Err(
            Failure {
                kind: ErrorKind::UnsupportedPlatform,
                description: "Unsupported operating system"@,
            },
        ),
    }
}

/// A platform without a source has nothing to read, and its query fails in
/// one and the same way whatever else holds.
pub proof fn lemma_unsupported_fails(reading: Reading)
    requires
        reading.platform() == Platform::Unsupported,
    ensures
        uptime_of(reading) == Err::<u64, Failure>(
            Failure {
                kind: ErrorKind::UnsupportedPlatform,
                description: "Unsupported operating system"@,
            },
        ),
{
}

/// Whether `reading` tells of a time above zero since boot: milliseconds,
/// ticks, or seconds between the boot and the clock whose milliseconds fit
/// 64 bits.
pub open spec fn positive(reading: Reading) -> bool {
    match reading {
        Reading::UptimeFile(Ok(FileReading::Millis(millis))) => millis > 0,
        Reading::TickCount { ticks, .. } => ticks > 0,
        Reading::BootTime(Ok(clock)) => clock.boot_secs < clock.now_secs && (clock.now_secs
            - clock.boot_secs) * 1000 <= u64::MAX,
        _ => false,
    }
}

/// A reading of a time above zero gives an uptime above zero, and no
/// failure.
pub proof fn lemma_positive_reading(reading: Reading)
    requires
        positive(reading),
    ensures
        uptime_of(reading) is Ok,
        uptime_of(reading)->Ok_0 > 0,
{
    if let Reading::BootTime(Ok(clock)) = reading {
        lemma_boot_uptime_exact(clock.boot_secs, clock.now_secs);
    }
}

/// Whether `later` may follow `earlier` as a reading of the same source:
/// the file's milliseconds or the tick count are no smaller; or the boot
/// time is the same and not after `earlier`'s clock, the clock is no
/// earlier, and the milliseconds between the boot and `later`'s clock fit
/// 64 bits.
pub open spec fn follows(earlier: Reading, later: Reading) -> bool {
    match (earlier, later) {
        (
            Reading::UptimeFile(Ok(FileReading::Millis(first))),
            Reading::UptimeFile(Ok(FileReading::Millis(second))),
        ) => first <= second,
        (Reading::TickCount { ticks: first, .. }, Reading::TickCount { ticks: second, .. }) => first
            <= second,
        (Reading::BootTime(Ok(first)), Reading::BootTime(Ok(second))) => {
            &&& first.boot_secs == second.boot_secs
            &&& first.boot_secs <= first.now_secs <= second.now_secs
            &&& (second.now_secs - second.boot_secs) * 1000 <= u64::MAX
        },
        _ => false,
    }
}

/// Of two readings that give an uptime, the second of which may follow the
/// first, the second gives no smaller one.
pub proof fn lemma_later_reading(earlier: Reading, later: Reading)
    requires
        follows(earlier, later),
        uptime_of(earlier) is Ok,
        uptime_of(later) is Ok,
    ensures
        uptime_of(earlier)->Ok_0 <= uptime_of(later)->Ok_0,
{
    if let Reading::BootTime(Ok(first)) = earlier {
        lemma_boot_uptime_monotonic(first.boot_secs, first.now_secs, later->BootTime_0->Ok_0.now_secs);
    }
}

/// The uptime of the operating system in milliseconds, as `reading` gives
/// it.
pub fn get_os_uptime(reading: &Reading) -> (r: Result<u64, UptimeError>)
    ensures
        says(r, uptime_of(*reading)),
        reading.platform() == Platform::Unsupported ==> r is Err && r->Err_0.kind
            == ErrorKind::UnsupportedPlatform,
        positive(*reading) ==> r is Ok && r->Ok_0 > 0,
{
    proof {
        if positive(*reading) {
            lemma_positive_reading(*reading);
        }
    }
    match reading {
        Reading::UptimeFile(Ok(file)) => uptime_from_file(file),
        Reading::UptimeFile(Err(cause)) => Err(
            UptimeError::new(ErrorKind::UnreadableSource, cause.as_str()),
        ),
        Reading::TickCount { ticks, last_error } => uptime_from_ticks(*ticks, *last_error),
        Reading::BootTime(Ok(clock)) => Ok(uptime_from_boot_time(clock.boot_secs, clock.now_secs)),
        Reading::BootTime(Err(cause)) => Err(
            UptimeError::new(ErrorKind::PlatformFailure, cause.as_str()),
        ),
        Reading::Unsupported => Err(
            UptimeError::new(ErrorKind::UnsupportedPlatform, "Unsupported operating system"),
        ),
    }
}

/// The uptime of the operating system as a time span, as `reading` gives
/// it: the span of exactly as many milliseconds as [`get_os_uptime`] counts,
/// or the same failure.
pub fn get_os_uptime_duration(reading: &Reading) -> (r: Result<Duration, UptimeError>)
    ensures
        r is Ok <==> uptime_of(*reading) is Ok,
        match uptime_of(*reading) {
            Ok(millis) => r is Ok && duration_nanos(r->Ok_0) == millis * 1_000_000
                && duration_millis(r->Ok_0) == millis,
            Err(failure) => r is Err && r->Err_0@ == failure,
        },
{
    match get_os_uptime(reading) {
        Ok(millis) => Ok(Duration::from_millis(millis)),
        Err(e) => Err(e),
    }
}

} // verus!
