//! The tick counter of Windows: milliseconds since boot, read directly.

use vstd::prelude::*;
use vstd::string::StringExecFns;
use crate::error::{says, ErrorKind, Failure, UptimeError};
use crate::text::{decimal, decimal_text};

verus! {

/// What a reading of the tick counter says. A count of zero together with an
/// error code other than zero is a failure that the system reported; any
/// other reading is the uptime, a count of zero with no error code too.
pub open spec fn tick_uptime(ticks: u64, last_error: u32) -> Result<u64, Failure> {
    if ticks == 0 && last_error != 0 {
        Err(
            Failure {
                kind: ErrorKind::PlatformFailure,
                description: "Windows API error: "@ + decimal(last_error as nat),
            },
        )
    } else {
        Ok(ticks)
    }
}

/// Of two readings that are uptimes, the one with the later count is no
/// smaller.
pub proof fn lemma_tick_uptime_monotonic(
    earlier: u64,
    earlier_error: u32,
    later: u64,
    later_error: u32,
)
    requires
        earlier <= later,
        tick_uptime(earlier, earlier_error) is Ok,
        tick_uptime(later, later_error) is Ok,
    ensures
        tick_uptime(earlier, earlier_error)->Ok_0 <= tick_uptime(later, later_error)->Ok_0,
{
}

/// The uptime in milliseconds that the tick count `ticks` gives, where
/// `last_error` is the thread's last error code, which matters only beside
/// a count of zero.
pub fn uptime_from_ticks(ticks: u64, last_error: u32) -> (r: Result<u64, UptimeError>)
    ensures
        says(r, tick_uptime(ticks, last_error)),
        ticks != 0 || last_error == 0 <==> r is Ok,
        r is Ok ==> r->Ok_0 == ticks,
{
    if ticks == 0 && last_error != 0 {
        let mut description = "Windows API error: ".to_owned();
        description.append(decimal_text(last_error).as_str());
        Err(UptimeError { kind: ErrorKind::PlatformFailure, description })
    } else {
        Ok(ticks)
    }
}

} // verus!
