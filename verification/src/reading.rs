//! What a platform's source of the uptime handed back.

use vstd::prelude::*;
use crate::boot_time::BootClock;
use crate::platform::Platform;
use crate::uptime_file::FileReading;

verus! {

/// The outcome of one query of a platform's source, before anything is made
/// of it.
#[derive(Debug)]
pub enum Reading {
    /// What the uptime file holds, or why it could not be read.
    UptimeFile(Result<FileReading, String>),
    /// The tick count, and the thread's last error code beside it.
    TickCount { ticks: u64, last_error: u32 },
    /// The boot time beside the clock, or the failure that the system
    /// reported for the query of the boot time.
    BootTime(Result<BootClock, String>),
    /// Nothing: the platform has no source.
    Unsupported,
}

impl Reading {
    /// The family whose source gives such a reading.
    pub open spec fn platform(self) -> Platform {
        match self {
            Reading::UptimeFile(_) => Platform::LinuxLike,
            Reading::TickCount { .. } => Platform::Windows,
            Reading::BootTime(_) => Platform::BsdLike,
            Reading::Unsupported => Platform::Unsupported,
        }
    }
}

} // verus!
