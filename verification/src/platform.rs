//! The platform families, each with its own source of the uptime.

use vstd::prelude::*;
use crate::text::same_text;

verus! {

/// A family of operating systems that share one source of the uptime.
#[derive(Clone, Copy, Debug, PartialEq, Eq, Structural)]
pub enum Platform {
    /// Linux and Android: the uptime file.
    LinuxLike,
    /// Windows: the tick counter.
    Windows,
    /// macOS, iOS and FreeBSD: the boot-time record.
    BsdLike,
    /// Any other system: no source is known.
    Unsupported,
}

/// The family of the operating system that goes by the name `os`.
pub open spec fn platform_of(os: Seq<char>) -> Platform {
    if os == "linux"@ || os == "android"@ {
        Platform::LinuxLike
    } else if os == "windows"@ {
        Platform::Windows
    } else if os == "macos"@ || os == "ios"@ || os == "freebsd"@ {
        Platform::BsdLike
    } else {
        Platform::Unsupported
    }
}

impl Platform {
    /// The family of the operating system that goes by the name `os`, as
    /// a build target names it.
    pub fn of_target_os(os: &str) -> (family: Platform)
        ensures
            family == platform_of(os@),
    {
        if same_text(os, "linux") || same_text(os, "android") {
            Platform::LinuxLike
        } else if same_text(os, "windows") {
            Platform::Windows
        } else if same_text(os, "macos") || same_text(os, "ios") || same_text(os, "freebsd") {
            Platform::BsdLike
        } else {
            Platform::Unsupported
        }
    }
}

} // verus!
