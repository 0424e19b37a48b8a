//! The boot-time record of macOS, iOS and FreeBSD: the instant of boot in
//! seconds since the epoch, to be held against the clock.

use vstd::prelude::*;
use vstd::arithmetic::div_mod::lemma_fundamental_div_mod_converse;

verus! {

/// The instant of boot and the instant of the reading, both in whole
/// seconds since the epoch.
#[derive(Clone, Copy, Debug, PartialEq, Eq, Structural)]
pub struct BootClock {
    pub boot_secs: i64,
    pub now_secs: i64,
}

/// The milliseconds from `boot_secs` to `now_secs`, as 64 bits hold them:
/// a thousand times the difference, modulo two to the power 64.
///
/// Where the clock reads later than the boot and the product fits, this is
/// the product itself. A boot that lies after the clock's reading is not
/// told apart: the negative span wraps round to a large number.
pub open spec fn boot_uptime(boot_secs: i64, now_secs: i64) -> u64 {
    (((now_secs - boot_secs) * 1000) % 0x1_0000_0000_0000_0000) as u64
}

/// Where the clock is not behind the boot and the milliseconds fit 64 bits,
/// the uptime is exactly a thousand times the seconds between the two.
pub proof fn lemma_boot_uptime_exact(boot_secs: i64, now_secs: i64)
    requires
        now_secs >= boot_secs,
        (now_secs - boot_secs) * 1000 <= u64::MAX,
    ensures
        boot_uptime(boot_secs, now_secs) == (now_secs - boot_secs) * 1000,
{
    let span = (now_secs - boot_secs) * 1000;
    lemma_fundamental_div_mod_converse(span, 0x1_0000_0000_0000_0000, 0, span);
}

/// Of two readings of the clock after one boot, the later gives no smaller
/// uptime, as long as its milliseconds fit 64 bits.
pub proof fn lemma_boot_uptime_monotonic(boot_secs: i64, earlier_secs: i64, later_secs: i64)
    requires
        boot_secs <= earlier_secs <= later_secs,
        (later_secs - boot_secs) * 1000 <= u64::MAX,
    ensures
        boot_uptime(boot_secs, earlier_secs) <= boot_uptime(boot_secs, later_secs),
{
    lemma_boot_uptime_exact(boot_secs, earlier_secs);
    lemma_boot_uptime_exact(boot_secs, later_secs);
}

/// The uptime in milliseconds at `now_secs` of a system booted at
/// `boot_secs`.
pub fn uptime_from_boot_time(boot_secs: i64, now_secs: i64) -> (millis: u64)
    ensures
        millis == boot_uptime(boot_secs, now_secs),
        now_secs >= boot_secs && (now_secs - boot_secs) * 1000 <= u64::MAX ==> millis == (now_secs
            - boot_secs) * 1000,
{
    let span: i128 = (now_secs as i128 - boot_secs as i128) * 1000;
    proof {
        if now_secs >= boot_secs && (now_secs - boot_secs) * 1000 <= u64::MAX {
            lemma_boot_uptime_exact(boot_secs, now_secs);
        }
    }
    if span >= 0 {
        let low: u128 = span as u128 % 0x1_0000_0000_0000_0000u128;
        low as u64
    } else {
        let under: u128 = (-span) as u128;
        let low: u128 = under % 0x1_0000_0000_0000_0000u128;
        let turns: u128 = under / 0x1_0000_0000_0000_0000u128;
        if low == 0 {
            proof {
                lemma_fundamental_div_mod_converse(
                    span as int,
                    0x1_0000_0000_0000_0000,
                    -(turns as int),
                    0,
                );
            }
            0
        } else {
            proof {
                lemma_fundamental_div_mod_converse(
                    span as int,
                    0x1_0000_0000_0000_0000,
                    -(turns as int) - 1,
                    0x1_0000_0000_0000_0000 - low,
                );
            }
            (0x1_0000_0000_0000_0000u128 - low) as u64
        }
    }
}

} // verus!
