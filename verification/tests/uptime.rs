use std::time::Duration;
use system_uptime::boot_time::{uptime_from_boot_time, BootClock};
use system_uptime::error::ErrorKind;
use system_uptime::platform::Platform;
use system_uptime::reading::Reading;
use system_uptime::tick_counter::uptime_from_ticks;
use system_uptime::text::first_word_of;
use system_uptime::uptime_file::{uptime_from_file, FileReading, UPTIME_FILE};
use system_uptime::{get_os_uptime, get_os_uptime_duration};

fn file(content: &str) -> FileReading {
    match first_word_of(content) {
        Some(word) => match word.parse::<f64>() {
            Ok(seconds) => FileReading::Millis((seconds * 1000.0) as u64),
            Err(e) => FileReading::NotANumber(e.to_string()),
        },
        None => FileReading::Blank,
    }
}

fn from_file(content: &str) -> Reading {
    Reading::UptimeFile(Ok(file(content)))
}

#[test]
fn it_os_uptime() {
    let reading = from_file("581.24 2304.17\n");
    let uptime = get_os_uptime(&reading);
    assert!(uptime.is_ok(), "Failed to get os uptime: {:?}", uptime.err());

    let uptime_ms = uptime.unwrap();
    assert!(uptime_ms > 0, "Uptime should be greater than 0");

    let duration = get_os_uptime_duration(&reading).unwrap();
    assert_eq!(duration.as_millis() as u64, uptime_ms);
}

#[test]
fn uptime_file_path() {
    assert_eq!(UPTIME_FILE, "/proc/uptime");
}

#[test]
fn uptime_file_gives_milliseconds() {
    assert_eq!(first_word_of("12345.67 89.01"), Some("12345.67"));
    assert_eq!(uptime_from_file(&file("12345.67 89.01")).unwrap(), 12345670);
    assert_eq!(get_os_uptime(&from_file("12345.67 89.01")).unwrap(), 12345670);
    assert_eq!(get_os_uptime(&from_file("581.24 2304.17\n")).unwrap(), 581_240);
}

#[test]
fn milliseconds_pass_through() {
    assert_eq!(uptime_from_file(&FileReading::Millis(12345670)).unwrap(), 12345670);
    assert_eq!(uptime_from_file(&FileReading::Millis(u64::MAX)).unwrap(), u64::MAX);
    let reading = Reading::UptimeFile(Ok(FileReading::Millis(1)));
    assert_eq!(get_os_uptime(&reading).unwrap(), 1);
}

#[test]
fn fractions_of_a_millisecond_are_cut_off() {
    assert_eq!(get_os_uptime(&from_file("1.9999")).unwrap(), 1999);
    assert_eq!(get_os_uptime(&from_file("0.0009")).unwrap(), 0);
    assert_eq!(get_os_uptime(&from_file("2.01")).unwrap(), 2009);
    assert_eq!(get_os_uptime(&from_file("1e3")).unwrap(), 1_000_000);
}

#[test]
fn empty_uptime_file_is_malformed() {
    assert_eq!(first_word_of(""), None);
    let e = uptime_from_file(&file("")).unwrap_err();
    assert_eq!(e.kind, ErrorKind::MalformedData);
    assert_eq!(e.description, "Invalid /proc/uptime format");
    let e = get_os_uptime(&from_file("")).unwrap_err();
    assert_eq!(e.kind, ErrorKind::MalformedData);
    let e = get_os_uptime(&Reading::UptimeFile(Ok(FileReading::Blank))).unwrap_err();
    assert_eq!(e.kind, ErrorKind::MalformedData);
    assert_eq!(e.description, "Invalid /proc/uptime format");
}

#[test]
fn blank_uptime_file_is_malformed() {
    assert_eq!(first_word_of(" \t\n\u{a0}\u{3000}"), None);
    let e = get_os_uptime(&from_file(" \t\n\u{a0}\u{3000}")).unwrap_err();
    assert_eq!(e.kind, ErrorKind::MalformedData);
    assert_eq!(e.description, "Invalid /proc/uptime format");
}

#[test]
fn zero_uptime_is_not_a_failure() {
    assert_eq!(get_os_uptime(&from_file("0.00 0.00\n")).unwrap(), 0);
    assert_eq!(uptime_from_file(&FileReading::Millis(0)).unwrap(), 0);
}

#[test]
fn first_word_that_is_no_number() {
    let e = get_os_uptime(&from_file("abc 1.0")).unwrap_err();
    assert_eq!(e.kind, ErrorKind::MalformedData);
    assert_eq!(e.description, "invalid float literal");
    let reading = Reading::UptimeFile(Ok(FileReading::NotANumber("no digits".to_string())));
    let e = get_os_uptime(&reading).unwrap_err();
    assert_eq!(e.kind, ErrorKind::MalformedData);
    assert_eq!(e.description, "no digits");
    let e = get_os_uptime_duration(&reading).unwrap_err();
    assert_eq!(e.kind, ErrorKind::MalformedData);
    assert_eq!(e.description, "no digits");
}

#[test]
fn words_that_name_no_finite_number() {
    assert_eq!(get_os_uptime(&from_file("inf")).unwrap(), u64::MAX);
    assert_eq!(get_os_uptime(&from_file("+Infinity 1")).unwrap(), u64::MAX);
    assert_eq!(get_os_uptime(&from_file("-inf")).unwrap(), 0);
    assert_eq!(get_os_uptime(&from_file("NaN")).unwrap(), 0);
    assert_eq!(get_os_uptime(&from_file("-1.5")).unwrap(), 0);
    assert_eq!(get_os_uptime(&from_file("1e300")).unwrap(), u64::MAX);
}

#[test]
fn unreadable_uptime_file_fails() {
    let reading = Reading::UptimeFile(Err("permission denied".to_string()));
    let e = get_os_uptime(&reading).unwrap_err();
    assert_eq!(e.kind, ErrorKind::UnreadableSource);
    assert_eq!(e.description, "permission denied");
    let e = get_os_uptime_duration(&reading).unwrap_err();
    assert_eq!(e.kind, ErrorKind::UnreadableSource);
    assert_eq!(e.description, "permission denied");
}

#[test]
fn tick_count_passes_through() {
    assert_eq!(uptime_from_ticks(123456, 0).unwrap(), 123456);
    assert_eq!(uptime_from_ticks(123456, 87).unwrap(), 123456);
    assert_eq!(uptime_from_ticks(u64::MAX, 1).unwrap(), u64::MAX);
    let reading = Reading::TickCount { ticks: 42, last_error: 0 };
    assert_eq!(get_os_uptime(&reading).unwrap(), 42);
}

#[test]
fn zero_ticks_without_error_code_is_zero() {
    assert_eq!(uptime_from_ticks(0, 0).unwrap(), 0);
    let reading = Reading::TickCount { ticks: 0, last_error: 0 };
    assert_eq!(get_os_uptime(&reading).unwrap(), 0);
}

#[test]
fn zero_ticks_with_error_code_fails() {
    let e = uptime_from_ticks(0, 5).unwrap_err();
    assert_eq!(e.kind, ErrorKind::PlatformFailure);
    assert_eq!(e.description, "Windows API error: 5");
    let reading = Reading::TickCount { ticks: 0, last_error: 1234567890 };
    let e = get_os_uptime(&reading).unwrap_err();
    assert_eq!(e.kind, ErrorKind::PlatformFailure);
    assert_eq!(e.description, "Windows API error: 1234567890");
    let e = uptime_from_ticks(0, u32::MAX).unwrap_err();
    assert_eq!(e.description, "Windows API error: 4294967295");
    let e = uptime_from_ticks(0, 10).unwrap_err();
    assert_eq!(e.description, "Windows API error: 10");
}

#[test]
fn boot_time_against_clock() {
    assert_eq!(uptime_from_boot_time(1_700_000_000, 1_700_000_123), 123_000);
    assert_eq!(uptime_from_boot_time(5, 5), 0);
    assert_eq!(uptime_from_boot_time(-10, 10), 20_000);
    let clock = BootClock { boot_secs: 1_000, now_secs: 4_600 };
    assert_eq!(get_os_uptime(&Reading::BootTime(Ok(clock))).unwrap(), 3_600_000);
}

#[test]
fn boot_time_after_clock_wraps() {
    assert_eq!(uptime_from_boot_time(10, 5), 18_446_744_073_709_546_616);
    assert_eq!(uptime_from_boot_time(i64::MIN, i64::MAX), 18_446_744_073_709_550_616);
    assert_eq!(uptime_from_boot_time(i64::MAX, i64::MIN), 1000);
    assert_eq!(
        uptime_from_boot_time(0, 18_446_744_073_709_552),
        18_446_744_073_709_552_000u128.wrapping_sub(1 << 64) as u64
    );
}

#[test]
fn boot_time_query_failure() {
    let reading = Reading::BootTime(Err("Operation not permitted (os error 1)".to_string()));
    let e = get_os_uptime(&reading).unwrap_err();
    assert_eq!(e.kind, ErrorKind::PlatformFailure);
    assert_eq!(e.description, "Operation not permitted (os error 1)");
}

#[test]
fn unsupported_platform_always_fails() {
    let e = get_os_uptime(&Reading::Unsupported).unwrap_err();
    assert_eq!(e.kind, ErrorKind::UnsupportedPlatform);
    assert_eq!(e.description, "Unsupported operating system");
    let e = get_os_uptime_duration(&Reading::Unsupported).unwrap_err();
    assert_eq!(e.kind, ErrorKind::UnsupportedPlatform);
    assert_eq!(e.description, "Unsupported operating system");
}

#[test]
fn duration_holds_the_same_milliseconds() {
    let reading = Reading::TickCount { ticks: 2_569, last_error: 0 };
    let d = get_os_uptime_duration(&reading).unwrap();
    assert_eq!(d, Duration::new(2, 569_000_000));
    assert_eq!(d.as_millis(), 2_569);
    let reading = Reading::TickCount { ticks: u64::MAX, last_error: 0 };
    let d = get_os_uptime_duration(&reading).unwrap();
    assert_eq!(d.as_millis(), u64::MAX as u128);
    let reading = from_file("12345.67 89.01");
    let d = get_os_uptime_duration(&reading).unwrap();
    assert_eq!(d.as_millis() as u64, get_os_uptime(&reading).unwrap());
    assert_eq!(d.as_secs(), 12345);
    assert_eq!(d.subsec_millis(), 670);
}

#[test]
fn later_readings_give_no_smaller_uptime() {
    let a = get_os_uptime(&from_file("581.24 2304.17")).unwrap();
    let b = get_os_uptime(&from_file("581.25 2304.19")).unwrap();
    assert_eq!(a, 581_240);
    assert_eq!(b, 581_250);
    assert!(uptime_from_file(&FileReading::Millis(7)).unwrap()
        <= uptime_from_file(&FileReading::Millis(8)).unwrap());
    assert!(a <= b);
    assert!(uptime_from_boot_time(100, 200) <= uptime_from_boot_time(100, 201));
    assert!(uptime_from_ticks(7, 0).unwrap() <= uptime_from_ticks(8, 0).unwrap());
}

#[test]
fn platform_families() {
    assert_eq!(Platform::of_target_os("linux"), Platform::LinuxLike);
    assert_eq!(Platform::of_target_os("android"), Platform::LinuxLike);
    assert_eq!(Platform::of_target_os("windows"), Platform::Windows);
    assert_eq!(Platform::of_target_os("macos"), Platform::BsdLike);
    assert_eq!(Platform::of_target_os("ios"), Platform::BsdLike);
    assert_eq!(Platform::of_target_os("freebsd"), Platform::BsdLike);
    assert_eq!(Platform::of_target_os("openbsd"), Platform::Unsupported);
    assert_eq!(Platform::of_target_os(""), Platform::Unsupported);
    assert_eq!(Platform::of_target_os("Linux"), Platform::Unsupported);
    assert_eq!(Platform::of_target_os("linux "), Platform::Unsupported);
    assert_eq!(Platform::of_target_os("linu"), Platform::Unsupported);
}

#[test]
fn positive_readings_give_positive_uptimes() {
    assert!(get_os_uptime(&Reading::UptimeFile(Ok(FileReading::Millis(1)))).unwrap() > 0);
    assert!(get_os_uptime(&from_file("0.01 0.00")).unwrap() > 0);
    assert!(get_os_uptime(&Reading::TickCount { ticks: 1, last_error: 0 }).unwrap() > 0);
    assert!(get_os_uptime(&Reading::TickCount { ticks: 1, last_error: 6 }).unwrap() > 0);
    let clock = BootClock { boot_secs: 10, now_secs: 11 };
    assert_eq!(get_os_uptime(&Reading::BootTime(Ok(clock))).unwrap(), 1000);
}
