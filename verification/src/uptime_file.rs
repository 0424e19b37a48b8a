//! The uptime file of Linux and Android: its first word is the number of
//! seconds since boot.

use vstd::prelude::*;
use crate::error::{says, ErrorKind, Failure, UptimeError};

verus! {

/// Where Linux and Android keep the uptime file.
pub const UPTIME_FILE: &'static str = "/proc/uptime";

/// What the uptime file holds, once its first word has been looked for and
/// read as a number of seconds.
#[derive(Debug)]
pub enum FileReading {
    /// No word: nothing, or white space only.
    Blank,
    /// A first word that is no number, and why it is none.
    NotANumber(String),
    /// A first word that is a number of seconds: the whole milliseconds in
    /// them.
    Millis(u64),
}

/// What the uptime file says. A file without a word, or whose first word is
/// no number, is malformed: neither counts as an uptime of zero.
pub open spec fn file_uptime(file: FileReading) -> Result<u64, Failure> {
    match file {
        FileReading::Blank => Err(
            Failure {
                kind: ErrorKind::MalformedData,
                description: "Invalid /proc/uptime format"@,
            },
        ),
        FileReading::NotANumber(cause) => Err(
            Failure { kind: ErrorKind::MalformedData, description: cause@ },
        ),
        FileReading::Millis(millis) => Ok(millis),
    }
}

/// The uptime in milliseconds that the uptime file gives.
pub fn uptime_from_file(file: &FileReading) -> (r: Result<u64, UptimeError>)
    ensures
        says(r, file_uptime(*file)),
        r is Ok <==> file is Millis,
        r is Err ==> r->Err_0.kind == ErrorKind::MalformedData,
{
    match file {
        FileReading::Blank => Err(
            UptimeError::new(ErrorKind::MalformedData, "Invalid /proc/uptime format"),
        ),
        FileReading::NotANumber(cause) => Err(
            UptimeError::new(ErrorKind::MalformedData, cause.as_str()),
        ),
        FileReading::Millis(millis) => Ok(*millis),
    }
}

} // verus!
