//! The echo server's rules: which status and which delay a client may ask for.

use vstd::prelude::*;

use crate::duration::{nanos_per_sec, Duration};
use crate::span::{human_span, is_digit, span_of};

verus! {

/// The logging levels of the echo server.
#[derive(Clone, Copy, Debug, PartialEq, Eq, Structural)]
pub enum LogLevel {
    Off,
    Info,
    Debug,
    Warn,
    Error,
}

impl Default for LogLevel {
    fn default() -> (l: LogLevel)
        ensures
            l == LogLevel::Off,
    {
        LogLevel::Off
    }
}

/// The echo server's configuration.
#[derive(Clone, Copy, Debug, PartialEq, Eq, Structural)]
pub struct Config {
    pub log_level: LogLevel,
}

impl Default for Config {
    fn default() -> (c: Config)
        ensures
            c.log_level == LogLevel::Off,
    {
        Config { log_level: LogLevel::Off }
    }
}

/// Header that allows the HTTP status to be specified by the client.
pub const INJECT_STATUS_HEADER: &'static str = "x-metron-inject-status";

/// Header that allows a server delay to be specified by the client.
pub const INJECT_DELAY_HEADER: &'static str = "x-metron-inject-delay";

/// Maximum allowed server delay, in seconds.
pub const MAX_DELAY_SECS: u64 = 10;

/// The value of a decimal digit.
pub open spec fn digit_value(c: char) -> int {
    (c as int) - 48
}

/// The status code that `text` spells: three decimal digits, the first not zero.
pub open spec fn status_code_of(text: Seq<char>) -> Option<u16> {
    if text.len() == 3 && 49 <= (text[0] as int) <= 57 && is_digit(text[1]) && is_digit(text[2]) {
        Some((digit_value(text[0]) * 100 + digit_value(text[1]) * 10 + digit_value(text[2])) as u16)
    } else {
        None
    }
}

/// Parses `text` with `FromStr` for `axum::http::StatusCode` and gives the code's number.
///
/// Claim, as the `http` source (`StatusCode::from_bytes`) shows: `text`
/// parses exactly when it is three ASCII digits, the first not zero, and
/// the code is the number they spell.
#[verifier::external_body]
fn parse_status_code(text: &str) -> (r: Option<u16>)
    ensures
        r == status_code_of(text@),
{
    match text.parse::<axum::http::StatusCode>() {
        Ok(code) => Some(code.as_u16()),
        Err(_) => None,
    }
}

/// A status code read from a header is a three-digit number from 100 to
/// 999, and it is the number the header spells.
pub proof fn lemma_status_code_range(text: Seq<char>)
    ensures
        status_code_of(text) matches Some(c) ==> {
            &&& 100 <= c <= 999
            &&& text.len() == 3
            &&& c == digit_value(text[0]) * 100 + digit_value(text[1]) * 10 + digit_value(text[2])
        },
{
}

/// The status a response carries: the one the client asks for with the
/// status header, where its value is a status code, else 200.
pub fn injected_status(header: Option<&str>) -> (s: u16)
    ensures
        s == match header {
            Some(h) => match status_code_of(h@) {
                Some(c) => c,
                None => 200u16,
            },
            None => 200u16,
        },
{
    match header {
        Some(h) => match parse_status_code(h) {
            Some(c) => c,
            None => 200,
        },
        None => 200,
    }
}

/// The delay before responding: the one the client asks for with the delay
/// header, where its value is a human-readable span (see [`span_of`]), but at
/// most [`MAX_DELAY_SECS`] seconds. A value that is no such span, or holds
/// too many digits to be read safely, asks for no delay.
pub fn injected_delay(header: Option<&str>) -> (d: Option<Duration>)
    ensures
        match header {
            Some(h) => match span_of(h@) {
                Some(n) => d matches Some(x) && x@ == if n <= MAX_DELAY_SECS * nanos_per_sec() {
                    n as int
                } else {
                    MAX_DELAY_SECS * nanos_per_sec()
                },
                None => d is None,
            },
            None => d is None,
        },
{
    match header {
        Some(h) => match human_span(h) {
            Some(asked) => Some(asked.min(Duration::from_secs(MAX_DELAY_SECS))),
            None => None,
        },
        None => None,
    }
}

} // verus!
