//! Human-readable spans of time ("1h 30min", "250ms"), read with humantime.

use vstd::prelude::*;

use crate::duration::{nanos_per_sec, Duration};

verus! {

/// The most significant digits a span's text may hold where it may spell
/// parts of a second.
///
/// humantime panics only where its running sum reaches `u64::MAX` seconds
/// while a carry of one second's worth of nanoseconds is pending
/// (`add_current` then calls `Duration::new(u64::MAX, 1_000_000_000)`). That
/// cannot happen when either of these holds:
/// - No part of a second can be spelled ([`subsecond_free`]): every unit
///   that yields nanoseconds (`nanos`, `nsec`, `ns`, `usec`, `us`, `µs`,
///   `millis`, `msec`, `ms`) holds `n`, `u`, `µ`, `l` or `ms`, and every
///   fraction needs `.`; so the nanoseconds stay zero and nothing is carried.
/// - The text holds at most this many significant digits
///   ([`significant_digits`]): a span whose numbers have `k` significant
///   digits adds less than `10^k` years of 31,557,600 s (the longest unit),
///   so the sum stays below `10^11 * 31,557,600` s, far below `u64::MAX`.
pub const MAX_SPAN_DIGITS: usize = 11;

/// The character is an ASCII decimal digit.
pub open spec fn is_digit(c: char) -> bool {
    48 <= (c as int) <= 57
}

/// The character ends a number in a span: an ASCII letter, `.` or `µ`.
pub open spec fn ends_number(c: char) -> bool {
    let k = c as int;
    (65 <= k <= 90) || (97 <= k <= 122) || k == 46 || k == 181
}

/// The character may belong to the spelling of a part of a second: `n`,
/// `u`, `l`, `µ` or `.`.
pub open spec fn marks_subsecond(c: char) -> bool {
    let k = c as int;
    k == 110 || k == 117 || k == 108 || k == 181 || k == 46
}

/// The number that `s` ends in has met a nonzero digit.
pub open spec fn number_started(s: Seq<char>) -> bool
    decreases s.len(),
{
    if s.len() == 0 {
        false
    } else if ends_number(s.last()) {
        false
    } else if is_digit(s.last()) && (s.last() as int) != 48 {
        true
    } else {
        number_started(s.drop_last())
    }
}

/// How many significant digits `s` holds: the digits of each number from
/// its first nonzero digit on (a number runs up to a letter, `.` or `µ`).
pub open spec fn significant_digits(s: Seq<char>) -> nat
    decreases s.len(),
{
    if s.len() == 0 {
        0
    } else {
        significant_digits(s.drop_last()) + if is_digit(s.last()) && ((s.last() as int) != 48
            || number_started(s.drop_last())) {
            1nat
        } else {
            0nat
        }
    }
}

/// `s` spells no part of a second: it holds none of `n`, `u`, `l`, `µ`, `.`
/// and no `ms`.
pub open spec fn subsecond_free(s: Seq<char>) -> bool
    decreases s.len(),
{
    if s.len() == 0 {
        true
    } else {
        &&& subsecond_free(s.drop_last())
        &&& !marks_subsecond(s.last())
        &&& !(s.len() >= 2 && (s[s.len() - 2] as int) == 109 && (s.last() as int) == 115)
    }
}

/// humantime reads `s` without panicking (see [`MAX_SPAN_DIGITS`]).
pub open spec fn safe_span_text(s: Seq<char>) -> bool {
    significant_digits(s) <= MAX_SPAN_DIGITS || subsecond_free(s)
}

/// How many ASCII decimal digits `s` holds.
pub open spec fn digit_count(s: Seq<char>) -> nat
    decreases s.len(),
{
    if s.len() == 0 {
        0
    } else {
        digit_count(s.drop_last()) + if is_digit(s.last()) {
            1nat
        } else {
            0nat
        }
    }
}

/// Only digits are significant digits.
proof fn lemma_significant_digits_bounded(s: Seq<char>)
    ensures
        significant_digits(s) <= digit_count(s),
    decreases s.len(),
{
    if s.len() > 0 {
        lemma_significant_digits_bounded(s.drop_last());
    }
}

/// Every text of few enough significant digits (so every text of few
/// enough digits, such as "1500ms" or "1h 30min 15s"), and every text that
/// spells no part of a second, is read: what it spells is humantime's reading.
pub proof fn lemma_span_texts_read(s: Seq<char>)
    ensures
        significant_digits(s) <= MAX_SPAN_DIGITS ==> safe_span_text(s),
        digit_count(s) <= MAX_SPAN_DIGITS ==> safe_span_text(s),
        subsecond_free(s) ==> safe_span_text(s),
        safe_span_text(s) ==> span_of(s) == match humantime_span(s) {
            Some(p) => Some((p.0 * nanos_per_sec() + p.1) as nat),
            None => None::<nat>,
        },
{
    lemma_significant_digits_bounded(s);
}

/// What `FromStr` for `humantime::Duration` makes of `text`: the whole
/// seconds and nanoseconds of the span it spells, or `None` where it spells
/// none.
pub uninterp spec fn humantime_span(text: Seq<char>) -> Option<(u64, u32)>;

/// Parses `text` with `FromStr` for `humantime::Duration`.
///
/// Claims: the result is the named [`humantime_span`] of `text`, and its
/// nanoseconds are below one second (they are those of a
/// `std::time::Duration`). Texts on which humantime might panic are left
/// out (see [`MAX_SPAN_DIGITS`]).
#[verifier::external_body]
fn parse_span(text: &str) -> (r: Option<(u64, u32)>)
    requires
        safe_span_text(text@),
    ensures
        r == humantime_span(text@),
        r matches Some(p) ==> p.1 < 1_000_000_000,
{
    match text.parse::<humantime::Duration>() {
        Ok(d) => Some((d.as_secs(), d.subsec_nanos())),
        Err(_) => None,
    }
}

/// Whether humantime reads `text` without panicking, by [`safe_span_text`].
pub fn safe_to_read(text: &str) -> (b: bool)
    ensures
        b == safe_span_text(text@),
{
    let n = text.unicode_len();
    let mut digits: usize = 0;
    let mut started = false;
    let mut free = true;
    let mut prev: u32 = 0;
    let mut i: usize = 0;
    while i < n
        invariant
            n == text@.len(),
            i <= n,
            digits == if significant_digits(text@.take(i as int)) <= MAX_SPAN_DIGITS {
                significant_digits(text@.take(i as int))
            } else {
                MAX_SPAN_DIGITS as nat + 1
            },
            started == number_started(text@.take(i as int)),
            free == subsecond_free(text@.take(i as int)),
            i > 0 ==> prev as int == (text@[i - 1] as int),
        decreases n - i,
    {
        let c = text.get_char(i);
        let k = c as u32;
        let ghost prefix = text@.take(i as int);
        proof {
            assert(text@.take(i + 1).drop_last() =~= prefix);
            assert(text@.take(i + 1).last() == c);
            if i > 0 {
                assert(text@.take(i + 1)[i - 1] == text@[i - 1]);
            }
        }
        let breaks = (65 <= k && k <= 90) || (97 <= k && k <= 122) || k == 46 || k == 181;
        let digit = 48 <= k && k <= 57;
        if digit && (k != 48 || started) && digits <= MAX_SPAN_DIGITS {
            digits = digits + 1;
        }
        let ms = i > 0 && k == 115 && prev == 109;
        if k == 110 || k == 117 || k == 108 || k == 181 || k == 46 || ms {
            free = false;
        }
        if breaks {
            started = false;
        } else if digit && k != 48 {
            started = true;
        }
        prev = k;
        i = i + 1;
    }
    assert(text@.take(n as int) =~= text@);
    digits <= MAX_SPAN_DIGITS || free
}

/// The span, in nanoseconds, that `text` spells: humantime's reading of it,
/// where it may be read safely ([`safe_span_text`]); `None` otherwise.
pub open spec fn span_of(text: Seq<char>) -> Option<nat> {
    if safe_span_text(text) {
        match humantime_span(text) {
            Some(p) => Some((p.0 * nanos_per_sec() + p.1) as nat),
            None => None,
        }
    } else {
        None
    }
}

/// Reads a human-readable span, such as "1h 30min" or "250ms". A text on
/// which humantime might panic ([`safe_span_text`] fails) is refused.
pub fn human_span(text: &str) -> (r: Option<Duration>)
    ensures
        r is Some <==> span_of(text@) is Some,
        r matches Some(d) ==> span_of(text@) == Some(d@),
{
    if !safe_to_read(text) {
        return None;
    }
    match parse_span(text) {
        Some(p) => Some(Duration::new(p.0, p.1)),
        None => None,
    }
}

} // verus!
