//! Building a rate plan from the values given on the command line.

use vstd::prelude::*;

use crate::duration::Duration;
use crate::plan::{Headers, HttpMethod, Rate};
use crate::rate_plan::{Action, Plan, RateSegment};
use crate::span::{human_span, span_of};
use crate::target::Target;

verus! {

/// The command line was not understood; the text says why.
#[derive(Clone, Debug)]
pub struct InvalidArgsError(String);

impl InvalidArgsError {
    /// An error that reports `message`.
    pub fn new(message: String) -> (e: InvalidArgsError)
        ensures
            e@ == message@,
    {
        InvalidArgsError(message)
    }

    /// The text of the error.
    pub fn message(&self) -> (s: &str)
        ensures
            s@ == self@,
    {
        self.0.as_str()
    }
}

impl View for InvalidArgsError {
    type V = Seq<char>;

    closed spec fn view(&self) -> Seq<char> {
        self.0@
    }
}

/// One value of `--rate`: a fixed rate, or a range over which the rate moves
/// linearly.
#[derive(Clone, Copy, Debug, PartialEq, Eq, Structural)]
pub enum RateArg {
    Fixed(Rate),
    Linear(Rate, Rate),
}

/// An argument that cannot go with a `udp` target.
#[derive(Clone, Copy, Debug, PartialEq, Eq, Structural)]
pub enum HttpOnlyArg {
    HttpMethod,
    HttpHeader,
}

/// Why the command-line values make no plan.
#[derive(Clone, Copy, Debug, PartialEq, Eq, Structural)]
pub enum ArgsError {
    /// `--rate` and `--duration` were given different numbers of values.
    CountMismatch,
    /// A `--duration` value other than the last is "forever".
    ForeverNotLast,
    /// A linear `--rate` range was given a "forever" duration.
    LinearForever,
    /// An HTTP-only argument was given with a `udp` target.
    UdpConflict(HttpOnlyArg),
}

impl ArgsError {
    /// The text that reports the error.
    pub fn message(&self) -> (s: &'static str)
        ensures
            s@ == match self {
                ArgsError::CountMismatch => "The number of --rate and --duration arguments must match"@,
                ArgsError::ForeverNotLast => "Only the last --duration value can be \"forever\""@,
                ArgsError::LinearForever => "Only fixed-rate segments may have a --duration value can be \"forever\""@,
                ArgsError::UdpConflict(HttpOnlyArg::HttpMethod) => "Argument --http-method is incompatible with target URL scheme \"udp\""@,
                ArgsError::UdpConflict(HttpOnlyArg::HttpHeader) => "Argument --http-header is incompatible with target URL scheme \"udp\""@,
            },
    {
        match self {
            ArgsError::CountMismatch => "The number of --rate and --duration arguments must match",
            ArgsError::ForeverNotLast => "Only the last --duration value can be \"forever\"",
            ArgsError::LinearForever => "Only fixed-rate segments may have a --duration value can be \"forever\"",
            ArgsError::UdpConflict(HttpOnlyArg::HttpMethod) => "Argument --http-method is incompatible with target URL scheme \"udp\"",
            ArgsError::UdpConflict(HttpOnlyArg::HttpHeader) => "Argument --http-header is incompatible with target URL scheme \"udp\"",
        }
    }
}

/// The text is the word "forever".
fn is_forever(text: &str) -> (b: bool)
    ensures
        b == (text@ == "forever"@),
{
    let word = "forever";
    proof {
        reveal_strlit("forever");
    }
    let n = text.unicode_len();
    if n != 7 {
        return false;
    }
    let mut i: usize = 0;
    while i < 7
        invariant
            n == 7,
            text@.len() == 7,
            word@ == "forever"@,
            word@.len() == 7,
            i <= 7,
            forall|j: int| 0 <= j < i ==> text@[j] == word@[j],
        decreases 7 - i,
    {
        if text.get_char(i) != word.get_char(i) {
            return false;
        }
        i = i + 1;
    }
    assert(text@ =~= word@);
    true
}

/// Reads a `--duration` value: "forever" gives `Some(None)`; any other text
/// gives the span it spells (see [`span_of`]), or `None` where it spells none.
pub fn duration_arg(text: &str) -> (r: Option<Option<Duration>>)
    ensures
        text@ == "forever"@ ==> r == Some(None::<Duration>),
        text@ != "forever"@ ==> {
            &&& r is Some <==> span_of(text@) is Some
            &&& r matches Some(o) ==> o matches Some(d) && span_of(text@) == Some(d@)
        },
{
    if is_forever(text) {
        return Some(None);
    }
    match human_span(text) {
        Some(d) => Some(Some(d)),
        None => None,
    }
}

/// The character is a space or a tab.
pub open spec fn is_blank(c: char) -> bool {
    c == ' ' || c == '\t'
}

/// `s` without its leading spaces and tabs.
pub open spec fn trim_start(s: Seq<char>) -> Seq<char>
    decreases s.len(),
{
    if s.len() > 0 && is_blank(s[0]) {
        trim_start(s.drop_first())
    } else {
        s
    }
}

/// `s` without its trailing spaces and tabs.
pub open spec fn trim_end(s: Seq<char>) -> Seq<char>
    decreases s.len(),
{
    if s.len() > 0 && is_blank(s.last()) {
        trim_end(s.drop_last())
    } else {
        s
    }
}

/// `s` without its leading and trailing spaces and tabs.
pub open spec fn trim(s: Seq<char>) -> Seq<char> {
    trim_end(trim_start(s))
}

/// `i` is where the first `:` of `s` stands.
pub open spec fn first_colon(s: Seq<char>, i: int) -> bool {
    &&& 0 <= i < s.len()
    &&& s[i] == ':'
    &&& forall|j: int| 0 <= j < i ==> s[j] != ':'
}

/// What a `--http-header` value `K:V` gives: the name before the first `:`
/// and the value after it, each without surrounding spaces and tabs; `None`
/// where there is no `:` or the name is empty.
pub open spec fn header_of(s: Seq<char>) -> Option<(Seq<char>, Seq<char>)> {
    if exists|i: int| first_colon(s, i) {
        let i = choose|i: int| first_colon(s, i);
        if trim(s.take(i)).len() == 0 {
            None
        } else {
            Some((trim(s.take(i)), trim(s.skip(i + 1))))
        }
    } else {
        None
    }
}

/// Only one place holds the first `:`.
proof fn lemma_first_colon_unique(s: Seq<char>, i: int, j: int)
    requires
        first_colon(s, i),
        first_colon(s, j),
    ensures
        i == j,
{
    if i < j {
        assert(s[i] != ':');
    } else if j < i {
        assert(s[j] != ':');
    }
}

/// A `--http-header` value gives a name and a value only where it has a
/// `:`; the name is what stands before its first `:`, and neither part
/// starts or ends with a space or a tab; the name is never empty.
pub proof fn lemma_header_parts(s: Seq<char>)
    ensures
        header_of(s) is Some ==> exists|i: int| first_colon(s, i),
        header_of(s) matches Some(p) ==> {
            &&& p.0.len() > 0
            &&& forall|j: int| 0 <= j < p.0.len() ==> p.0[j] != ':'
            &&& !is_blank(p.0[0]) && !is_blank(p.0.last())
            &&& p.1.len() > 0 ==> !is_blank(p.1[0]) && !is_blank(p.1.last())
        },
{
    if exists|i: int| first_colon(s, i) {
        let i = choose|i: int| first_colon(s, i);
        lemma_trim_parts(s.take(i));
        lemma_trim_parts(s.skip(i + 1));
    }
}

/// Trimming keeps a part of the text and leaves no space or tab at either end.
proof fn lemma_trim_parts(s: Seq<char>)
    ensures
        trim(s).len() > 0 ==> !is_blank(trim(s)[0]) && !is_blank(trim(s).last()),
        exists|a: int, b: int| 0 <= a <= b <= s.len() && trim(s) == s.subrange(a, b),
{
    lemma_trim_start_part(s);
    let t = trim_start(s);
    lemma_trim_end_part(t);
    let a = choose|a: int| 0 <= a <= s.len() && t == s.subrange(a, s.len() as int);
    let b = choose|b: int| 0 <= b <= t.len() && trim_end(t) == t.subrange(0, b);
    assert(trim(s) == s.subrange(a, a + b));
    if trim(s).len() > 0 {
        assert(trim(s)[0] == t[0]);
    }
}

proof fn lemma_trim_start_part(s: Seq<char>)
    ensures
        exists|a: int| 0 <= a <= s.len() && trim_start(s) == s.subrange(a, s.len() as int),
        trim_start(s).len() > 0 ==> !is_blank(trim_start(s)[0]),
    decreases s.len(),
{
    if s.len() > 0 && is_blank(s[0]) {
        lemma_trim_start_part(s.drop_first());
        let a = choose|a: int|
            0 <= a <= s.drop_first().len() && trim_start(s.drop_first()) == s.drop_first().subrange(
                a,
                s.drop_first().len() as int,
            );
        assert(trim_start(s) == s.subrange(a + 1, s.len() as int));
    } else {
        assert(trim_start(s) == s.subrange(0, s.len() as int));
    }
}

proof fn lemma_trim_end_part(s: Seq<char>)
    ensures
        exists|b: int| 0 <= b <= s.len() && trim_end(s) == s.subrange(0, b),
        trim_end(s).len() > 0 ==> !is_blank(trim_end(s).last()),
        trim_end(s).len() > 0 ==> trim_end(s)[0] == s[0],
    decreases s.len(),
{
    if s.len() > 0 && is_blank(s.last()) {
        lemma_trim_end_part(s.drop_last());
        let b = choose|b: int|
            0 <= b <= s.drop_last().len() && trim_end(s.drop_last()) == s.drop_last().subrange(0, b);
        assert(trim_end(s) == s.subrange(0, b));
    } else {
        assert(trim_end(s) == s.subrange(0, s.len() as int));
    }
}

/// The text of `text` from `from` on, without leading and trailing spaces and tabs.
fn trimmed(text: &str, from: usize, to: usize) -> (r: String)
    requires
        from <= to <= text@.len(),
    ensures
        r@ == trim(text@.subrange(from as int, to as int)),
{
    let mut a = from;
    while a < to && (text.get_char(a) == ' ' || text.get_char(a) == '\t')
        invariant
            from <= a <= to <= text@.len(),
            trim_start(text@.subrange(from as int, to as int)) == trim_start(
                text@.subrange(a as int, to as int),
            ),
        decreases to - a,
    {
        assert(text@.subrange(a as int, to as int).drop_first() =~= text@.subrange(
            a + 1,
            to as int,
        ));
        a = a + 1;
    }
    assert(trim_start(text@.subrange(a as int, to as int)) == text@.subrange(a as int, to as int));
    let mut b = to;
    while b > a && (text.get_char(b - 1) == ' ' || text.get_char(b - 1) == '\t')
        invariant
            from <= a <= b <= to <= text@.len(),
            trim(text@.subrange(from as int, to as int)) == trim_end(
                text@.subrange(a as int, b as int),
            ),
        decreases b - a,
    {
        assert(text@.subrange(a as int, b as int).drop_last() =~= text@.subrange(
            a as int,
            b - 1,
        ));
        b = b - 1;
    }
    let part = text.substring_char(a, b);
    String::from_str(part)
}

/// Reads a `--http-header` value `K:V` (see [`header_of`]).
pub fn header_arg(text: &str) -> (r: Option<(String, String)>)
    ensures
        r is Some <==> header_of(text@) is Some,
        r matches Some(p) ==> header_of(text@) == Some((p.0@, p.1@)),
{
    let n = text.unicode_len();
    let mut i: usize = 0;
    while i < n && text.get_char(i) != ':'
        invariant
            n == text@.len(),
            i <= n,
            forall|j: int| 0 <= j < i ==> text@[j] != ':',
        decreases n - i,
    {
        i = i + 1;
    }
    if i == n {
        assert(!exists|k: int| first_colon(text@, k));
        return None;
    }
    assert(first_colon(text@, i as int));
    proof {
        let c = choose|k: int| first_colon(text@, k);
        lemma_first_colon_unique(text@, c, i as int);
        assert(text@.take(i as int) =~= text@.subrange(0, i as int));
        assert(text@.skip(i + 1) =~= text@.subrange(i + 1, n as int));
    }
    let name = trimmed(text, 0, i);
    if name.unicode_len() == 0 {
        return None;
    }
    let value = trimmed(text, i + 1, n);
    Some((name, value))
}

/// The segment that a rate value and a duration value make, where they make one.
pub open spec fn segment_of(rate: RateArg, duration: Option<Duration>) -> Option<RateSegment> {
    match rate {
        RateArg::Fixed(r) => Some(RateSegment::Fixed { rate: r, duration }),
        RateArg::Linear(a, b) => match duration {
            Some(d) => Some(RateSegment::Linear { rate_start: a, rate_end: b, duration: d }),
            None => None,
        },
    }
}

/// The segments that paired rate and duration values make.
pub open spec fn segments_of(rates: Seq<RateArg>, durations: Seq<Option<Duration>>) -> Seq<
    RateSegment,
> {
    Seq::new(rates.len(), |i: int| segment_of(rates[i], durations[i])->0)
}

/// What the values given on the command line make: an error, or the plan's
/// segments (the plan's action follows from the target).
pub open spec fn args_outcome(rates: Seq<RateArg>, durations: Seq<Option<Duration>>) -> Result<
    Seq<RateSegment>,
    ArgsError,
> {
    if rates.len() != durations.len() {
        Err(ArgsError::CountMismatch)
    } else if exists|i: int| 0 <= i < durations.len() - 1 && #[trigger] durations[i] is None {
        Err(ArgsError::ForeverNotLast)
    } else if durations.len() > 0 && durations.last() is None && rates.last() is Linear {
        Err(ArgsError::LinearForever)
    } else {
        Ok(segments_of(rates, durations))
    }
}

/// The target speaks HTTP.
pub open spec fn is_http_target(target: Target) -> bool {
    target@.1 == "http"@ || target@.1 == "https"@
}

/// The target speaks UDP.
pub open spec fn is_udp_target(target: Target) -> bool {
    target@.1 == "udp"@
}

/// The text of an optional payload; empty when not given.
pub open spec fn payload_text(payload: Option<String>) -> Seq<char> {
    match payload {
        Some(p) => p@,
        None => Seq::<char>::empty(),
    }
}

/// The HTTP method of the plan's action: the one given, else POST where a
/// payload is given and GET where none is.
pub open spec fn method_or_default(method: Option<HttpMethod>, payload: Option<String>) -> HttpMethod {
    match method {
        Some(m) => m,
        None => if payload is Some {
            HttpMethod::Post
        } else {
            HttpMethod::Get
        },
    }
}

/// `action` sends `payload` (empty when not given) to `target`: over HTTP
/// with the given method (see [`method_or_default`]) and `headers` for an
/// HTTP target, as a datagram otherwise.
pub open spec fn is_expected_action(
    action: Action,
    target: Target,
    method: Option<HttpMethod>,
    headers: Headers,
    payload: Option<String>,
) -> bool {
    if is_http_target(target) {
        match action {
            Action::Http { method: m, headers: h, payload: p, target: t } => {
                &&& m == method_or_default(method, payload)
                &&& h == headers
                &&& p@ == payload_text(payload)
                &&& t == target
            },
            _ => false,
        }
    } else {
        match action {
            Action::Udp { payload: p, target: t } => p@ == payload_text(payload) && t == target,
            _ => false,
        }
    }
}

/// The HTTP action of a plan uses the method given, whatever the payload;
/// where none is given it uses POST when a payload is given and GET when
/// none is.
pub proof fn lemma_http_method_choice(
    action: Action,
    target: Target,
    method: Option<HttpMethod>,
    headers: Headers,
    payload: Option<String>,
)
    requires
        is_http_target(target),
        is_expected_action(action, target, method, headers, payload),
    ensures
        action is Http,
        method matches Some(m) ==> action->Http_method == m,
        method is None && payload is Some ==> action->Http_method == HttpMethod::Post,
        method is None && payload is None ==> action->Http_method == HttpMethod::Get,
        action->Http_target == target,
        action->Http_headers == headers,
{
}

/// The values given on the command line make a plan exactly when there are
/// as many rates as durations, only the last duration is "forever", and a
/// "forever" duration goes with a fixed rate; the plan then has one segment
/// per rate, in order, each lasting its paired duration at its rate.
pub proof fn lemma_args_make_segments(rates: Seq<RateArg>, durations: Seq<Option<Duration>>)
    ensures
        rates.len() != durations.len() ==> args_outcome(rates, durations) == Err::<
            Seq<RateSegment>,
            ArgsError,
        >(ArgsError::CountMismatch),
        args_outcome(rates, durations) is Ok <==> {
            &&& rates.len() == durations.len()
            &&& forall|i: int| 0 <= i < durations.len() - 1 ==> #[trigger] durations[i] is Some
            &&& forall|i: int|
                0 <= i < rates.len() && #[trigger] durations[i] is None ==> rates[i] is Fixed
        },
        args_outcome(rates, durations) matches Ok(segments) ==> {
            &&& segments.len() == rates.len()
            &&& forall|i: int|
                0 <= i < rates.len() ==> match #[trigger] rates[i] {
                    RateArg::Fixed(r) => segments[i] == RateSegment::Fixed {
                        rate: r,
                        duration: durations[i],
                    },
                    RateArg::Linear(a, b) => durations[i] matches Some(d) && segments[i]
                        == RateSegment::Linear { rate_start: a, rate_end: b, duration: d },
                }
        },
{
    if rates.len() == durations.len() && (forall|i: int|
        0 <= i < durations.len() - 1 ==> #[trigger] durations[i] is Some) {
        if durations.len() > 0 {
            let n = durations.len() - 1;
            if forall|i: int| 0 <= i < rates.len() && #[trigger] durations[i] is None ==> rates[i] is Fixed {
                if durations[n] is None {
                    assert(rates[n] is Fixed);
                }
            } else {
                let i = choose|i: int| 0 <= i < rates.len() && #[trigger] durations[i] is None && !(rates[i] is Fixed);
                assert(i == n);
            }
        }
    }
}

/// Builds the plan of a load test from the values given on the command line:
/// one segment per `--rate` value, each lasting the paired `--duration` value
/// (`None` for "forever"), and one action that sends `payload` (empty when
/// not given) to `target`; over HTTP with `method` and `headers` for an
/// `http`/`https` target, as a datagram for a `udp` target. Where no method is
/// given, the method is POST when a payload is given and GET when none is.
///
/// `method_given` and `headers_given` tell whether `--http-method` and
/// `--http-header` appeared at all; neither may appear with a `udp` target.
pub fn plan_from_args(
    rates: &Vec<RateArg>,
    durations: &Vec<Option<Duration>>,
    payload: Option<String>,
    target: Target,
    method: Option<HttpMethod>,
    headers: Headers,
    method_given: bool,
    headers_given: bool,
) -> (r: Result<Plan, ArgsError>)
    requires
        is_http_target(target) || is_udp_target(target),
    ensures
        args_outcome(rates@, durations@) matches Err(e) ==> r == Err::<Plan, ArgsError>(e),
        args_outcome(rates@, durations@) is Ok && is_udp_target(target) && method_given ==> r
            == Err::<Plan, ArgsError>(ArgsError::UdpConflict(HttpOnlyArg::HttpMethod)),
        args_outcome(rates@, durations@) is Ok && is_udp_target(target) && !method_given
            && headers_given ==> r == Err::<Plan, ArgsError>(
            ArgsError::UdpConflict(HttpOnlyArg::HttpHeader),
        ),
        r is Ok <==> args_outcome(rates@, durations@) is Ok && (is_udp_target(target) ==> !method_given
            && !headers_given),
        r matches Ok(plan) ==> {
            &&& plan.segments@ == args_outcome(rates@, durations@)->Ok_0
            &&& plan.actions@.len() == 1
            &&& is_expected_action(plan.actions@[0], target, method, headers, payload)
        },
{
    if rates.len() != durations.len() {
        return Err(ArgsError::CountMismatch);
    }
    let n = rates.len();
    let mut segments: Vec<RateSegment> = Vec::new();
    let mut i: usize = 0;
    while i < n
        invariant
            n == rates@.len(),
            n == durations@.len(),
            i <= n,
            segments@.len() == i,
            forall|j: int| 0 <= j < i ==> #[trigger] durations@[j] is Some || j == n - 1,
            forall|j: int|
                0 <= j < i ==> segment_of(rates@[j], durations@[j]) == Some(#[trigger] segments@[j]),
        decreases n - i,
    {
        let duration = durations[i];
        // Check that only the last duration value is infinite.
        if duration.is_none() && i + 1 < n {
            return Err(ArgsError::ForeverNotLast);
        }
        let segment = match rates[i] {
            RateArg::Fixed(rate) => RateSegment::Fixed { rate, duration },
            RateArg::Linear(rate_start, rate_end) => match duration {
                Some(duration) => RateSegment::Linear { rate_start, rate_end, duration },
                None => {
                    return Err(ArgsError::LinearForever);
                },
            },
        };
        segments.push(segment);
        i = i + 1;
    }
    assert(segments@ =~= segments_of(rates@, durations@));
    assert(!exists|j: int| 0 <= j < durations@.len() - 1 && #[trigger] durations@[j] is None);
    if n > 0 {
        assert(segment_of(rates@[n - 1], durations@[n - 1]) == Some(segments@[n - 1]));
    }
    assert(args_outcome(rates@, durations@) == Ok::<Seq<RateSegment>, ArgsError>(segments@));
    proof {
        reveal_strlit("http");
        reveal_strlit("https");
        reveal_strlit("udp");
        assert("udp"@.len() == 3 && "http"@.len() == 4 && "https"@.len() == 5);
        assert("udp"@ != "http"@ && "udp"@ != "https"@);
    }
    let payload_given = payload.is_some();
    let payload = match payload {
        Some(p) => p,
        None => String::new(),
    };
    let action = if target.has_scheme("http") || target.has_scheme("https") {
        assert(!is_udp_target(target));
        let method = match method {
            Some(m) => m,
            None => if payload_given {
                HttpMethod::Post
            } else {
                HttpMethod::Get
            },
        };
        Action::Http { method, headers, payload, target }
    } else {
        if method_given {
            return Err(ArgsError::UdpConflict(HttpOnlyArg::HttpMethod));
        }
        if headers_given {
            return Err(ArgsError::UdpConflict(HttpOnlyArg::HttpHeader));
        }
        Action::Udp { payload, target }
    };
    let mut actions: Vec<Action> = Vec::new();
    actions.push(action);
    Ok(Plan { segments, actions })
}

} // verus!
