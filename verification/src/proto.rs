//! The wire messages of the agent service, and the conversions between them
//! and plans.

use vstd::prelude::*;

use crate::agent::ReportKind as Kind;
use crate::duration::{nanos_per_sec, Duration as Span};
use crate::plan::{self, Environment, Headers, HttpMethod, Rate};
use crate::target::{parsed_url, Target};

verus! {

// ----------------------------------------------------------------------------
// Durations

#[verifier::external_type_specification]
#[verifier::external_body]
pub struct ExDurationError(prost_types::DurationError);

/// What `<std::time::Duration as TryFrom<prost_types::Duration>>::try_from`
/// makes of the wire duration `seconds`, `nanos`, which stands for
/// `seconds * 10^9 + nanos` nanoseconds: `None` where that is negative; the
/// longest span a wire duration can hold (`i64::MAX` seconds and 999,999,999
/// nanoseconds) where its whole seconds exceed `i64::MAX`; else its whole
/// seconds and the nanoseconds beyond them.
pub open spec fn std_span_of_wire(seconds: i64, nanos: i32) -> Option<(u64, u32)> {
    let unit = nanos_per_sec() as int;
    let t: int = seconds * unit + nanos;
    if t < 0 {
        None
    } else if t / unit > i64::MAX {
        Some((i64::MAX as u64, 999_999_999u32))
    } else {
        Some(((t / unit) as u64, (t % unit) as u32))
    }
}

/// Converts a span with `<prost_types::Duration as TryFrom<std::time::Duration>>::try_from`.
///
/// Claims, as the `prost-types` source shows: the conversion fails exactly when
/// the whole seconds exceed `i64::MAX`, and otherwise keeps seconds and
/// nanoseconds as they are (its normalization changes nothing for nanoseconds
/// below one second).
#[verifier::external_body]
fn wire_from_std(secs: u64, nanos: u32) -> (r: Result<(i64, i32), prost_types::DurationError>)
    requires
        nanos < 1_000_000_000,
    ensures
        r is Ok <==> secs <= i64::MAX,
        r matches Ok(p) ==> p.0 == secs && p.1 == nanos,
{
    match prost_types::Duration::try_from(std::time::Duration::new(secs, nanos)) {
        Ok(d) => Ok((d.seconds, d.nanos)),
        Err(e) => Err(e),
    }
}

/// Converts a wire duration with `<std::time::Duration as TryFrom<prost_types::Duration>>::try_from`.
///
/// Claims, as the `prost-types` source shows (`normalize` moves whole
/// seconds out of the nanoseconds and gives both the same sign, keeping the
/// value, and saturates where the seconds overflow; the conversion then fails
/// exactly for a negative value): the result is [`std_span_of_wire`] of the
/// arguments. Seconds below `i64::MIN + 3` are left out: there `normalize` can
/// leave `i64::MIN`, whose negation on the error path overflows.
#[verifier::external_body]
fn std_from_wire(seconds: i64, nanos: i32) -> (r: Result<(u64, u32), prost_types::DurationError>)
    requires
        seconds >= i64::MIN + 3,
    ensures
        r is Ok <==> std_span_of_wire(seconds, nanos) is Some,
        r matches Ok(p) ==> std_span_of_wire(seconds, nanos) == Some(p),
{
    match std::time::Duration::try_from(prost_types::Duration { seconds, nanos }) {
        Ok(d) => Ok((d.as_secs(), d.subsec_nanos())),
        Err(e) => Err(e),
    }
}

/// Why a message or a plan does not convert.
#[derive(Clone, Copy, Debug, PartialEq, Eq, Structural)]
pub enum ConvertError {
    /// A duration is too long for the wire.
    DurationOutOfRange,
    /// A wire duration is negative.
    NegativeDuration,
    /// A segment gives no duration.
    MissingDuration,
    /// An action gives no action.
    MissingAction,
    /// A method code names no HTTP method.
    InvalidHttpMethod,
    /// A target is no URL.
    InvalidTarget,
    /// A rate segment gives no segment.
    MissingRateSegment,
    /// A linear rate segment gives no duration.
    LinearWithoutDuration,
}

impl ConvertError {
    /// The text that reports the error.
    pub fn message(&self) -> (s: &'static str)
        ensures
            s@ == match self {
                ConvertError::DurationOutOfRange => "duration is too large for the wire"@,
                ConvertError::NegativeDuration => "duration is negative"@,
                ConvertError::MissingDuration => "missing segment duration"@,
                ConvertError::MissingAction => "missing action"@,
                ConvertError::InvalidHttpMethod => "invalid HTTP method"@,
                ConvertError::InvalidTarget => "invalid target URL"@,
                ConvertError::MissingRateSegment => "missing rate segment"@,
                ConvertError::LinearWithoutDuration => "linear rate segments must specify a duration"@,
            },
    {
        match self {
            ConvertError::DurationOutOfRange => "duration is too large for the wire",
            ConvertError::NegativeDuration => "duration is negative",
            ConvertError::MissingDuration => "missing segment duration",
            ConvertError::MissingAction => "missing action",
            ConvertError::InvalidHttpMethod => "invalid HTTP method",
            ConvertError::InvalidTarget => "invalid target URL",
            ConvertError::MissingRateSegment => "missing rate segment",
            ConvertError::LinearWithoutDuration => "linear rate segments must specify a duration",
        }
    }
}

/// A span of time on the wire (`google.protobuf.Duration`).
#[derive(Clone, Copy, Debug, PartialEq, Eq, Structural)]
pub struct Duration {
    pub seconds: i64,
    pub nanos: i32,
}

/// The span fits on the wire: its whole seconds fit in an `i64`.
pub open spec fn fits_wire(d: Span) -> bool {
    d@ / nanos_per_sec() <= i64::MAX
}

/// The wire form of a span that fits: its whole seconds and the nanoseconds
/// beyond them.
pub open spec fn wire_of(d: Span) -> Duration {
    Duration { seconds: (d@ / nanos_per_sec()) as i64, nanos: (d@ % nanos_per_sec()) as i32 }
}

/// The span, in nanoseconds, that a wire duration stands for (see
/// [`std_span_of_wire`]), or `None` where it stands for a negative one.
pub open spec fn span_of_wire(d: Duration) -> Option<nat> {
    match std_span_of_wire(d.seconds, d.nanos) {
        Some(p) => Some((p.0 * nanos_per_sec() + p.1) as nat),
        None => None,
    }
}

/// A span that fits comes back from the wire as itself.
pub proof fn lemma_span_round_trip(d: Span)
    requires
        fits_wire(d),
    ensures
        span_of_wire(wire_of(d)) == Some(d@),
{
}

impl Duration {
    /// The wire form of the span `d`.
    pub fn from_span(d: Span) -> (r: Result<Duration, ConvertError>)
        ensures
            r is Ok <==> fits_wire(d),
            r matches Ok(w) ==> w == wire_of(d),
            r matches Err(e) ==> e == ConvertError::DurationOutOfRange,
    {
        match wire_from_std(d.as_secs(), d.subsec_nanos()) {
            Ok(p) => Ok(Duration { seconds: p.0, nanos: p.1 }),
            Err(_) => Err(ConvertError::DurationOutOfRange),
        }
    }

    /// The span that this wire duration stands for.
    pub fn to_span(self) -> (r: Result<Span, ConvertError>)
        ensures
            r is Ok <==> span_of_wire(self) is Some,
            r matches Ok(s) ==> span_of_wire(self) == Some(s@),
            r matches Err(e) ==> e == ConvertError::NegativeDuration,
    {
        if self.seconds < i64::MIN + 3 {
            return Err(ConvertError::NegativeDuration);
        }
        match std_from_wire(self.seconds, self.nanos) {
            Ok(p) => Ok(Span::new(p.0, p.1)),
            Err(_) => Err(ConvertError::NegativeDuration),
        }
    }
}

// ----------------------------------------------------------------------------
// HTTP methods and report kinds

/// The wire code of an HTTP method: the methods are numbered from zero in the
/// order they are declared.
pub open spec fn method_code(m: HttpMethod) -> i32 {
    match m {
        HttpMethod::Get => 0,
        HttpMethod::Post => 1,
        HttpMethod::Put => 2,
        HttpMethod::Patch => 3,
        HttpMethod::Delete => 4,
        HttpMethod::Head => 5,
        HttpMethod::Options => 6,
        HttpMethod::Trace => 7,
        HttpMethod::Connect => 8,
    }
}

/// The HTTP method a wire code names, if any.
pub open spec fn method_of_code(code: i32) -> Option<HttpMethod> {
    if code == 0 {
        Some(HttpMethod::Get)
    } else if code == 1 {
        Some(HttpMethod::Post)
    } else if code == 2 {
        Some(HttpMethod::Put)
    } else if code == 3 {
        Some(HttpMethod::Patch)
    } else if code == 4 {
        Some(HttpMethod::Delete)
    } else if code == 5 {
        Some(HttpMethod::Head)
    } else if code == 6 {
        Some(HttpMethod::Options)
    } else if code == 7 {
        Some(HttpMethod::Trace)
    } else if code == 8 {
        Some(HttpMethod::Connect)
    } else {
        None
    }
}

/// The wire code of an HTTP method.
pub fn http_method_code(m: HttpMethod) -> (c: i32)
    ensures
        c == method_code(m),
        method_of_code(c) == Some(m),
{
    match m {
        HttpMethod::Get => 0,
        HttpMethod::Post => 1,
        HttpMethod::Put => 2,
        HttpMethod::Patch => 3,
        HttpMethod::Delete => 4,
        HttpMethod::Head => 5,
        HttpMethod::Options => 6,
        HttpMethod::Trace => 7,
        HttpMethod::Connect => 8,
    }
}

/// The HTTP method that a wire code names.
pub fn http_method_from_code(code: i32) -> (r: Result<HttpMethod, ConvertError>)
    ensures
        r is Ok <==> method_of_code(code) is Some,
        r matches Ok(m) ==> method_of_code(code) == Some(m) && method_code(m) == code,
        r matches Err(e) ==> e == ConvertError::InvalidHttpMethod,
{
    if code == 0 {
        Ok(HttpMethod::Get)
    } else if code == 1 {
        Ok(HttpMethod::Post)
    } else if code == 2 {
        Ok(HttpMethod::Put)
    } else if code == 3 {
        Ok(HttpMethod::Patch)
    } else if code == 4 {
        Ok(HttpMethod::Delete)
    } else if code == 5 {
        Ok(HttpMethod::Head)
    } else if code == 6 {
        Ok(HttpMethod::Options)
    } else if code == 7 {
        Ok(HttpMethod::Trace)
    } else if code == 8 {
        Ok(HttpMethod::Connect)
    } else {
        Err(ConvertError::InvalidHttpMethod)
    }
}

/// The kinds of latency report, on the wire.
#[derive(Clone, Copy, Debug, PartialEq, Eq, Structural)]
pub enum ReportKind {
    DelayLatency,
    ResponseLatency,
    ErrorLatency,
}

impl ReportKind {
    /// The wire form of a report kind.
    pub fn from_kind(kind: Kind) -> (r: ReportKind)
        ensures
            r == (match kind {
                Kind::DelayLatency => ReportKind::DelayLatency,
                Kind::ResponseLatency => ReportKind::ResponseLatency,
                Kind::ErrorLatency => ReportKind::ErrorLatency,
            }),
    {
        match kind {
            Kind::DelayLatency => ReportKind::DelayLatency,
            Kind::ResponseLatency => ReportKind::ResponseLatency,
            Kind::ErrorLatency => ReportKind::ErrorLatency,
        }
    }

    /// The report kind this wire form stands for.
    pub fn to_kind(self) -> (k: Kind)
        ensures
            k == (match self {
                ReportKind::DelayLatency => Kind::DelayLatency,
                ReportKind::ResponseLatency => Kind::ResponseLatency,
                ReportKind::ErrorLatency => Kind::ErrorLatency,
            }),
    {
        match self {
            ReportKind::DelayLatency => Kind::DelayLatency,
            ReportKind::ResponseLatency => Kind::ResponseLatency,
            ReportKind::ErrorLatency => Kind::ErrorLatency,
        }
    }

    /// The wire code of the kind: the kinds are numbered from zero in the
    /// order they are declared.
    pub fn code(self) -> (c: i32)
        ensures
            c == (match self {
                ReportKind::DelayLatency => 0i32,
                ReportKind::ResponseLatency => 1i32,
                ReportKind::ErrorLatency => 2i32,
            }),
    {
        match self {
            ReportKind::DelayLatency => 0,
            ReportKind::ResponseLatency => 1,
            ReportKind::ErrorLatency => 2,
        }
    }
}


// ----------------------------------------------------------------------------
// Plans on the wire

/// A plan on the wire.
#[derive(Clone, Debug)]
pub struct Plan {
    pub name: String,
    pub segments: Vec<Segment>,
    pub actions: Vec<Action>,
}

/// A plan segment on the wire.
#[derive(Clone, Debug)]
pub struct Segment {
    pub name: String,
    pub rate_start: Rate,
    pub rate_end: Rate,
    pub duration: Option<Duration>,
}

/// An action on the wire.
#[derive(Clone, Debug)]
pub struct Action {
    pub name: String,
    pub action: Option<ActionKind>,
}

/// The kinds of action on the wire.
#[derive(Clone, Debug)]
pub enum ActionKind {
    HttpAction(HttpAction),
    UdpAction(UdpAction),
    ExecAction(ExecAction),
    WasmAction(WasmAction),
}

/// An HTTP request on the wire; `method` is a wire code (see [`method_code`]).
#[derive(Clone, Debug)]
pub struct HttpAction {
    pub method: i32,
    pub headers: Headers,
    pub payload: Vec<u8>,
    pub target: String,
}

/// A UDP datagram on the wire.
#[derive(Clone, Debug)]
pub struct UdpAction {
    pub payload: Vec<u8>,
    pub target: String,
}

/// A command to run, on the wire.
#[derive(Clone, Debug)]
pub struct ExecAction {
    pub command: String,
    pub args: Vec<String>,
    pub env: Environment,
}

/// A WASM module to run, on the wire.
#[derive(Clone, Copy, Debug)]
pub struct WasmAction {}

/// A request to run a plan.
#[derive(Clone, Debug)]
pub struct ExecRequest {
    pub plan: Option<Plan>,
}

/// A request for a report; `report_kind` is a wire code (see [`ReportKind::code`]).
#[derive(Clone, Copy, Debug)]
pub struct ReportRequest {
    pub report_kind: i32,
}

/// `w` is the wire form of the segment `s`.
pub open spec fn segment_sent(s: plan::Segment, w: Segment) -> bool {
    &&& w.name == s.name
    &&& w.rate_start == s.rate_start
    &&& w.rate_end == s.rate_end
    &&& fits_wire(s.duration)
    &&& w.duration == Some(wire_of(s.duration))
}

/// Why the wire segment `w` stands for no segment, if it does not.
pub open spec fn segment_error(w: Segment) -> Option<ConvertError> {
    match w.duration {
        None => Some(ConvertError::MissingDuration),
        Some(d) => if span_of_wire(d) is Some {
            None
        } else {
            Some(ConvertError::NegativeDuration)
        },
    }
}

/// `s` is the segment that the wire segment `w` stands for.
pub open spec fn segment_received(w: Segment, s: plan::Segment) -> bool {
    &&& s.name == w.name
    &&& s.rate_start == w.rate_start
    &&& s.rate_end == w.rate_end
    &&& w.duration matches Some(d) && span_of_wire(d) == Some(s.duration@)
}

/// A wire segment carries each part of its segment in its own field: the
/// name, the starting rate, the ending rate and the duration; and a segment
/// received takes each part from the same field.
pub proof fn lemma_segment_fields(s: plan::Segment, w: Segment, t: plan::Segment)
    ensures
        segment_sent(s, w) ==> {
            &&& w.name == s.name
            &&& w.rate_start == s.rate_start
            &&& w.rate_end == s.rate_end
            &&& w.duration matches Some(d) && d.seconds == s.duration@ / nanos_per_sec() && d.nanos
                == s.duration@ % nanos_per_sec()
        },
        segment_received(w, t) ==> {
            &&& t.name == w.name
            &&& t.rate_start == w.rate_start
            &&& t.rate_end == w.rate_end
            &&& w.duration matches Some(d) && span_of_wire(d) == Some(t.duration@)
        },
{
}

/// `w` is the wire form of the action `a`.
pub open spec fn action_sent(a: plan::Action, w: Action) -> bool {
    match a {
        plan::Action::Http { name, target, method, headers, payload } => {
            &&& w.name == name
            &&& w.action matches Some(ActionKind::HttpAction(h))
            &&& h.method == method_code(method)
            &&& h.headers == headers
            &&& h.payload == payload
            &&& h.target@ == target@.0
            &&& parsed_url(h.target@) == Some(target@)
        },
        plan::Action::Udp { name, target, payload } => {
            &&& w.name == name
            &&& w.action matches Some(ActionKind::UdpAction(u))
            &&& u.payload == payload
            &&& u.target@ == target@.0
            &&& parsed_url(u.target@) == Some(target@)
        },
        plan::Action::Exec { name, command, args, env } => {
            &&& w.name == name
            &&& w.action matches Some(ActionKind::ExecAction(x))
            &&& x.command == command
            &&& x.args == args
            &&& x.env == env
        },
        plan::Action::Wasm {} => false,
    }
}

/// Why the wire action `w` stands for no action, if it does not.
pub open spec fn action_error(w: Action) -> Option<ConvertError> {
    match w.action {
        None => Some(ConvertError::MissingAction),
        Some(ActionKind::HttpAction(h)) => if method_of_code(h.method) is None {
            Some(ConvertError::InvalidHttpMethod)
        } else if parsed_url(h.target@) is None {
            Some(ConvertError::InvalidTarget)
        } else {
            None
        },
        Some(ActionKind::UdpAction(u)) => if parsed_url(u.target@) is None {
            Some(ConvertError::InvalidTarget)
        } else {
            None
        },
        Some(ActionKind::ExecAction(_)) => None,
        Some(ActionKind::WasmAction(_)) => None,
    }
}

/// `a` is the action that the wire action `w` stands for.
pub open spec fn action_received(w: Action, a: plan::Action) -> bool {
    match w.action {
        None => false,
        Some(ActionKind::HttpAction(h)) => match a {
            plan::Action::Http { name, target, method, headers, payload } => {
                &&& name == w.name
                &&& method_of_code(h.method) == Some(method)
                &&& headers == h.headers
                &&& payload == h.payload
                &&& parsed_url(h.target@) == Some(target@)
            },
            _ => false,
        },
        Some(ActionKind::UdpAction(u)) => match a {
            plan::Action::Udp { name, target, payload } => {
                &&& name == w.name
                &&& payload == u.payload
                &&& parsed_url(u.target@) == Some(target@)
            },
            _ => false,
        },
        Some(ActionKind::ExecAction(x)) => match a {
            plan::Action::Exec { name, command, args, env } => {
                &&& name == w.name
                &&& command == x.command
                &&& args == x.args
                &&& env == x.env
            },
            _ => false,
        },
        Some(ActionKind::WasmAction(_)) => a is Wasm,
    }
}

/// The error of the first of the first `k` items that `check` refuses, if any.
pub open spec fn first_error<A>(
    items: Seq<A>,
    check: spec_fn(A) -> Option<ConvertError>,
    k: int,
) -> Option<ConvertError>
    decreases k,
{
    if k <= 0 {
        None
    } else {
        match first_error(items, check, k - 1) {
            Some(e) => Some(e),
            None => check(items[k - 1]),
        }
    }
}

/// No first error among the first `k` items means `check` refuses none of them.
pub proof fn lemma_first_error_none<A>(
    items: Seq<A>,
    check: spec_fn(A) -> Option<ConvertError>,
    k: int,
)
    requires
        0 <= k <= items.len(),
    ensures
        first_error(items, check, k) is None <==> forall|i: int|
            0 <= i < k ==> (#[trigger] check(items[i])) is None,
    decreases k,
{
    if k > 0 {
        lemma_first_error_none(items, check, k - 1);
    }
}

/// Once a first error among the items is found, later items do not change it.
pub proof fn lemma_first_error_stays<A>(
    items: Seq<A>,
    check: spec_fn(A) -> Option<ConvertError>,
    k: int,
    n: int,
)
    requires
        0 <= k <= n,
        first_error(items, check, k) is Some,
    ensures
        first_error(items, check, n) == first_error(items, check, k),
    decreases n - k,
{
    if k < n {
        lemma_first_error_stays(items, check, k, n - 1);
    }
}

/// What each wire segment's conversion refuses.
pub open spec fn segment_check() -> spec_fn(Segment) -> Option<ConvertError> {
    |s: Segment| segment_error(s)
}

/// What each wire action's conversion refuses.
pub open spec fn action_check() -> spec_fn(Action) -> Option<ConvertError> {
    |a: Action| action_error(a)
}

/// The error of the first of the first `k` wire segments that stands for no
/// segment, if any.
pub open spec fn first_segment_error(segments: Seq<Segment>, k: int) -> Option<ConvertError> {
    first_error(segments, segment_check(), k)
}

/// The error of the first of the first `k` wire actions that stands for no
/// action, if any.
pub open spec fn first_action_error(actions: Seq<Action>, k: int) -> Option<ConvertError> {
    first_error(actions, action_check(), k)
}

/// Every segment of the plan fits on the wire.
pub open spec fn segments_fit_wire(segments: Seq<plan::Segment>) -> bool {
    forall|i: int| 0 <= i < segments.len() ==> fits_wire(#[trigger] segments[i].duration)
}

/// `w` is the wire form of the plan `p`.
pub open spec fn plan_sent(p: plan::Plan, w: Plan) -> bool {
    &&& w.name == p.name
    &&& w.segments@.len() == p.segments@.len()
    &&& forall|i: int|
        0 <= i < p.segments@.len() ==> segment_sent(p.segments@[i], #[trigger] w.segments@[i])
    &&& w.actions@.len() == p.actions@.len()
    &&& forall|i: int|
        0 <= i < p.actions@.len() ==> action_sent(p.actions@[i], #[trigger] w.actions@[i])
}

/// Why the wire plan `w` stands for no plan, if it does not: the error of its
/// first unreadable segment, else of its first unreadable action.
pub open spec fn plan_error(w: Plan) -> Option<ConvertError> {
    match first_segment_error(w.segments@, w.segments@.len() as int) {
        Some(e) => Some(e),
        None => first_action_error(w.actions@, w.actions@.len() as int),
    }
}

/// `p` is the plan that the wire plan `w` stands for.
pub open spec fn plan_received(w: Plan, p: plan::Plan) -> bool {
    &&& p.name == w.name
    &&& p.segments@.len() == w.segments@.len()
    &&& forall|i: int|
        0 <= i < w.segments@.len() ==> segment_received(w.segments@[i], #[trigger] p.segments@[i])
    &&& p.actions@.len() == w.actions@.len()
    &&& forall|i: int|
        0 <= i < w.actions@.len() ==> action_received(w.actions@[i], #[trigger] p.actions@[i])
}

/// Two actions are the same, their targets the same URL.
pub open spec fn same_action(a: plan::Action, b: plan::Action) -> bool {
    match (a, b) {
        (
            plan::Action::Http { name: n1, target: t1, method: m1, headers: h1, payload: p1 },
            plan::Action::Http { name: n2, target: t2, method: m2, headers: h2, payload: p2 },
        ) => n1 == n2 && t1@ == t2@ && m1 == m2 && h1 == h2 && p1 == p2,
        (
            plan::Action::Udp { name: n1, target: t1, payload: p1 },
            plan::Action::Udp { name: n2, target: t2, payload: p2 },
        ) => n1 == n2 && t1@ == t2@ && p1 == p2,
        (
            plan::Action::Exec { name: n1, command: c1, args: a1, env: e1 },
            plan::Action::Exec { name: n2, command: c2, args: a2, env: e2 },
        ) => n1 == n2 && c1 == c2 && a1 == a2 && e1 == e2,
        (plan::Action::Wasm {}, plan::Action::Wasm {}) => true,
        _ => false,
    }
}

/// Two plans are the same: same name, same segments, and the same actions
/// (targets the same URL).
pub open spec fn same_plan(p: plan::Plan, q: plan::Plan) -> bool {
    &&& p.name == q.name
    &&& p.segments@ == q.segments@
    &&& p.actions@.len() == q.actions@.len()
    &&& forall|i: int|
        0 <= i < p.actions@.len() ==> same_action(p.actions@[i], #[trigger] q.actions@[i])
}

impl Segment {
    /// The wire form of a segment.
    pub fn from_segment(value: plan::Segment) -> (r: Result<Segment, ConvertError>)
        ensures
            r is Ok <==> fits_wire(value.duration),
            r matches Ok(w) ==> segment_sent(value, w),
            r matches Err(e) ==> e == ConvertError::DurationOutOfRange,
    {
        let duration = Duration::from_span(value.duration)?;
        Ok(Segment {
            name: value.name,
            rate_start: value.rate_start,
            rate_end: value.rate_end,
            duration: Some(duration),
        })
    }

    /// The segment this wire segment stands for.
    pub fn to_segment(self) -> (r: Result<plan::Segment, ConvertError>)
        ensures
            r is Ok <==> segment_error(self) is None,
            r matches Ok(s) ==> segment_received(self, s),
            r matches Err(e) ==> segment_error(self) == Some(e),
    {
        let duration = match self.duration {
            Some(d) => d.to_span()?,
            None => {
                return Err(ConvertError::MissingDuration);
            },
        };
        Ok(plan::Segment {
            name: self.name,
            rate_start: self.rate_start,
            rate_end: self.rate_end,
            duration,
        })
    }
}

impl Action {
    /// The wire form of an action; a WASM action has none.
    pub fn from_action(value: plan::Action) -> (r: Result<Action, ConvertError>)
        requires
            !(value is Wasm),
        ensures
            r matches Ok(w) && action_sent(value, w),
    {
        match value {
            plan::Action::Http { name, method, headers, payload, target } => Ok(Action {
                name,
                action: Some(
                    ActionKind::HttpAction(
                        HttpAction {
                            method: http_method_code(method),
                            headers,
                            payload,
                            target: target.to_text(),
                        },
                    ),
                ),
            }),
            plan::Action::Udp { name, payload, target } => Ok(Action {
                name,
                action: Some(ActionKind::UdpAction(UdpAction { payload, target: target.to_text() })),
            }),
            plan::Action::Exec { name, command, args, env } => Ok(Action {
                name,
                action: Some(ActionKind::ExecAction(ExecAction { command, args, env })),
            }),
            plan::Action::Wasm {} => {
                assert(false);
                Err(ConvertError::MissingAction)
            },
        }
    }

    /// The action this wire action stands for.
    pub fn to_action(self) -> (r: Result<plan::Action, ConvertError>)
        ensures
            r is Ok <==> action_error(self) is None,
            r matches Ok(a) ==> action_received(self, a),
            r matches Err(e) ==> action_error(self) == Some(e),
    {
        let name = self.name;
        match self.action {
            None => Err(ConvertError::MissingAction),
            Some(ActionKind::HttpAction(a)) => {
                let method = http_method_from_code(a.method)?;
                let target = match Target::parse(a.target.as_str()) {
                    Ok(t) => t,
                    Err(_) => {
                        return Err(ConvertError::InvalidTarget);
                    },
                };
                Ok(plan::Action::Http { name, method, headers: a.headers, payload: a.payload, target })
            },
            Some(ActionKind::UdpAction(a)) => {
                let target = match Target::parse(a.target.as_str()) {
                    Ok(t) => t,
                    Err(_) => {
                        return Err(ConvertError::InvalidTarget);
                    },
                };
                Ok(plan::Action::Udp { name, payload: a.payload, target })
            },
            Some(ActionKind::ExecAction(a)) => Ok(
                plan::Action::Exec { name, command: a.command, args: a.args, env: a.env },
            ),
            Some(ActionKind::WasmAction(_)) => Ok(plan::Action::Wasm {}),
        }
    }
}


impl Plan {
    /// The wire form of a plan. A plan with a WASM action has none; the
    /// conversion stops at the first segment too long for the wire, before
    /// it reaches the actions.
    pub fn from_plan(value: plan::Plan) -> (r: Result<Plan, ConvertError>)
        requires
            segments_fit_wire(value.segments@) ==> forall|j: int|
                0 <= j < value.actions@.len() ==> !(#[trigger] value.actions@[j] is Wasm),
        ensures
            r is Ok <==> segments_fit_wire(value.segments@),
            r matches Ok(w) ==> plan_sent(value, w),
            r matches Err(e) ==> e == ConvertError::DurationOutOfRange,
    {
        let ghost orig = value;
        let mut segments: Vec<Segment> = Vec::new();
        for s in it: value.segments
            invariant
                it.seq() == orig.segments@,
                segments@.len() == it.index(),
                forall|j: int|
                    0 <= j < it.index() ==> segment_sent(orig.segments@[j], #[trigger] segments@[j]),
                forall|j: int| 0 <= j < it.index() ==> fits_wire(#[trigger] orig.segments@[j].duration),
        {
            match Segment::from_segment(s) {
                Ok(w) => segments.push(w),
                Err(e) => {
                    return Err(e);
                },
            }
        }
        assert(segments_fit_wire(orig.segments@));
        let mut actions: Vec<Action> = Vec::new();
        for a in it: value.actions
            invariant
                it.seq() == orig.actions@,
                segments_fit_wire(orig.segments@),
                forall|j: int|
                    0 <= j < orig.actions@.len() ==> !(#[trigger] orig.actions@[j] is Wasm),
                actions@.len() == it.index(),
                forall|j: int|
                    0 <= j < it.index() ==> action_sent(orig.actions@[j], #[trigger] actions@[j]),
        {
            match Action::from_action(a) {
                Ok(w) => actions.push(w),
                Err(e) => {
                    return Err(e);
                },
            }
        }
        Ok(Plan { name: value.name, segments, actions })
    }

    /// The plan this wire plan stands for.
    pub fn to_plan(self) -> (r: Result<plan::Plan, ConvertError>)
        ensures
            r is Ok <==> plan_error(self) is None,
            r matches Ok(p) ==> plan_received(self, p),
            r matches Err(e) ==> plan_error(self) == Some(e),
    {
        let ghost orig = self;
        let Plan { name, segments: wire_segments, actions: wire_actions } = self;
        let mut segments: Vec<plan::Segment> = Vec::new();
        for w in it: wire_segments
            invariant
                orig == self,
                it.seq() == orig.segments@,
                segments@.len() == it.index(),
                first_segment_error(orig.segments@, it.index() as int) is None,
                forall|j: int|
                    0 <= j < it.index() ==> segment_received(
                        orig.segments@[j],
                        #[trigger] segments@[j],
                    ),
        {
            let ghost k = it.index();
            assert(w == orig.segments@[k as int]);
            match w.to_segment() {
                Ok(s) => segments.push(s),
                Err(e) => {
                    assert(first_segment_error(orig.segments@, k + 1) == Some(e));
                    proof {
                        lemma_first_error_stays(
                            orig.segments@,
                            segment_check(),
                            k + 1,
                            orig.segments@.len() as int,
                        );
                    }
                    return Err(e);
                },
            }
        }
        let mut actions: Vec<plan::Action> = Vec::new();
        for w in it: wire_actions
            invariant
                orig == self,
                it.seq() == orig.actions@,
                first_segment_error(orig.segments@, orig.segments@.len() as int) is None,
                actions@.len() == it.index(),
                first_action_error(orig.actions@, it.index() as int) is None,
                forall|j: int|
                    0 <= j < it.index() ==> action_received(orig.actions@[j], #[trigger] actions@[j]),
        {
            let ghost k = it.index();
            assert(w == orig.actions@[k as int]);
            match w.to_action() {
                Ok(a) => actions.push(a),
                Err(e) => {
                    assert(first_action_error(orig.actions@, k + 1) == Some(e));
                    proof {
                        lemma_first_error_stays(
                            orig.actions@,
                            action_check(),
                            k + 1,
                            orig.actions@.len() as int,
                        );
                    }
                    assert(first_segment_error(orig.segments@, orig.segments@.len() as int) is None);
                    assert(plan_error(orig) == Some(e));
                    return Err(e);
                },
            }
        }
        Ok(plan::Plan { name, segments, actions })
    }
}

/// A plan sent over the wire comes back as the same plan: the wire form of a
/// plan stands for a plan, and every plan it stands for is the one sent
/// (its targets the same URLs).
pub proof fn lemma_plan_round_trip(p: plan::Plan, w: Plan, q: plan::Plan)
    requires
        plan_sent(p, w),
    ensures
        plan_error(w) is None,
        plan_received(w, q) ==> same_plan(p, q),
{
    assert forall|i: int| 0 <= i < w.segments@.len() implies (#[trigger] segment_error(
        w.segments@[i],
    )) is None by {
        assert(segment_sent(p.segments@[i], w.segments@[i]));
        lemma_span_round_trip(p.segments@[i].duration);
    }
    lemma_first_error_none(w.segments@, segment_check(), w.segments@.len() as int);
    assert forall|i: int| 0 <= i < w.actions@.len() implies (#[trigger] action_error(
        w.actions@[i],
    )) is None by {
        assert(action_sent(p.actions@[i], w.actions@[i]));
    }
    lemma_first_error_none(w.actions@, action_check(), w.actions@.len() as int);
    if plan_received(w, q) {
        assert forall|i: int| 0 <= i < p.segments@.len() implies p.segments@[i] == q.segments@[i] by {
            assert(segment_sent(p.segments@[i], w.segments@[i]));
            assert(segment_received(w.segments@[i], q.segments@[i]));
            lemma_span_round_trip(p.segments@[i].duration);
            Span::lemma_view_determines(p.segments@[i].duration, q.segments@[i].duration);
        }
        assert(p.segments@ =~= q.segments@);
        assert forall|i: int| 0 <= i < p.actions@.len() implies same_action(
            p.actions@[i],
            #[trigger] q.actions@[i],
        ) by {
            assert(action_sent(p.actions@[i], w.actions@[i]));
            assert(action_received(w.actions@[i], q.actions@[i]));
        }
    }
}


/// Why a request to run a plan is refused.
#[derive(Clone, Copy, Debug, PartialEq, Eq, Structural)]
pub enum RequestError {
    /// The request gives no plan.
    MissingPlan,
    /// The request's plan stands for no plan.
    InvalidPlan(ConvertError),
}

impl ExecRequest {
    /// A request to run `plan`.
    pub fn for_plan(plan: plan::Plan) -> (r: Result<ExecRequest, ConvertError>)
        requires
            segments_fit_wire(plan.segments@) ==> forall|j: int|
                0 <= j < plan.actions@.len() ==> !(#[trigger] plan.actions@[j] is Wasm),
        ensures
            r is Ok <==> segments_fit_wire(plan.segments@),
            r matches Ok(req) ==> req.plan matches Some(w) && plan_sent(plan, w),
            r matches Err(e) ==> e == ConvertError::DurationOutOfRange,
    {
        let w = Plan::from_plan(plan)?;
        Ok(ExecRequest { plan: Some(w) })
    }

    /// The plan that the request asks to run.
    pub fn into_plan(self) -> (r: Result<plan::Plan, RequestError>)
        ensures
            self.plan is None ==> r == Err::<plan::Plan, RequestError>(RequestError::MissingPlan),
            self.plan matches Some(w) ==> match plan_error(w) {
                Some(e) => r == Err::<plan::Plan, RequestError>(RequestError::InvalidPlan(e)),
                None => r matches Ok(p) && plan_received(w, p),
            },
    {
        match self.plan {
            None => Err(RequestError::MissingPlan),
            Some(w) => match w.to_plan() {
                Ok(p) => Ok(p),
                Err(e) => Err(RequestError::InvalidPlan(e)),
            },
        }
    }
}

impl ReportRequest {
    /// A request for a report of the given kind.
    pub fn for_kind(kind: Kind) -> (r: ReportRequest)
        ensures
            r.report_kind == (match kind {
                Kind::DelayLatency => 0i32,
                Kind::ResponseLatency => 1i32,
                Kind::ErrorLatency => 2i32,
            }),
    {
        ReportRequest { report_kind: ReportKind::from_kind(kind).code() }
    }
}

} // verus!
