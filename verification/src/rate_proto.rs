//! The wire messages of the load-test service, which carries rate plans, and
//! the conversions between them and rate plans.

use vstd::prelude::*;

use crate::duration::Duration as Span;
use crate::plan::{Environment, Headers, Rate};
use crate::proto::{
    fits_wire, http_method_code, http_method_from_code, lemma_span_round_trip, method_code,
    method_of_code, span_of_wire, wire_of, first_error, lemma_first_error_none, lemma_first_error_stays,
    ConvertError, Duration, RequestError,
};
use crate::rate_plan;
use crate::target::{parsed_url, Target};

verus! {

/// A rate plan on the wire.
#[derive(Clone, Debug)]
pub struct Plan {
    pub segments: Vec<RateSegment>,
    pub actions: Vec<Action>,
}

/// A rate segment on the wire.
#[derive(Clone, Copy, Debug, PartialEq, Eq, Structural)]
pub struct RateSegment {
    pub segment: Option<SegmentKind>,
}

/// The kinds of rate segment on the wire.
#[derive(Clone, Copy, Debug, PartialEq, Eq, Structural)]
pub enum SegmentKind {
    FixedRateSegment(FixedRateSegment),
    LinearRateSegment(LinearRateSegment),
}

/// A fixed-rate segment on the wire; no duration means forever.
#[derive(Clone, Copy, Debug, PartialEq, Eq, Structural)]
pub struct FixedRateSegment {
    pub rate: Rate,
    pub duration: Option<Duration>,
}

/// A linear-rate segment on the wire.
#[derive(Clone, Copy, Debug, PartialEq, Eq, Structural)]
pub struct LinearRateSegment {
    pub rate_start: Rate,
    pub rate_end: Rate,
    pub duration: Option<Duration>,
}

/// An action on the wire.
#[derive(Clone, Debug)]
pub struct Action {
    pub action: Option<ActionKind>,
}

/// The kinds of action on the wire.
#[derive(Clone, Debug)]
pub enum ActionKind {
    HttpAction(HttpAction),
    UdpAction(UdpAction),
    ExecAction(ExecAction),
    WasmAction(WasmAction),
}

/// An HTTP request on the wire; `method` is a wire code.
#[derive(Clone, Debug)]
pub struct HttpAction {
    pub method: i32,
    pub headers: Headers,
    pub payload: String,
    pub target: String,
}

/// A UDP datagram on the wire.
#[derive(Clone, Debug)]
pub struct UdpAction {
    pub payload: String,
    pub target: String,
}

/// A command to run, on the wire.
#[derive(Clone, Debug)]
pub struct ExecAction {
    pub command: String,
    pub args: Vec<String>,
    pub env: Environment,
}

/// A WASM module to run, on the wire.
#[derive(Clone, Copy, Debug)]
pub struct WasmAction {}

/// A request, on the load-test service's stream, to run a plan.
#[derive(Clone, Debug)]
pub struct MetronRequest {
    pub plan: Option<Plan>,
}

/// A response on the load-test service's stream.
#[derive(Clone, Debug)]
pub struct MetronResponse {
    pub target: String,
}

/// A request, on the agent service's stream, carrying a plan.
#[derive(Clone, Debug)]
pub struct AgentRequest {
    pub plan: Option<Plan>,
}

/// A response on the agent service's stream: how many segments the plan had.
#[derive(Clone, Copy, Debug, PartialEq, Eq, Structural)]
pub struct AgentResponse {
    pub num_segments: u64,
}

/// The optional span fits on the wire.
pub open spec fn option_fits_wire(d: Option<Span>) -> bool {
    match d {
        Some(d) => fits_wire(d),
        None => true,
    }
}

/// The segment's duration, where it has one, fits on the wire.
pub open spec fn rate_segment_fits(s: rate_plan::RateSegment) -> bool {
    match s {
        rate_plan::RateSegment::Fixed { duration, .. } => option_fits_wire(duration),
        rate_plan::RateSegment::Linear { duration, .. } => fits_wire(duration),
    }
}

/// The wire form of an optional span that fits.
pub open spec fn option_wire_of(d: Option<Span>) -> Option<Duration> {
    match d {
        Some(d) => Some(wire_of(d)),
        None => None,
    }
}

/// The wire form of a segment whose duration fits.
pub open spec fn rate_segment_wire(s: rate_plan::RateSegment) -> RateSegment {
    match s {
        rate_plan::RateSegment::Fixed { rate, duration } => RateSegment {
            segment: Some(
                SegmentKind::FixedRateSegment(
                    FixedRateSegment { rate, duration: option_wire_of(duration) },
                ),
            ),
        },
        rate_plan::RateSegment::Linear { rate_start, rate_end, duration } => RateSegment {
            segment: Some(
                SegmentKind::LinearRateSegment(
                    LinearRateSegment { rate_start, rate_end, duration: Some(wire_of(duration)) },
                ),
            ),
        },
    }
}

/// Why the wire segment `w` stands for no segment, if it does not.
pub open spec fn rate_segment_error(w: RateSegment) -> Option<ConvertError> {
    match w.segment {
        None => Some(ConvertError::MissingRateSegment),
        Some(SegmentKind::FixedRateSegment(f)) => match f.duration {
            Some(d) => if span_of_wire(d) is Some {
                None
            } else {
                Some(ConvertError::NegativeDuration)
            },
            None => None,
        },
        Some(SegmentKind::LinearRateSegment(l)) => match l.duration {
            Some(d) => if span_of_wire(d) is Some {
                None
            } else {
                Some(ConvertError::NegativeDuration)
            },
            None => Some(ConvertError::LinearWithoutDuration),
        },
    }
}

/// `s` is the segment that the wire segment `w` stands for.
pub open spec fn rate_segment_received(w: RateSegment, s: rate_plan::RateSegment) -> bool {
    match w.segment {
        None => false,
        Some(SegmentKind::FixedRateSegment(f)) => match s {
            rate_plan::RateSegment::Fixed { rate, duration } => rate == f.rate && match f.duration {
                Some(d) => duration matches Some(sd) && span_of_wire(d) == Some(sd@),
                None => duration is None,
            },
            _ => false,
        },
        Some(SegmentKind::LinearRateSegment(l)) => match s {
            rate_plan::RateSegment::Linear { rate_start, rate_end, duration } => {
                &&& rate_start == l.rate_start
                &&& rate_end == l.rate_end
                &&& l.duration matches Some(d) && span_of_wire(d) == Some(duration@)
            },
            _ => false,
        },
    }
}

/// A wire rate segment carries each part of its segment in its own field:
/// a fixed segment's rate and duration, a linear segment's starting rate,
/// ending rate and duration; and a segment received takes each part from the
/// same field.
pub proof fn lemma_rate_segment_fields(s: rate_plan::RateSegment, w: RateSegment)
    ensures
        s matches rate_plan::RateSegment::Fixed { rate, duration } ==> {
            &&& rate_segment_wire(s).segment matches Some(SegmentKind::FixedRateSegment(f))
            &&& rate_segment_wire(s).segment->0->FixedRateSegment_0.rate == rate
            &&& (duration is None <==> rate_segment_wire(s).segment->0->FixedRateSegment_0.duration is None)
        },
        s matches rate_plan::RateSegment::Linear { rate_start, rate_end, duration } ==> {
            &&& rate_segment_wire(s).segment matches Some(SegmentKind::LinearRateSegment(l))
            &&& rate_segment_wire(s).segment->0->LinearRateSegment_0.rate_start == rate_start
            &&& rate_segment_wire(s).segment->0->LinearRateSegment_0.rate_end == rate_end
            &&& rate_segment_wire(s).segment->0->LinearRateSegment_0.duration is Some
        },
        rate_segment_received(w, s) && s is Fixed ==> {
            &&& w.segment matches Some(SegmentKind::FixedRateSegment(f))
            &&& w.segment->0->FixedRateSegment_0.rate == s->Fixed_rate
        },
        rate_segment_received(w, s) && s is Linear ==> {
            &&& w.segment matches Some(SegmentKind::LinearRateSegment(l))
            &&& w.segment->0->LinearRateSegment_0.rate_start == s->Linear_rate_start
            &&& w.segment->0->LinearRateSegment_0.rate_end == s->Linear_rate_end
            &&& w.segment->0->LinearRateSegment_0.duration matches Some(d)
            &&& span_of_wire(w.segment->0->LinearRateSegment_0.duration->0) == Some(
                s->Linear_duration@,
            )
        },
{
}

/// `w` is the wire form of the action `a`.
pub open spec fn action_sent(a: rate_plan::Action, w: Action) -> bool {
    match a {
        rate_plan::Action::Http { method, headers, payload, target } => {
            &&& w.action matches Some(ActionKind::HttpAction(h))
            &&& h.method == method_code(method)
            &&& h.headers == headers
            &&& h.payload == payload
            &&& h.target@ == target@.0
            &&& parsed_url(h.target@) == Some(target@)
        },
        rate_plan::Action::Udp { payload, target } => {
            &&& w.action matches Some(ActionKind::UdpAction(u))
            &&& u.payload == payload
            &&& u.target@ == target@.0
            &&& parsed_url(u.target@) == Some(target@)
        },
        rate_plan::Action::Exec { command, args, env } => {
            &&& w.action matches Some(ActionKind::ExecAction(x))
            &&& x.command == command
            &&& x.args == args
            &&& x.env == env
        },
        rate_plan::Action::Wasm {} => false,
    }
}

/// Why the wire action `w` stands for no action, if it does not.
pub open spec fn action_error(w: Action) -> Option<ConvertError> {
    match w.action {
        None => Some(ConvertError::MissingAction),
        Some(ActionKind::HttpAction(h)) => if method_of_code(h.method) is None {
            Some(ConvertError::InvalidHttpMethod)
        } else if parsed_url(h.target@) is None {
            Some(ConvertError::InvalidTarget)
        } else {
            None
        },
        Some(ActionKind::UdpAction(u)) => if parsed_url(u.target@) is None {
            Some(ConvertError::InvalidTarget)
        } else {
            None
        },
        Some(ActionKind::ExecAction(_)) => None,
        Some(ActionKind::WasmAction(_)) => None,
    }
}

/// `a` is the action that the wire action `w` stands for.
pub open spec fn action_received(w: Action, a: rate_plan::Action) -> bool {
    match w.action {
        None => false,
        Some(ActionKind::HttpAction(h)) => match a {
            rate_plan::Action::Http { method, headers, payload, target } => {
                &&& method_of_code(h.method) == Some(method)
                &&& headers == h.headers
                &&& payload == h.payload
                &&& parsed_url(h.target@) == Some(target@)
            },
            _ => false,
        },
        Some(ActionKind::UdpAction(u)) => match a {
            rate_plan::Action::Udp { payload, target } => {
                &&& payload == u.payload
                &&& parsed_url(u.target@) == Some(target@)
            },
            _ => false,
        },
        Some(ActionKind::ExecAction(x)) => match a {
            rate_plan::Action::Exec { command, args, env } => {
                &&& command == x.command
                &&& args == x.args
                &&& env == x.env
            },
            _ => false,
        },
        Some(ActionKind::WasmAction(_)) => a is Wasm,
    }
}

/// What each wire segment's conversion refuses.
pub open spec fn segment_check() -> spec_fn(RateSegment) -> Option<ConvertError> {
    |s: RateSegment| rate_segment_error(s)
}

/// What each wire action's conversion refuses.
pub open spec fn action_check() -> spec_fn(Action) -> Option<ConvertError> {
    |a: Action| action_error(a)
}

/// The error of the first of the first `k` wire segments that stands for no
/// segment, if any.
pub open spec fn first_segment_error(segments: Seq<RateSegment>, k: int) -> Option<ConvertError> {
    first_error(segments, segment_check(), k)
}

/// The error of the first of the first `k` wire actions that stands for no
/// action, if any.
pub open spec fn first_action_error(actions: Seq<Action>, k: int) -> Option<ConvertError> {
    first_error(actions, action_check(), k)
}

/// Every segment of the plan fits on the wire.
pub open spec fn segments_fit_wire(segments: Seq<rate_plan::RateSegment>) -> bool {
    forall|i: int| 0 <= i < segments.len() ==> rate_segment_fits(#[trigger] segments[i])
}

/// `w` is the wire form of the plan `p`.
pub open spec fn plan_sent(p: rate_plan::Plan, w: Plan) -> bool {
    &&& w.segments@.len() == p.segments@.len()
    &&& forall|i: int|
        0 <= i < p.segments@.len() ==> rate_segment_fits(p.segments@[i]) && #[trigger] w.segments@[i]
            == rate_segment_wire(p.segments@[i])
    &&& w.actions@.len() == p.actions@.len()
    &&& forall|i: int|
        0 <= i < p.actions@.len() ==> action_sent(p.actions@[i], #[trigger] w.actions@[i])
}

/// Why the wire plan `w` stands for no plan, if it does not: the error of its
/// first unreadable segment, else of its first unreadable action.
pub open spec fn plan_error(w: Plan) -> Option<ConvertError> {
    match first_segment_error(w.segments@, w.segments@.len() as int) {
        Some(e) => Some(e),
        None => first_action_error(w.actions@, w.actions@.len() as int),
    }
}

/// `p` is the plan that the wire plan `w` stands for.
pub open spec fn plan_received(w: Plan, p: rate_plan::Plan) -> bool {
    &&& p.segments@.len() == w.segments@.len()
    &&& forall|i: int|
        0 <= i < w.segments@.len() ==> rate_segment_received(
            w.segments@[i],
            #[trigger] p.segments@[i],
        )
    &&& p.actions@.len() == w.actions@.len()
    &&& forall|i: int|
        0 <= i < w.actions@.len() ==> action_received(w.actions@[i], #[trigger] p.actions@[i])
}

/// Two actions are the same, their targets the same URL.
pub open spec fn same_action(a: rate_plan::Action, b: rate_plan::Action) -> bool {
    match (a, b) {
        (
            rate_plan::Action::Http { method: m1, headers: h1, payload: p1, target: t1 },
            rate_plan::Action::Http { method: m2, headers: h2, payload: p2, target: t2 },
        ) => t1@ == t2@ && m1 == m2 && h1 == h2 && p1 == p2,
        (
            rate_plan::Action::Udp { payload: p1, target: t1 },
            rate_plan::Action::Udp { payload: p2, target: t2 },
        ) => t1@ == t2@ && p1 == p2,
        (
            rate_plan::Action::Exec { command: c1, args: a1, env: e1 },
            rate_plan::Action::Exec { command: c2, args: a2, env: e2 },
        ) => c1 == c2 && a1 == a2 && e1 == e2,
        (rate_plan::Action::Wasm {}, rate_plan::Action::Wasm {}) => true,
        _ => false,
    }
}

/// Two plans are the same: same segments, and the same actions (targets the
/// same URL).
pub open spec fn same_plan(p: rate_plan::Plan, q: rate_plan::Plan) -> bool {
    &&& p.segments@ == q.segments@
    &&& p.actions@.len() == q.actions@.len()
    &&& forall|i: int|
        0 <= i < p.actions@.len() ==> same_action(p.actions@[i], #[trigger] q.actions@[i])
}

/// The wire form of an optional span.
fn option_to_wire(d: Option<Span>) -> (r: Result<Option<Duration>, ConvertError>)
    ensures
        r is Ok <==> option_fits_wire(d),
        r matches Ok(w) ==> w == option_wire_of(d),
        r matches Err(e) ==> e == ConvertError::DurationOutOfRange,
{
    match d {
        Some(d) => Ok(Some(Duration::from_span(d)?)),
        None => Ok(None),
    }
}

impl RateSegment {
    /// The wire form of a segment.
    pub fn from_segment(value: rate_plan::RateSegment) -> (r: Result<RateSegment, ConvertError>)
        ensures
            r is Ok <==> rate_segment_fits(value),
            r matches Ok(w) ==> w == rate_segment_wire(value),
            r matches Err(e) ==> e == ConvertError::DurationOutOfRange,
    {
        let segment = match value {
            rate_plan::RateSegment::Fixed { rate, duration } => {
                let duration = option_to_wire(duration)?;
                SegmentKind::FixedRateSegment(FixedRateSegment { rate, duration })
            },
            rate_plan::RateSegment::Linear { rate_start, rate_end, duration } => {
                let duration = Some(Duration::from_span(duration)?);
                SegmentKind::LinearRateSegment(LinearRateSegment { rate_start, rate_end, duration })
            },
        };
        Ok(RateSegment { segment: Some(segment) })
    }

    /// The segment this wire segment stands for.
    pub fn to_segment(self) -> (r: Result<rate_plan::RateSegment, ConvertError>)
        ensures
            r is Ok <==> rate_segment_error(self) is None,
            r matches Ok(s) ==> rate_segment_received(self, s),
            r matches Err(e) ==> rate_segment_error(self) == Some(e),
    {
        match self.segment {
            None => Err(ConvertError::MissingRateSegment),
            Some(SegmentKind::FixedRateSegment(s)) => {
                let duration = match s.duration {
                    Some(d) => Some(d.to_span()?),
                    None => None,
                };
                Ok(rate_plan::RateSegment::Fixed { rate: s.rate, duration })
            },
            Some(SegmentKind::LinearRateSegment(s)) => {
                let duration = match s.duration {
                    Some(d) => d.to_span()?,
                    None => {
                        return Err(ConvertError::LinearWithoutDuration);
                    },
                };
                Ok(
                    rate_plan::RateSegment::Linear {
                        rate_start: s.rate_start,
                        rate_end: s.rate_end,
                        duration,
                    },
                )
            },
        }
    }
}

impl Action {
    /// The wire form of an action; a WASM action has none.
    pub fn from_action(value: rate_plan::Action) -> (r: Result<Action, ConvertError>)
        requires
            !(value is Wasm),
        ensures
            r matches Ok(w) && action_sent(value, w),
    {
        match value {
            rate_plan::Action::Http { method, headers, payload, target } => Ok(Action {
                action: Some(
                    ActionKind::HttpAction(
                        HttpAction {
                            method: http_method_code(method),
                            headers,
                            payload,
                            target: target.to_text(),
                        },
                    ),
                ),
            }),
            rate_plan::Action::Udp { payload, target } => Ok(Action {
                action: Some(ActionKind::UdpAction(UdpAction { payload, target: target.to_text() })),
            }),
            rate_plan::Action::Exec { command, args, env } => Ok(Action {
                action: Some(ActionKind::ExecAction(ExecAction { command, args, env })),
            }),
            rate_plan::Action::Wasm {} => {
                assert(false);
                Err(ConvertError::MissingAction)
            },
        }
    }

    /// The action this wire action stands for.
    pub fn to_action(self) -> (r: Result<rate_plan::Action, ConvertError>)
        ensures
            r is Ok <==> action_error(self) is None,
            r matches Ok(a) ==> action_received(self, a),
            r matches Err(e) ==> action_error(self) == Some(e),
    {
        match self.action {
            None => Err(ConvertError::MissingAction),
            Some(ActionKind::HttpAction(a)) => {
                let method = http_method_from_code(a.method)?;
                let target = match Target::parse(a.target.as_str()) {
                    Ok(t) => t,
                    Err(_) => {
                        return Err(ConvertError::InvalidTarget);
                    },
                };
                Ok(rate_plan::Action::Http { method, headers: a.headers, payload: a.payload, target })
            },
            Some(ActionKind::UdpAction(a)) => {
                let target = match Target::parse(a.target.as_str()) {
                    Ok(t) => t,
                    Err(_) => {
                        return Err(ConvertError::InvalidTarget);
                    },
                };
                Ok(rate_plan::Action::Udp { payload: a.payload, target })
            },
            Some(ActionKind::ExecAction(a)) => Ok(
                rate_plan::Action::Exec { command: a.command, args: a.args, env: a.env },
            ),
            Some(ActionKind::WasmAction(_)) => Ok(rate_plan::Action::Wasm {}),
        }
    }
}

impl Plan {
    /// The wire form of a plan. A plan with a WASM action has none; the
    /// conversion stops at the first segment too long for the wire, before
    /// it reaches the actions.
    pub fn from_plan(value: rate_plan::Plan) -> (r: Result<Plan, ConvertError>)
        requires
            segments_fit_wire(value.segments@) ==> forall|j: int|
                0 <= j < value.actions@.len() ==> !(#[trigger] value.actions@[j] is Wasm),
        ensures
            r is Ok <==> segments_fit_wire(value.segments@),
            r matches Ok(w) ==> plan_sent(value, w),
            r matches Err(e) ==> e == ConvertError::DurationOutOfRange,
    {
        let ghost orig = value;
        let rate_plan::Plan { segments: plan_segments, actions: plan_actions } = value;
        let mut segments: Vec<RateSegment> = Vec::new();
        for s in it: plan_segments
            invariant
                orig == value,
                it.seq() == orig.segments@,
                segments@.len() == it.index(),
                forall|j: int|
                    0 <= j < it.index() ==> rate_segment_fits(orig.segments@[j]) && #[trigger] segments@[j]
                        == rate_segment_wire(orig.segments@[j]),
                forall|j: int| 0 <= j < it.index() ==> rate_segment_fits(#[trigger] orig.segments@[j]),
        {
            let ghost k = it.index();
            assert(s == orig.segments@[k as int]);
            match RateSegment::from_segment(s) {
                Ok(w) => segments.push(w),
                Err(e) => {
                    return Err(e);
                },
            }
        }
        assert(segments_fit_wire(orig.segments@));
        let mut actions: Vec<Action> = Vec::new();
        for a in it: plan_actions
            invariant
                orig == value,
                it.seq() == orig.actions@,
                segments_fit_wire(orig.segments@),
                forall|j: int|
                    0 <= j < orig.actions@.len() ==> !(#[trigger] orig.actions@[j] is Wasm),
                actions@.len() == it.index(),
                forall|j: int|
                    0 <= j < it.index() ==> action_sent(orig.actions@[j], #[trigger] actions@[j]),
        {
            let ghost k = it.index();
            assert(a == orig.actions@[k as int]);
            match Action::from_action(a) {
                Ok(w) => actions.push(w),
                Err(e) => {
                    return Err(e);
                },
            }
        }
        Ok(Plan { segments, actions })
    }

    /// The plan this wire plan stands for.
    pub fn to_plan(self) -> (r: Result<rate_plan::Plan, ConvertError>)
        ensures
            r is Ok <==> plan_error(self) is None,
            r matches Ok(p) ==> plan_received(self, p),
            r matches Err(e) ==> plan_error(self) == Some(e),
    {
        let ghost orig = self;
        let Plan { segments: wire_segments, actions: wire_actions } = self;
        let mut segments: Vec<rate_plan::RateSegment> = Vec::new();
        for w in it: wire_segments
            invariant
                orig == self,
                it.seq() == orig.segments@,
                segments@.len() == it.index(),
                first_segment_error(orig.segments@, it.index() as int) is None,
                forall|j: int|
                    0 <= j < it.index() ==> rate_segment_received(
                        orig.segments@[j],
                        #[trigger] segments@[j],
                    ),
        {
            let ghost k = it.index();
            assert(w == orig.segments@[k as int]);
            match w.to_segment() {
                Ok(s) => segments.push(s),
                Err(e) => {
                    assert(first_segment_error(orig.segments@, k + 1) == Some(e));
                    proof {
                        lemma_first_error_stays(
                            orig.segments@,
                            segment_check(),
                            k + 1,
                            orig.segments@.len() as int,
                        );
                    }
                    return Err(e);
                },
            }
        }
        let mut actions: Vec<rate_plan::Action> = Vec::new();
        for w in it: wire_actions
            invariant
                orig == self,
                it.seq() == orig.actions@,
                first_segment_error(orig.segments@, orig.segments@.len() as int) is None,
                actions@.len() == it.index(),
                first_action_error(orig.actions@, it.index() as int) is None,
                forall|j: int|
                    0 <= j < it.index() ==> action_received(orig.actions@[j], #[trigger] actions@[j]),
        {
            let ghost k = it.index();
            assert(w == orig.actions@[k as int]);
            match w.to_action() {
                Ok(a) => actions.push(a),
                Err(e) => {
                    assert(first_action_error(orig.actions@, k + 1) == Some(e));
                    proof {
                        lemma_first_error_stays(
                            orig.actions@,
                            action_check(),
                            k + 1,
                            orig.actions@.len() as int,
                        );
                    }
                    return Err(e);
                },
            }
        }
        Ok(rate_plan::Plan { segments, actions })
    }
}

/// A rate plan sent over the wire comes back as the same plan: the wire form
/// of a plan stands for a plan, and every plan it stands for is the one sent
/// (its targets the same URLs).
pub proof fn lemma_plan_round_trip(p: rate_plan::Plan, w: Plan, q: rate_plan::Plan)
    requires
        plan_sent(p, w),
    ensures
        plan_error(w) is None,
        plan_received(w, q) ==> same_plan(p, q),
{
    assert forall|i: int| 0 <= i < w.segments@.len() implies (#[trigger] rate_segment_error(
        w.segments@[i],
    )) is None by {
        assert(rate_segment_fits(p.segments@[i]));
        match p.segments@[i] {
            rate_plan::RateSegment::Fixed { duration, .. } => {
                if let Some(d) = duration {
                    lemma_span_round_trip(d);
                }
            },
            rate_plan::RateSegment::Linear { duration, .. } => {
                lemma_span_round_trip(duration);
            },
        }
    }
    lemma_first_error_none(w.segments@, segment_check(), w.segments@.len() as int);
    assert forall|i: int| 0 <= i < w.actions@.len() implies (#[trigger] action_error(
        w.actions@[i],
    )) is None by {
        assert(action_sent(p.actions@[i], w.actions@[i]));
    }
    lemma_first_error_none(w.actions@, action_check(), w.actions@.len() as int);
    if plan_received(w, q) {
        assert forall|i: int| 0 <= i < p.segments@.len() implies p.segments@[i] == q.segments@[i] by {
            assert(rate_segment_fits(p.segments@[i]));
            assert(w.segments@[i] == rate_segment_wire(p.segments@[i]));
            assert(rate_segment_received(w.segments@[i], q.segments@[i]));
            match (p.segments@[i], q.segments@[i]) {
                (
                    rate_plan::RateSegment::Fixed { duration: d1, .. },
                    rate_plan::RateSegment::Fixed { duration: d2, .. },
                ) => {
                    if let (Some(a), Some(b)) = (d1, d2) {
                        lemma_span_round_trip(a);
                        Span::lemma_view_determines(a, b);
                    }
                },
                (
                    rate_plan::RateSegment::Linear { duration: a, .. },
                    rate_plan::RateSegment::Linear { duration: b, .. },
                ) => {
                    lemma_span_round_trip(a);
                    Span::lemma_view_determines(a, b);
                },
                _ => {},
            }
        }
        assert(p.segments@ =~= q.segments@);
        assert forall|i: int| 0 <= i < p.actions@.len() implies same_action(
            p.actions@[i],
            #[trigger] q.actions@[i],
        ) by {
            assert(action_sent(p.actions@[i], w.actions@[i]));
            assert(action_received(w.actions@[i], q.actions@[i]));
        }
    }
}

impl MetronRequest {
    /// The plan that the request asks to run.
    pub fn into_plan(self) -> (r: Result<rate_plan::Plan, RequestError>)
        ensures
            self.plan is None ==> r == Err::<rate_plan::Plan, RequestError>(
                RequestError::MissingPlan,
            ),
            self.plan matches Some(w) ==> match plan_error(w) {
                Some(e) => r == Err::<rate_plan::Plan, RequestError>(RequestError::InvalidPlan(e)),
                None => r matches Ok(p) && plan_received(w, p),
            },
    {
        match self.plan {
            None => Err(RequestError::MissingPlan),
            Some(w) => match w.to_plan() {
                Ok(p) => Ok(p),
                Err(e) => Err(RequestError::InvalidPlan(e)),
            },
        }
    }
}

impl AgentRequest {
    /// The response to the request: the number of segments of its plan.
    pub fn respond(&self) -> (r: Result<AgentResponse, RequestError>)
        ensures
            self.plan is None ==> r == Err::<AgentResponse, RequestError>(
                RequestError::MissingPlan,
            ),
            self.plan matches Some(w) ==> r == Ok::<AgentResponse, RequestError>(
                AgentResponse { num_segments: w.segments@.len() as u64 },
            ),
    {
        match &self.plan {
            None => Err(RequestError::MissingPlan),
            Some(w) => Ok(AgentResponse { num_segments: w.segments.len() as u64 }),
        }
    }
}

} // verus!
