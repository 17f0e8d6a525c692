use std::collections::HashMap;

use metron::agent::ReportKind as Kind;
use metron::duration::Duration;
use metron::plan::{Action, HttpMethod, Plan, Rate, Segment};
use metron::proto::{self, ConvertError, ExecRequest, ReportKind, ReportRequest, RequestError};
use metron::target::Target;

fn sample_plan() -> Plan {
    let mut headers = HashMap::new();
    headers.insert("accept".to_owned(), "*/*".to_owned());
    let mut env = HashMap::new();
    env.insert("A".to_owned(), "1".to_owned());
    Plan {
        name: "smoke".to_owned(),
        segments: vec![Segment {
            name: "ramp".to_owned(),
            rate_start: Rate::from_bits(10f32.to_bits()),
            rate_end: Rate::from_bits(20f32.to_bits()),
            duration: Duration::new(90, 5),
        }],
        actions: vec![
            Action::Http {
                name: "get".to_owned(),
                target: Target::parse("https://example.com/a?b=c").unwrap(),
                method: HttpMethod::Put,
                headers,
                payload: vec![1, 2, 3],
            },
            Action::Udp { name: "udp".to_owned(), target: Target::parse("udp://h:9").unwrap(), payload: vec![9] },
            Action::Exec { name: "run".to_owned(), command: "ls".to_owned(), args: vec!["-l".to_owned()], env },
        ],
    }
}

#[test]
fn durations_cross_the_wire() {
    let w = proto::Duration::from_span(Duration::new(3, 400)).unwrap();
    assert_eq!(w, proto::Duration { seconds: 3, nanos: 400 });
    assert_eq!(w.to_span().unwrap(), Duration::new(3, 400));
    // A span longer than i64::MAX seconds does not fit.
    let huge = Duration::from_secs(u64::MAX);
    assert_eq!(proto::Duration::from_span(huge), Err(ConvertError::DurationOutOfRange));
    // Negative wire durations stand for no span.
    assert_eq!(proto::Duration { seconds: -1, nanos: 0 }.to_span(), Err(ConvertError::NegativeDuration));
    // Out-of-range nanoseconds are normalized.
    assert_eq!(proto::Duration { seconds: 1, nanos: 1_500_000_000 }.to_span().unwrap(), Duration::new(2, 500_000_000));
    assert_eq!(proto::Duration { seconds: -1, nanos: 1_500_000_000 }.to_span().unwrap(), Duration::new(0, 500_000_000));
    assert_eq!(proto::Duration { seconds: 0, nanos: -1 }.to_span(), Err(ConvertError::NegativeDuration));
    // Seconds that overflow when the nanoseconds are carried saturate.
    assert_eq!(
        proto::Duration { seconds: i64::MAX, nanos: 2_000_000_000 }.to_span().unwrap(),
        Duration::new(i64::MAX as u64, 999_999_999)
    );
}

#[test]
fn most_negative_wire_durations_are_refused() {
    assert_eq!(proto::Duration { seconds: i64::MIN, nanos: 0 }.to_span(), Err(ConvertError::NegativeDuration));
    assert_eq!(
        proto::Duration { seconds: i64::MIN + 1, nanos: -1_000_000_000 }.to_span(),
        Err(ConvertError::NegativeDuration)
    );
    assert_eq!(
        proto::Duration { seconds: i64::MIN + 3, nanos: i32::MIN }.to_span(),
        Err(ConvertError::NegativeDuration)
    );
}

#[test]
fn plan_round_trip() {
    let w = proto::Plan::from_plan(sample_plan()).unwrap();
    assert_eq!(w.name, "smoke");
    assert_eq!(w.segments[0].duration, Some(proto::Duration { seconds: 90, nanos: 5 }));
    match &w.actions[0].action {
        Some(proto::ActionKind::HttpAction(h)) => {
            assert_eq!(h.method, 2);
            assert_eq!(h.target, "https://example.com/a?b=c");
        }
        _ => panic!("expected an HTTP action"),
    }
    let back = w.to_plan().unwrap();
    let orig = sample_plan();
    assert_eq!(back.name, orig.name);
    assert_eq!(back.segments.len(), 1);
    assert_eq!(back.segments[0].duration, orig.segments[0].duration);
    assert_eq!(back.segments[0].name, "ramp");
    match (&back.actions[0], &orig.actions[0]) {
        (
            Action::Http { target: t1, method: m1, headers: h1, payload: p1, .. },
            Action::Http { target: t2, method: m2, headers: h2, payload: p2, .. },
        ) => {
            assert_eq!(t1, t2);
            assert_eq!(m1, m2);
            assert_eq!(h1, h2);
            assert_eq!(p1, p2);
        }
        _ => panic!("expected HTTP actions"),
    }
}

#[test]
fn wire_errors() {
    let mut w = proto::Plan::from_plan(sample_plan()).unwrap();
    w.segments[0].duration = None;
    assert_eq!(w.clone().to_plan().unwrap_err(), ConvertError::MissingDuration);
    let mut w = proto::Plan::from_plan(sample_plan()).unwrap();
    w.actions[1].action = None;
    assert_eq!(w.to_plan().unwrap_err(), ConvertError::MissingAction);
    let mut w = proto::Plan::from_plan(sample_plan()).unwrap();
    if let Some(proto::ActionKind::HttpAction(h)) = &mut w.actions[0].action {
        h.method = 42;
    }
    assert_eq!(w.to_plan().unwrap_err(), ConvertError::InvalidHttpMethod);
    let mut w = proto::Plan::from_plan(sample_plan()).unwrap();
    if let Some(proto::ActionKind::UdpAction(u)) = &mut w.actions[1].action {
        u.target = "not a url".to_owned();
    }
    assert_eq!(w.to_plan().unwrap_err(), ConvertError::InvalidTarget);
    assert_eq!(ConvertError::MissingAction.message(), "missing action");
}

#[test]
fn segment_errors_come_before_action_errors() {
    let mut w = proto::Plan::from_plan(sample_plan()).unwrap();
    w.actions[0].action = None;
    w.segments[0].duration = Some(proto::Duration { seconds: -5, nanos: 0 });
    assert_eq!(w.to_plan().unwrap_err(), ConvertError::NegativeDuration);
}

#[test]
fn method_codes() {
    assert_eq!(proto::http_method_code(HttpMethod::Get), 0);
    assert_eq!(proto::http_method_code(HttpMethod::Connect), 8);
    assert_eq!(proto::http_method_from_code(5), Ok(HttpMethod::Head));
    assert_eq!(proto::http_method_from_code(-1), Err(ConvertError::InvalidHttpMethod));
}

#[test]
fn report_kinds() {
    assert_eq!(ReportKind::from_kind(Kind::ErrorLatency), ReportKind::ErrorLatency);
    assert_eq!(ReportKind::ResponseLatency.to_kind(), Kind::ResponseLatency);
    assert_eq!(ReportKind::ErrorLatency.code(), 2);
    assert_eq!(ReportRequest::for_kind(Kind::DelayLatency).report_kind, 0);
}

#[test]
fn exec_requests() {
    let req = ExecRequest::for_plan(sample_plan()).unwrap();
    let plan = req.into_plan().unwrap();
    assert_eq!(plan.name, "smoke");
    assert_eq!(ExecRequest { plan: None }.into_plan().unwrap_err(), RequestError::MissingPlan);
    let mut w = proto::Plan::from_plan(sample_plan()).unwrap();
    w.actions[2].action = None;
    assert_eq!(
        ExecRequest { plan: Some(w) }.into_plan().unwrap_err(),
        RequestError::InvalidPlan(ConvertError::MissingAction)
    );
}
