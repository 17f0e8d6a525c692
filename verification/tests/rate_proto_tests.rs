use std::collections::HashMap;

use metron::duration::Duration;
use metron::plan::{HttpMethod, Rate};
use metron::proto::{self, ConvertError, RequestError};
use metron::rate_plan::{Action, Plan, RateSegment};
use metron::rate_proto::{self as wire, AgentRequest, AgentResponse, MetronRequest};
use metron::target::Target;

fn rate(r: f32) -> Rate {
    Rate::from_bits(r.to_bits())
}

fn sample() -> Plan {
    Plan {
        segments: vec![
            RateSegment::Fixed { rate: rate(100.0), duration: Some(Duration::from_secs(120)) },
            RateSegment::Linear { rate_start: rate(100.0), rate_end: rate(200.0), duration: Duration::from_secs(60) },
            RateSegment::Fixed { rate: rate(200.0), duration: None },
        ],
        actions: vec![Action::Http {
            method: HttpMethod::Get,
            headers: [("foo".to_owned(), "bar".to_owned())].into_iter().collect::<HashMap<_, _>>(),
            payload: "foobar".to_owned(),
            target: Target::parse("https://foobar.com").unwrap(),
        }],
    }
}

#[test]
fn rate_plan_round_trip() {
    let w = wire::Plan::from_plan(sample()).unwrap();
    assert_eq!(
        w.segments[2],
        wire::RateSegment {
            segment: Some(wire::SegmentKind::FixedRateSegment(wire::FixedRateSegment { rate: rate(200.0), duration: None }))
        }
    );
    let back = w.to_plan().unwrap();
    assert_eq!(back.segments, sample().segments);
    match &back.actions[0] {
        Action::Http { method, headers, payload, target } => {
            assert_eq!(*method, HttpMethod::Get);
            assert_eq!(headers.get("foo").map(String::as_str), Some("bar"));
            assert_eq!(payload, "foobar");
            assert_eq!(target.as_str(), "https://foobar.com/");
        }
        _ => panic!("expected an HTTP action"),
    }
}

#[test]
fn rate_wire_errors() {
    let mut w = wire::Plan::from_plan(sample()).unwrap();
    w.segments[0].segment = None;
    assert_eq!(w.to_plan().unwrap_err(), ConvertError::MissingRateSegment);

    let mut w = wire::Plan::from_plan(sample()).unwrap();
    w.segments[1] = wire::RateSegment {
        segment: Some(wire::SegmentKind::LinearRateSegment(wire::LinearRateSegment {
            rate_start: rate(1.0),
            rate_end: rate(2.0),
            duration: None,
        })),
    };
    let e = w.to_plan().unwrap_err();
    assert_eq!(e, ConvertError::LinearWithoutDuration);
    assert_eq!(e.message(), "linear rate segments must specify a duration");

    let mut w = wire::Plan::from_plan(sample()).unwrap();
    w.segments[0] = wire::RateSegment {
        segment: Some(wire::SegmentKind::FixedRateSegment(wire::FixedRateSegment {
            rate: rate(1.0),
            duration: Some(proto::Duration { seconds: 0, nanos: -5 }),
        })),
    };
    assert_eq!(w.to_plan().unwrap_err(), ConvertError::NegativeDuration);
}

#[test]
fn too_long_segment_does_not_fit() {
    let p = Plan {
        segments: vec![RateSegment::Fixed { rate: rate(1.0), duration: Some(Duration::from_secs(u64::MAX)) }],
        actions: vec![Action::Wasm {}],
    };
    assert_eq!(wire::Plan::from_plan(p).unwrap_err(), ConvertError::DurationOutOfRange);
}

#[test]
fn metron_requests() {
    let w = wire::Plan::from_plan(sample()).unwrap();
    let p = MetronRequest { plan: Some(w) }.into_plan().unwrap();
    assert_eq!(p.segments.len(), 3);
    assert_eq!(MetronRequest { plan: None }.into_plan().unwrap_err(), RequestError::MissingPlan);
}

#[test]
fn agent_requests() {
    let w = wire::Plan::from_plan(sample()).unwrap();
    assert_eq!(AgentRequest { plan: Some(w) }.respond(), Ok(AgentResponse { num_segments: 3 }));
    assert_eq!(AgentRequest { plan: None }.respond(), Err(RequestError::MissingPlan));
}
