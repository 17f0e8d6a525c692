use std::collections::HashMap;

use metron::cli::{duration_arg, header_arg, plan_from_args, ArgsError, HttpOnlyArg, InvalidArgsError, RateArg};
use metron::duration::Duration;
use metron::plan::{HttpMethod, Rate};
use metron::rate_plan::{Action, RateSegment};
use metron::target::Target;

fn rate(r: f32) -> Rate {
    Rate::from_bits(r.to_bits())
}

fn target(s: &str) -> Target {
    Target::parse(s).unwrap()
}

fn mins(m: u64) -> Option<Duration> {
    Some(Duration::from_secs(m * 60))
}

#[test]
fn rates_and_durations_make_segments() {
    let rates = vec![RateArg::Linear(rate(100.0), rate(500.0)), RateArg::Fixed(rate(500.0))];
    let durations = vec![mins(5), mins(15)];
    let plan = plan_from_args(&rates, &durations, None, target("https://example.com"), None, HashMap::new(), false, false).unwrap();
    assert_eq!(
        plan.segments,
        vec![
            RateSegment::Linear { rate_start: rate(100.0), rate_end: rate(500.0), duration: Duration::from_secs(300) },
            RateSegment::Fixed { rate: rate(500.0), duration: mins(15) },
        ]
    );
    match &plan.actions[..] {
        [Action::Http { method, headers, payload, target }] => {
            assert_eq!(*method, HttpMethod::Get);
            assert!(headers.is_empty());
            assert_eq!(payload, "");
            assert_eq!(target.as_str(), "https://example.com/");
        }
        _ => panic!("expected one HTTP action"),
    }
}

#[test]
fn payload_without_method_means_post() {
    let rates = vec![RateArg::Fixed(rate(10.0))];
    let durations = vec![Some(Duration::from_secs(5))];
    let plan = plan_from_args(&rates, &durations, Some("hello".to_owned()), target("http://example.com"), None, HashMap::new(), false, false).unwrap();
    match &plan.actions[..] {
        [Action::Http { method, headers, payload, target }] => {
            assert_eq!(*method, HttpMethod::Post);
            assert!(headers.is_empty());
            assert_eq!(payload, "hello");
            assert_eq!(target.as_str(), "http://example.com/");
        }
        _ => panic!("expected one HTTP action"),
    }
}

#[test]
fn last_fixed_segment_may_run_forever() {
    let rates = vec![RateArg::Fixed(rate(100.0)), RateArg::Fixed(rate(200.0))];
    let durations = vec![mins(5), None];
    let plan = plan_from_args(&rates, &durations, Some("hi".to_owned()), target("http://x"), Some(HttpMethod::Post), HashMap::new(), true, false).unwrap();
    assert_eq!(plan.segments[1], RateSegment::Fixed { rate: rate(200.0), duration: None });
    assert_eq!(plan.calculate_duration(), None);
    match &plan.actions[0] {
        Action::Http { method, payload, .. } => {
            assert_eq!(*method, HttpMethod::Post);
            assert_eq!(payload, "hi");
        }
        _ => panic!("expected an HTTP action"),
    }
}

#[test]
fn count_mismatch() {
    let r = plan_from_args(&vec![RateArg::Fixed(rate(1.0))], &vec![], None, target("http://x"), None, HashMap::new(), false, false);
    assert_eq!(r.unwrap_err(), ArgsError::CountMismatch);
    assert_eq!(ArgsError::CountMismatch.message(), "The number of --rate and --duration arguments must match");
}

#[test]
fn forever_not_last() {
    let rates = vec![RateArg::Fixed(rate(1.0)), RateArg::Linear(rate(1.0), rate(2.0))];
    let r = plan_from_args(&rates, &vec![None, None], None, target("http://x"), None, HashMap::new(), false, false);
    assert_eq!(r.unwrap_err(), ArgsError::ForeverNotLast);
    assert_eq!(ArgsError::ForeverNotLast.message(), "Only the last --duration value can be \"forever\"");
}

#[test]
fn linear_forever() {
    let rates = vec![RateArg::Fixed(rate(1.0)), RateArg::Linear(rate(1.0), rate(2.0))];
    let r = plan_from_args(&rates, &vec![mins(1), None], None, target("http://x"), None, HashMap::new(), false, false);
    assert_eq!(r.unwrap_err(), ArgsError::LinearForever);
}

#[test]
fn udp_target_makes_a_datagram() {
    let plan = plan_from_args(&vec![RateArg::Fixed(rate(1.0))], &vec![mins(1)], Some("ping".to_owned()), target("udp://localhost:9000"), None, HashMap::new(), false, false).unwrap();
    match &plan.actions[..] {
        [Action::Udp { payload, target }] => {
            assert_eq!(payload, "ping");
            assert_eq!(target.scheme(), "udp");
        }
        _ => panic!("expected one UDP action"),
    }
}

#[test]
fn udp_target_refuses_http_arguments() {
    let rates = vec![RateArg::Fixed(rate(1.0))];
    let durations = vec![mins(1)];
    let r = plan_from_args(&rates, &durations, None, target("udp://h:1"), Some(HttpMethod::Get), HashMap::new(), true, true);
    assert_eq!(r.unwrap_err(), ArgsError::UdpConflict(HttpOnlyArg::HttpMethod));
    let mut headers = HashMap::new();
    headers.insert("k".to_owned(), "v".to_owned());
    let r = plan_from_args(&rates, &durations, None, target("udp://h:1"), None, headers, false, true);
    let e = r.unwrap_err();
    assert_eq!(e, ArgsError::UdpConflict(HttpOnlyArg::HttpHeader));
    assert_eq!(e.message(), "Argument --http-header is incompatible with target URL scheme \"udp\"");
}

#[test]
fn invalid_args_error_keeps_its_text() {
    let e = InvalidArgsError::new("bad".to_owned());
    assert_eq!(e.message(), "bad");
}

#[test]
fn duration_values_are_spans_or_forever() {
    assert_eq!(duration_arg("forever"), Some(None));
    assert_eq!(duration_arg("5s"), Some(Some(Duration::from_secs(5))));
    assert_eq!(duration_arg("1h 30min"), Some(Some(Duration::from_secs(5400))));
    assert_eq!(duration_arg("250ms"), Some(Some(Duration::from_millis(250))));
    assert_eq!(duration_arg("forevermore"), None);
    assert_eq!(duration_arg("soon"), None);
    assert_eq!(duration_arg("000000000001s"), Some(Some(Duration::from_secs(1))));
    assert_eq!(duration_arg("100000000000s"), Some(Some(Duration::from_secs(100_000_000_000))));
    // A text humantime might panic on is refused.
    assert_eq!(duration_arg("18446744073709551615s 1000000000ns"), None);
}

#[test]
fn header_values_split_at_the_first_colon() {
    assert_eq!(header_arg("Accept: text/html"), Some(("Accept".to_owned(), "text/html".to_owned())));
    assert_eq!(header_arg("x-a:b:c"), Some(("x-a".to_owned(), "b:c".to_owned())));
    assert_eq!(header_arg("\tx-empty :  "), Some(("x-empty".to_owned(), "".to_owned())));
    assert_eq!(header_arg(" : v"), None);
    assert_eq!(header_arg("no colon"), None);
}
