use metron::duration::{Duration, Instant};
use metron::plan::Rate;
use metron::rate_plan::{Plan, RateSegment};

fn rate(r: f32) -> Rate {
    Rate::from_bits(r.to_bits())
}

fn fixed(r: f32, millis: Option<u64>) -> RateSegment {
    RateSegment::Fixed { rate: rate(r), duration: millis.map(Duration::from_millis) }
}

fn linear(a: f32, b: f32, millis: u64) -> RateSegment {
    RateSegment::Linear { rate_start: rate(a), rate_end: rate(b), duration: Duration::from_millis(millis) }
}

fn at(millis: u64) -> Instant {
    Instant::from_origin(Duration::from_millis(millis))
}

#[test]
fn finite_plan_has_a_duration() {
    let p = Plan { segments: vec![fixed(10.0, Some(1000)), linear(10.0, 20.0, 500)], actions: vec![] };
    assert_eq!(p.calculate_duration(), Some(Duration::from_millis(1500)));
}

#[test]
fn forever_plan_has_no_duration() {
    let p = Plan { segments: vec![fixed(10.0, Some(1000)), fixed(20.0, None)], actions: vec![] };
    assert_eq!(p.calculate_duration(), None);
}

#[test]
fn segment_duration() {
    assert_eq!(fixed(1.0, None).duration(), None);
    assert_eq!(fixed(1.0, Some(3)).duration(), Some(Duration::from_millis(3)));
    assert_eq!(linear(1.0, 2.0, 7).duration(), Some(Duration::from_millis(7)));
}

#[test]
fn find_segment_with_a_forever_segment() {
    let first = linear(10.0, 20.0, 1000);
    let last = fixed(20.0, None);
    let p = Plan { segments: vec![first, last], actions: vec![] };
    assert_eq!(p.find_segment(Duration::from_millis(10)), Some(&first));
    assert_eq!(p.find_segment(Duration::from_millis(1000)), Some(&last));
    assert_eq!(p.find_segment(Duration::from_secs(1_000_000)), Some(&last));
}

#[test]
fn find_segment_past_the_end() {
    let p = Plan { segments: vec![fixed(10.0, Some(1000))], actions: vec![] };
    assert_eq!(p.find_segment(Duration::from_millis(1000)), None);
}

#[test]
fn forever_plan_ticks_never_end() {
    let p = Plan { segments: vec![fixed(10.0, None)], actions: vec![] };
    let mut t = p.ticks(at(0));
    for i in 0..1000u64 {
        assert_eq!(t.advance(Duration::from_millis(100)), Some(at(i * 100)));
        assert!(t.current_segment().is_some());
    }
}

#[test]
fn finite_plan_ticks_end() {
    let p = Plan { segments: vec![fixed(10.0, Some(200))], actions: vec![] };
    let mut t = p.ticks(at(7));
    assert_eq!(t.advance(Duration::from_millis(100)), Some(at(7)));
    assert_eq!(t.advance(Duration::from_millis(100)), Some(at(107)));
    assert_eq!(t.advance(Duration::from_millis(100)), None);
    assert!(t.current_segment().is_none());
}
