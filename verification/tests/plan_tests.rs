use metron::duration::{Duration, Instant};
use metron::plan::{Plan, Rate, Segment};

fn segment(name: &str, millis: u64) -> Segment {
    Segment {
        name: name.to_owned(),
        rate_start: Rate::from_bits(100f32.to_bits()),
        rate_end: Rate::from_bits(200f32.to_bits()),
        duration: Duration::from_millis(millis),
    }
}

fn plan(lengths: &[u64]) -> Plan {
    let mut p = Plan::empty();
    for (i, l) in lengths.iter().enumerate() {
        p.segments.push(segment(&format!("s{i}"), *l));
    }
    p
}

fn at(millis: u64) -> Instant {
    Instant::from_origin(Duration::from_millis(millis))
}

#[test]
fn empty_plan_is_empty() {
    let p = Plan::empty();
    assert!(p.name.is_empty());
    assert!(p.segments.is_empty());
    assert!(p.actions.is_empty());
}

#[test]
fn duration_is_the_sum_of_segments() {
    let p = plan(&[1500, 250, 3000]);
    assert_eq!(p.calculate_duration(), Duration::from_millis(4750));
}

#[test]
fn find_segment_picks_the_segment_progress_falls_into() {
    let p = plan(&[1000, 0, 2000]);
    assert_eq!(p.find_segment(Duration::zero()).unwrap().name, "s0");
    assert_eq!(p.find_segment(Duration::from_millis(999)).unwrap().name, "s0");
    // A segment of no length is skipped.
    assert_eq!(p.find_segment(Duration::from_millis(1000)).unwrap().name, "s2");
    assert_eq!(p.find_segment(Duration::from_millis(2999)).unwrap().name, "s2");
    assert!(p.find_segment(Duration::from_millis(3000)).is_none());
    assert!(p.find_segment(Duration::from_secs(10)).is_none());
}

#[test]
fn find_segment_in_empty_plan_is_none() {
    assert!(Plan::empty().find_segment(Duration::zero()).is_none());
}

#[test]
fn ticks_start_at_the_start_and_stop_before_the_end() {
    let p = plan(&[1000]);
    let mut t = p.ticks(at(5000));
    let step = Duration::from_millis(250);
    assert_eq!(t.progress(), Duration::zero());
    assert_eq!(t.current_segment().unwrap().name, "s0");
    assert_eq!(t.advance(step), Some(at(5000)));
    assert_eq!(t.advance(step), Some(at(5250)));
    assert_eq!(t.advance(step), Some(at(5500)));
    assert_eq!(t.advance(step), Some(at(5750)));
    assert_eq!(t.progress(), Duration::from_millis(750));
    // The next point is at the end of the plan: no more ticks.
    assert_eq!(t.advance(step), None);
    assert!(t.current_segment().is_none());
}

#[test]
fn ticks_of_an_empty_plan_end_at_once() {
    let p = Plan::empty();
    let mut t = p.ticks(at(0));
    assert!(t.current_segment().is_none());
    assert_eq!(t.advance(Duration::from_millis(10)), None);
}

#[test]
fn ticks_follow_the_segments() {
    let p = plan(&[100, 100]);
    let mut t = Plan::ticks(&p, at(0));
    t.advance(Duration::from_millis(60));
    t.advance(Duration::from_millis(60));
    assert_eq!(t.progress(), Duration::from_millis(60));
    assert_eq!(t.current_segment().unwrap().name, "s0");
    t.advance(Duration::from_millis(60));
    assert_eq!(t.current_segment().unwrap().name, "s1");
}
