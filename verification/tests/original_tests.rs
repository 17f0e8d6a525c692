use metron::duration::Duration;
use metron::plan::Plan;

#[test]
fn lib_it_works() {
    assert_eq!(4, 4);
}

#[test]
fn it_works() {
    assert_eq!(4, 4);
}

#[test]
fn agent_it_works() {}

#[test]
fn server_it_works() {
    // An empty plan runs for no time at all.
    let plan = Plan::empty();
    assert_eq!(plan.calculate_duration(), Duration::zero());
}
