use metron::agent::{AgentServer, Proxy as AgentProxy};
use metron::control::{
    all_runners_failed, readiness, run_outcome, Change, Controller, ControllerError, Proxy, Readiness, RunnerPoll,
    RunnerRegistry,
};
use metron::duration::{Duration, Instant};
use metron::grpc::{AgentServer as StreamServer, GrpcServer, GrpcServerAgent, MetronServer};
use metron::target::Target;

#[test]
fn readiness_rules() {
    assert_eq!(readiness(&vec![RunnerPoll::Pending, RunnerPoll::Ready], 3), Readiness::Ready);
    assert_eq!(readiness(&vec![RunnerPoll::Failed, RunnerPoll::Failed], 2), Readiness::AllFailed);
    assert_eq!(readiness(&vec![RunnerPoll::Failed, RunnerPoll::Pending], 2), Readiness::Pending);
    assert_eq!(readiness(&vec![], 0), Readiness::AllFailed);
}

#[test]
fn controller_gives_the_plan_to_every_runner() {
    let c = Controller::new(vec![3, 4]);
    assert_eq!(*c.plan_recipients().unwrap(), vec![3, 4]);
    let empty: Controller<u8> = Controller::new(vec![]);
    match empty.plan_recipients() {
        Err(ControllerError::Unexpected(m)) => assert_eq!(m, "at least one runner is required"),
        Ok(_) => panic!("expected an error"),
    }
    match all_runners_failed() {
        ControllerError::Unexpected(m) => assert_eq!(m, "all runners have terminally failed"),
    }
}

#[test]
fn run_succeeds_only_where_every_runner_does() {
    assert!(run_outcome(&vec![Ok(()), Ok(())]).is_ok());
    assert!(run_outcome(&vec![]).is_ok());
    match run_outcome(&vec![Ok(()), Err("b failed".to_owned()), Err("c failed".to_owned())]) {
        Err(ControllerError::Unexpected(m)) => assert_eq!(m, "b failed"),
        Ok(()) => panic!("expected an error"),
    }
}

#[test]
fn registry_announces_latest_first() {
    let a = Target::parse("http://a").unwrap();
    let b = Target::parse("http://b").unwrap();
    let mut r = RunnerRegistry::new(vec![(a.clone(), 1)]);
    r.register(b.clone(), 2);
    match r.next_change() {
        Some(Change::Insert(t, s)) => {
            assert_eq!(t, b);
            assert_eq!(s, 2);
        }
        None => panic!("expected a change"),
    }
    match r.next_change() {
        Some(Change::Insert(t, s)) => {
            assert_eq!(t, a);
            assert_eq!(s, 1);
        }
        None => panic!("expected a change"),
    }
    assert!(r.next_change().is_none());
}

#[test]
fn servers_keep_their_ports() {
    assert_eq!(GrpcServer::new(8080).get_port(), 8080);
    assert_eq!(StreamServer::new((), 1).get_port(), 1);
    assert_eq!(MetronServer::new("inner", 2).get_port(), 2);
    assert_eq!(*MetronServer::new("inner", 2).get_inner(), "inner");
    assert_eq!(GrpcServerAgent::new((), 3).get_port(), 3);
    let s = AgentServer::new(5u8, 4);
    assert_eq!(s.get_port(), 4);
    assert_eq!(*s.get_agent(), 5);
    let _ = Proxy::new(());
    let _ = AgentProxy::new("proxy".to_owned(), ());
}

#[test]
fn durations_and_instants() {
    let d = Duration::new(1, 1_500_000_000);
    assert_eq!(d.as_secs(), 2);
    assert_eq!(d.subsec_nanos(), 500_000_000);
    assert_eq!(d.as_nanos(), 2_500_000_000);
    assert_eq!(Duration::from_secs(1).checked_sub(Duration::from_secs(2)), None);
    assert_eq!(Duration::from_secs(1).saturating_sub(Duration::from_secs(2)), Duration::zero());
    assert_eq!(Duration::from_secs(u64::MAX).checked_add(Duration::from_secs(1)), None);
    assert_eq!(Duration::from_nanos(5).min(Duration::from_nanos(3)), Duration::from_nanos(3));
    let t = Instant::from_origin(Duration::from_secs(5));
    assert_eq!(t.add(Duration::from_secs(1)).duration_since(&t), Duration::from_secs(1));
    assert_eq!(t.duration_since(&t.add(Duration::from_secs(1))), Duration::zero());
}

#[test]
fn targets_parse_and_serialize() {
    let t = Target::parse("HTTPS://Example.COM:443/x").unwrap();
    assert_eq!(t.as_str(), "https://example.com/x");
    assert_eq!(t.scheme(), "https");
    assert!(t.has_scheme("https"));
    assert!(!t.has_scheme("http"));
    assert_eq!(Target::parse(t.as_str()).unwrap(), t);
    assert!(Target::parse("no scheme").is_err());
}
