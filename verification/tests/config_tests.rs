use std::collections::HashMap;

use metron::agent::{RunnerAction, RunnerEvent, RunnerState, SignallerKind};
use metron::config::{
    first_static_endpoint, server_port, static_endpoints, worker_thread_count, KubePodAgentDiscovery, LogFormat,
    LogLevel, LoggingConfig, RemoteAgentDiscovery, RuntimeConfig, StaticAgentDiscovery, TelemetryConfig,
    DEFAULT_AGENT_PORT,
};
use metron::duration::Duration;
use metron::runtime::Config as RuntimeKind;

fn fixed(endpoints: &[&str]) -> RemoteAgentDiscovery {
    RemoteAgentDiscovery::Static(StaticAgentDiscovery { endpoints: endpoints.iter().map(|s| s.to_string()).collect() })
}

fn kube() -> RemoteAgentDiscovery {
    RemoteAgentDiscovery::KubePod(KubePodAgentDiscovery {
        match_labels: HashMap::new(),
        port: 1,
        refresh: Duration::from_secs(1),
    })
}

#[test]
fn defaults() {
    assert_eq!(LogLevel::default(), LogLevel::Error);
    assert_eq!(LogFormat::default(), LogFormat::Bunyan);
    assert_eq!(LoggingConfig::default(), LoggingConfig { level: LogLevel::Error, format: LogFormat::Bunyan });
    assert_eq!(SignallerKind::default(), SignallerKind::Dedicated);
    let t = TelemetryConfig::default();
    assert!(t.prometheus.is_none() && t.open_telemetry.is_none());
    let r = RuntimeConfig::default();
    assert_eq!(r.signaller, SignallerKind::Dedicated);
    assert!(r.worker_threads >= 1);
}

#[test]
fn runtime_kinds() {
    assert!(RuntimeKind::SingleThreaded.is_single_threaded());
    assert!(!RuntimeKind::MultiThreaded { worker_threads: 3 }.is_single_threaded());
    match RuntimeKind::default() {
        RuntimeKind::MultiThreaded { worker_threads } => assert!(worker_threads >= 1),
        RuntimeKind::SingleThreaded => panic!("expected a multi-threaded runtime"),
    }
}

#[test]
fn static_endpoints_in_order() {
    let agents = vec![fixed(&["a", "b"]), kube(), fixed(&[]), fixed(&["c"])];
    assert_eq!(static_endpoints(&agents), vec!["a", "b", "c"]);
    assert!(static_endpoints(&vec![]).is_empty());
}

#[test]
fn first_endpoint_of_first_discovery() {
    assert_eq!(first_static_endpoint(&vec![fixed(&["x", "y"]), fixed(&["z"])]), Some("x".to_owned()));
    assert_eq!(first_static_endpoint(&vec![kube(), fixed(&["z"])]), None);
    assert_eq!(first_static_endpoint(&vec![fixed(&[]), fixed(&["z"])]), None);
    assert_eq!(first_static_endpoint(&vec![]), None);
}

#[test]
fn ports_and_threads() {
    assert_eq!(server_port(None), DEFAULT_AGENT_PORT);
    assert_eq!(server_port(Some(7)), 7);
    assert_eq!(worker_thread_count(Some(3)), 3);
    assert!(worker_thread_count(None) >= 1);
}

#[test]
fn runner_runs_one_plan_at_a_time() {
    let idle = RunnerState::idle();
    let (running, action) = idle.step(RunnerEvent::Exec);
    assert_eq!(action, RunnerAction::Start);
    assert!(running.running);
    let (still, action) = running.step(RunnerEvent::Exec);
    assert_eq!(action, RunnerAction::CancelAndStart);
    let (stopped, action) = still.step(RunnerEvent::Stop);
    assert_eq!(action, RunnerAction::CancelAndWait);
    assert_eq!(stopped.step(RunnerEvent::Stop), (RunnerState { running: false }, RunnerAction::Nothing));
}
