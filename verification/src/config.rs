//! Configuration: of local and remote tests, of agents and proxies, of
//! logging and of the runtime; and the rules that pick agents and ports from it.

use std::collections::HashMap;

use vstd::prelude::*;

use crate::duration::Duration;
use crate::target::Target;

pub use crate::agent::SignallerKind;

verus! {

/// The port an agent server listens on when none is configured.
pub const DEFAULT_AGENT_PORT: u16 = 9090;

/// Logging levels.
#[derive(Clone, Copy, Debug, PartialEq, Eq, Structural)]
pub enum LogLevel {
    Off,
    Info,
    Debug,
    Warn,
    Error,
}

impl Default for LogLevel {
    fn default() -> (l: LogLevel)
        ensures
            l == LogLevel::Error,
    {
        LogLevel::Error
    }
}

/// Logging formats.
#[derive(Clone, Copy, Debug, PartialEq, Eq, Structural)]
pub enum LogFormat {
    Bunyan,
    Json,
}

impl Default for LogFormat {
    fn default() -> (f: LogFormat)
        ensures
            f == LogFormat::Bunyan,
    {
        LogFormat::Bunyan
    }
}

/// How to log.
#[derive(Clone, Copy, Debug, PartialEq, Eq, Structural)]
pub struct LoggingConfig {
    pub level: LogLevel,
    pub format: LogFormat,
}

impl Default for LoggingConfig {
    fn default() -> (c: LoggingConfig)
        ensures
            c.level == LogLevel::Error,
            c.format == LogFormat::Bunyan,
    {
        LoggingConfig { level: LogLevel::default(), format: LogFormat::default() }
    }
}

/// Where results go: an OpenTelemetry collector.
#[derive(Clone, Debug)]
pub enum Sink {
    Otel(OtelSink),
}

/// An OpenTelemetry collector, and how often and how patiently to export to it.
#[derive(Clone, Debug)]
pub struct OtelSink {
    pub address: Target,
    pub period: Duration,
    pub timeout: Duration,
}

/// Agents found at fixed endpoints.
#[derive(Clone, Debug)]
pub struct StaticAgentDiscovery {
    pub endpoints: Vec<String>,
}

/// Agents found as Kubernetes pods with matching labels.
#[derive(Clone, Debug)]
pub struct KubePodAgentDiscovery {
    pub match_labels: HashMap<String, String>,
    pub port: u16,
    pub refresh: Duration,
}

/// How remote agents are found.
#[derive(Clone, Debug)]
pub enum RemoteAgentDiscovery {
    Static(StaticAgentDiscovery),
    KubePod(KubePodAgentDiscovery),
}

/// A test run on a local runner.
#[derive(Clone, Debug)]
pub struct LocalTestConfig {
    pub plan: crate::plan::Plan,
    pub signaller: Option<SignallerKind>,
    pub worker_threads: Option<usize>,
    pub logging: Option<LoggingConfig>,
    pub sinks: Vec<Sink>,
}

/// A test run on remote agents.
#[derive(Clone, Debug)]
pub struct RemoteTestConfig {
    pub plan: crate::plan::Plan,
    pub agents: Vec<RemoteAgentDiscovery>,
}

/// An agent server.
#[derive(Clone, Debug)]
pub struct AgentConfig {
    pub name: Option<String>,
    pub port: Option<u16>,
    pub signaller: Option<SignallerKind>,
    pub worker_threads: Option<usize>,
    pub logging: Option<LoggingConfig>,
    pub sinks: Vec<Sink>,
}

/// Stopping the test that remote agents run.
#[derive(Clone, Debug)]
pub struct CancelConfig {
    pub agents: Vec<RemoteAgentDiscovery>,
}

/// Asking remote agents for a report.
#[derive(Clone, Debug)]
pub struct ReportConfig {
    pub agents: Vec<RemoteAgentDiscovery>,
}

/// A proxy server in front of remote agents.
#[derive(Clone, Debug)]
pub struct ProxyConfig {
    pub name: Option<String>,
    pub port: Option<u16>,
    pub agents: Vec<RemoteAgentDiscovery>,
}

/// A local runner.
#[derive(Clone, Debug)]
pub struct RunnerConfig {
    pub name: String,
    pub signaller: SignallerKind,
    pub worker_threads: usize,
}

/// A Prometheus endpoint.
#[derive(Clone, Debug)]
pub struct PrometheusConfig {
    pub port: u16,
    pub path: String,
}

/// An OpenTelemetry endpoint.
#[derive(Clone, Debug)]
pub struct OpenTelemetryConfig {
    pub address: Target,
}

/// Where telemetry goes.
#[derive(Clone, Debug)]
pub struct TelemetryConfig {
    pub logging: LoggingConfig,
    pub prometheus: Option<PrometheusConfig>,
    pub open_telemetry: Option<OpenTelemetryConfig>,
}

impl Default for TelemetryConfig {
    fn default() -> (c: TelemetryConfig)
        ensures
            c.logging.level == LogLevel::Error,
            c.logging.format == LogFormat::Bunyan,
            c.prometheus is None,
            c.open_telemetry is None,
    {
        TelemetryConfig { logging: LoggingConfig::default(), prometheus: None, open_telemetry: None }
    }
}

/// A named test and its plan.
#[derive(Clone, Debug)]
pub struct TestConfig {
    pub name: String,
    pub plan: crate::rate_plan::Plan,
}

/// Where a runner is found.
#[derive(Clone, Debug)]
pub enum RunnerRef {
    Static { address: Target },
    Kubernetes { namespace: String, selector: HashMap<String, String>, port: u16 },
}

/// A run of tests: the local runner, the remote ones, telemetry, and the tests.
#[derive(Clone, Debug)]
pub struct RunConfig {
    pub port: Option<u16>,
    pub local_runner: Option<RunnerConfig>,
    pub remote_runners: Vec<RunnerRef>,
    pub telemetry: TelemetryConfig,
    pub tests: Vec<TestConfig>,
}

/// The machine's logical CPUs, as `num_cpus::get` counts them.
///
/// Claim, as the `num_cpus` documentation promises: at least one. The count
/// depends on the machine, so nothing else is claimed.
#[verifier::external_body]
pub(crate) fn cpu_count() -> (n: usize)
    ensures
        n >= 1,
{
    num_cpus::get()
}

/// The runtime a runner gets.
#[derive(Clone, Copy, Debug, PartialEq, Eq, Structural)]
pub struct RuntimeConfig {
    pub signaller: SignallerKind,
    pub worker_threads: usize,
}

impl Default for RuntimeConfig {
    /// A dedicated signaller and one worker thread per logical CPU.
    fn default() -> (c: RuntimeConfig)
        ensures
            c.signaller == SignallerKind::Dedicated,
            c.worker_threads >= 1,
    {
        RuntimeConfig { signaller: SignallerKind::Dedicated, worker_threads: cpu_count() }
    }
}

/// The endpoints of all statically configured agents, in order.
pub open spec fn static_endpoints_of(agents: Seq<RemoteAgentDiscovery>) -> Seq<String>
    decreases agents.len(),
{
    if agents.len() == 0 {
        Seq::empty()
    } else {
        static_endpoints_of(agents.drop_last()) + match agents.last() {
            RemoteAgentDiscovery::Static(d) => d.endpoints@,
            RemoteAgentDiscovery::KubePod(_) => Seq::empty(),
        }
    }
}

/// The endpoints of all statically configured agents, in the order they are
/// configured; agents found otherwise are left out.
pub fn static_endpoints(agents: &Vec<RemoteAgentDiscovery>) -> (r: Vec<String>)
    ensures
        r@ == static_endpoints_of(agents@),
{
    let mut r: Vec<String> = Vec::new();
    let mut i: usize = 0;
    while i < agents.len()
        invariant
            i <= agents@.len(),
            r@ == static_endpoints_of(agents@.take(i as int)),
        decreases agents@.len() - i,
    {
        assert(agents@.take(i + 1).drop_last() =~= agents@.take(i as int));
        match &agents[i] {
            RemoteAgentDiscovery::Static(d) => {
                let ghost before = r@;
                let mut j: usize = 0;
                while j < d.endpoints.len()
                    invariant
                        j <= d.endpoints@.len(),
                        r@ == before + d.endpoints@.take(j as int),
                    decreases d.endpoints@.len() - j,
                {
                    r.push(d.endpoints[j].clone());
                    assert(d.endpoints@.take(j + 1) =~= d.endpoints@.take(j as int).push(
                        d.endpoints@[j as int],
                    ));
                    j = j + 1;
                }
                assert(d.endpoints@.take(j as int) =~= d.endpoints@);
            },
            RemoteAgentDiscovery::KubePod(_) => {
                assert(r@ =~= r@ + Seq::<String>::empty());
            },
        }
        i = i + 1;
    }
    assert(agents@.take(i as int) =~= agents@);
    r
}

/// The endpoint of the single agent that a remote test talks to: the first
/// endpoint of the first discovery, where that discovery is static and has one.
pub fn first_static_endpoint(agents: &Vec<RemoteAgentDiscovery>) -> (r: Option<String>)
    ensures
        r == (if agents@.len() > 0 && agents@[0] is Static && agents@[0]->Static_0.endpoints@.len()
            > 0 {
            Some(agents@[0]->Static_0.endpoints@[0])
        } else {
            None::<String>
        }),
{
    if agents.len() == 0 {
        return None;
    }
    match &agents[0] {
        RemoteAgentDiscovery::Static(d) => {
            if d.endpoints.len() > 0 {
                Some(d.endpoints[0].clone())
            } else {
                None
            }
        },
        RemoteAgentDiscovery::KubePod(_) => None,
    }
}

/// The port an agent or proxy server listens on: the configured one, else
/// [`DEFAULT_AGENT_PORT`].
pub fn server_port(port: Option<u16>) -> (p: u16)
    ensures
        p == match port {
            Some(p) => p,
            None => DEFAULT_AGENT_PORT,
        },
{
    match port {
        Some(p) => p,
        None => DEFAULT_AGENT_PORT,
    }
}

/// The worker threads a runtime gets: the configured number, else one per
/// logical CPU.
pub fn worker_thread_count(configured: Option<usize>) -> (n: usize)
    ensures
        configured matches Some(c) ==> n == c,
        configured is None ==> n >= 1,
{
    match configured {
        Some(c) => c,
        None => cpu_count(),
    }
}

} // verus!
