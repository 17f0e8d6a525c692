//! Telemetry and deployment configuration of drivers, runners and controllers.

use vstd::prelude::*;

use crate::config::{LogLevel, RuntimeConfig};
use crate::target::Target;

verus! {

/// How to log; the format is named freely.
#[derive(Clone, Debug)]
pub struct LoggingConfig {
    pub level: LogLevel,
    pub format: String,
}

/// A telemetry backend.
#[derive(Clone, Debug)]
pub struct TelemetryBackendConfig {
    pub endpoint: Target,
}

/// An OpenTelemetry backend.
#[derive(Clone, Debug)]
pub struct OtelBackendConfig {
    pub endpoint: Target,
}

/// Where telemetry goes.
#[derive(Clone, Debug)]
pub struct TelemetryConfig {
    pub otel_backend: Option<OtelBackendConfig>,
    pub logging: LoggingConfig,
}

/// Runners found at fixed addresses.
#[derive(Clone, Debug)]
pub struct RunnerDiscovery {
    pub static_runners: Vec<Target>,
}

/// A driver: the plan, telemetry, and either external runners or a local
/// runtime.
#[derive(Clone, Debug)]
pub struct DriverConfig {
    pub plan: crate::rate_plan::Plan,
    pub telemetry: TelemetryConfig,
    pub external_runners: Option<RunnerDiscovery>,
    pub runtime: Option<RuntimeConfig>,
}

/// A runner server.
#[derive(Clone, Debug)]
pub struct MetronRunnerConfig {
    pub server_port: u16,
    pub telemetry: TelemetryConfig,
    pub runtime: RuntimeConfig,
}

/// A controller server over external runners.
#[derive(Clone, Debug)]
pub struct MetronControllerConfig {
    pub server_port: u16,
    pub external_runners: RunnerDiscovery,
}

} // verus!
