//! Load-testing plans, the schedule of request times they imply, and the
//! rules by which a load test is configured, exchanged and answered.

pub mod duration;
pub mod span;
pub mod target;
pub mod plan;
pub mod rate_plan;
pub mod cli;
pub mod agent;
pub mod proto;
pub mod rate_proto;
pub mod echo;
pub mod config;
pub mod runtime;
pub mod telemetry;
pub mod grpc;
pub mod control;
