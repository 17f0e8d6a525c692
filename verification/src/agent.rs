//! Agents: what runs a plan, the reports it gives, and the servers and
//! proxies that stand in front of it.

use std::sync::Arc;

use vstd::prelude::*;

use crate::duration::Instant;

verus! {

/// The kinds of latency report an agent gives.
#[derive(Clone, Copy, Debug, PartialEq, Eq, Structural)]
pub enum ReportKind {
    DelayLatency,
    ResponseLatency,
    ErrorLatency,
}

/// The kind of signaller.
///
/// The signaller kind dictates the concurrency model that the signaller uses
/// to produce timing signals.
#[derive(Clone, Copy, Debug, PartialEq, Eq, Structural)]
pub enum SignallerKind {
    /// A `Dedicated` signaller creates a dedicated thread for producing
    /// timing signals. This is the most accurate signaller for interval-
    /// based timing due to the fact that it does not need to cooperate with
    /// the scheduler.
    Dedicated,
    /// A `Cooperative` signaller uses a cooperatively scheduled task to
    /// produce timing signals. This type of signaller is useful in single-
    /// threaded environments or when you want to dedicate your threading
    /// resources elsewhere.
    Cooperative,
}

impl Default for SignallerKind {
    fn default() -> (k: SignallerKind)
        ensures
            k == SignallerKind::Dedicated,
    {
        SignallerKind::Dedicated
    }
}

/// An agent that hands plans on to the agents that `discover` finds.
#[derive(Clone, Debug)]
pub struct Proxy<D> {
    name: String,
    discover: D,
}

impl<D> Proxy<D> {
    /// A proxy named `name` over the agents that `discover` finds.
    pub fn new(name: String, discover: D) -> (p: Proxy<D>)
        ensures
            p.name() == name,
            p.discover() == discover,
    {
        Proxy { name, discover }
    }

    /// The proxy's name.
    pub closed spec fn name(self) -> String {
        self.name
    }

    /// What finds the proxied agents.
    pub closed spec fn discover(self) -> D {
        self.discover
    }
}

/// A server that exposes `agent` on `port`.
#[derive(Debug)]
pub struct AgentServer<T> {
    agent: Arc<T>,
    port: u16,
}

impl<T> AgentServer<T> {
    /// A server for `agent` that listens on `port`.
    pub fn new(agent: T, port: u16) -> (s: AgentServer<T>)
        ensures
            s.agent() == agent,
            s.port() == port,
    {
        AgentServer { agent: Arc::new(agent), port }
    }

    /// The agent served.
    pub closed spec fn agent(self) -> T {
        *self.agent
    }

    /// The port listened on.
    pub closed spec fn port(self) -> u16 {
        self.port
    }

    /// The port listened on.
    pub fn get_port(&self) -> (p: u16)
        ensures
            p == self.port(),
    {
        self.port
    }

    /// The agent served.
    pub fn get_agent(&self) -> (a: &T)
        ensures
            *a == self.agent(),
    {
        &*self.agent
    }
}

/// What is asked of a runner.
#[derive(Clone, Copy, Debug, PartialEq, Eq, Structural)]
pub enum RunnerEvent {
    /// Run a new plan.
    Exec,
    /// Stop the plan being run.
    Stop,
}

/// What a runner does about a request.
#[derive(Clone, Copy, Debug, PartialEq, Eq, Structural)]
pub enum RunnerAction {
    /// Start the new plan.
    Start,
    /// Cancel the plan being run, then start the new one.
    CancelAndStart,
    /// Cancel the plan being run and wait until it has stopped.
    CancelAndWait,
    /// Nothing is running; do nothing.
    Nothing,
}

/// A runner runs at most one plan at a time: whether one is running now.
#[derive(Clone, Copy, Debug, PartialEq, Eq, Structural)]
pub struct RunnerState {
    pub running: bool,
}

impl RunnerState {
    /// A runner that runs nothing.
    pub fn idle() -> (s: RunnerState)
        ensures
            !s.running,
    {
        RunnerState { running: false }
    }

    /// The runner's next state and what it does on `event`: a new plan
    /// replaces the one running (which is cancelled first), and a stop
    /// cancels the plan running, if any.
    pub fn step(self, event: RunnerEvent) -> (r: (RunnerState, RunnerAction))
        ensures
            r.0.running == (event == RunnerEvent::Exec),
            r.1 == match (event, self.running) {
                (RunnerEvent::Exec, false) => RunnerAction::Start,
                (RunnerEvent::Exec, true) => RunnerAction::CancelAndStart,
                (RunnerEvent::Stop, true) => RunnerAction::CancelAndWait,
                (RunnerEvent::Stop, false) => RunnerAction::Nothing,
            },
    {
        match event {
            RunnerEvent::Exec => {
                let action = if self.running {
                    RunnerAction::CancelAndStart
                } else {
                    RunnerAction::Start
                };
                (RunnerState { running: true }, action)
            },
            RunnerEvent::Stop => {
                let action = if self.running {
                    RunnerAction::CancelAndWait
                } else {
                    RunnerAction::Nothing
                };
                (RunnerState { running: false }, action)
            },
        }
    }
}

/// A timing signal: a request is due at `due`.
#[derive(Clone, Copy, Debug, PartialEq, Eq, Structural)]
pub struct Signal {
    pub due: Instant,
}

impl Signal {
    /// A signal that a request is due at `due`.
    pub fn new(due: Instant) -> (s: Signal)
        ensures
            s.due == due,
    {
        Signal { due }
    }
}

} // verus!
