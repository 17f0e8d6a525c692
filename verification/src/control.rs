//! Runners, agents and the controller that hands plans to them; the
//! registry that announces runners; and the controller's readiness rule.

use vstd::prelude::*;

use crate::agent::SignallerKind;
use crate::target::Target;

verus! {

/// A runner failed unexpectedly; the text says how.
#[derive(Clone, Debug)]
pub enum RunnerError {
    Unexpected(String),
}

/// An agent failed unexpectedly; the text says how.
#[derive(Clone, Debug)]
pub enum AgentError {
    Unexpected(String),
}

/// A controller failed unexpectedly; the text says how.
#[derive(Clone, Debug)]
pub enum ControllerError {
    Unexpected(String),
}

/// A scheduler failed unexpectedly; the text says how.
#[derive(Clone, Debug)]
pub enum SchedulerError {
    Unexpected(String),
}

/// A runner that executes plans on a number of worker threads.
#[derive(Clone, Debug)]
pub struct Runner {
    name: String,
    signaller: SignallerKind,
    worker_threads: usize,
}

impl Runner {
    /// A runner named `name`.
    pub fn new(name: String, signaller: SignallerKind, worker_threads: usize) -> (r: Runner)
        ensures
            r.name() == name,
            r.signaller() == signaller,
            r.worker_threads() == worker_threads,
    {
        Runner { name, signaller, worker_threads }
    }

    /// The runner's name.
    pub closed spec fn name(self) -> String {
        self.name
    }

    /// The runner's signaller.
    pub closed spec fn signaller(self) -> SignallerKind {
        self.signaller
    }

    /// The runner's worker threads.
    pub closed spec fn worker_threads(self) -> usize {
        self.worker_threads
    }
}

/// An agent that executes plans on a number of worker threads.
#[derive(Clone, Debug)]
pub struct Agent {
    name: String,
    signaller: SignallerKind,
    worker_threads: usize,
}

impl Agent {
    /// An agent named `name`.
    pub fn new(name: String, signaller: SignallerKind, worker_threads: usize) -> (a: Agent)
        ensures
            a.name() == name,
            a.signaller() == signaller,
            a.worker_threads() == worker_threads,
    {
        Agent { name, signaller, worker_threads }
    }

    /// The agent's name.
    pub closed spec fn name(self) -> String {
        self.name
    }

    /// The agent's signaller.
    pub closed spec fn signaller(self) -> SignallerKind {
        self.signaller
    }

    /// The agent's worker threads.
    pub closed spec fn worker_threads(self) -> usize {
        self.worker_threads
    }
}

/// An agent that hands plans on to the agents that `discover` finds.
#[derive(Clone, Debug)]
pub struct Proxy<D> {
    discover: D,
}

impl<D> Proxy<D> {
    /// A proxy over the agents that `discover` finds.
    pub fn new(discover: D) -> (p: Proxy<D>)
        ensures
            p.discover() == discover,
    {
        Proxy { discover }
    }

    /// What finds the proxied agents.
    pub closed spec fn discover(self) -> D {
        self.discover
    }
}

/// What one runner answered when asked whether it is ready.
#[derive(Clone, Copy, Debug, PartialEq, Eq, Structural)]
pub enum RunnerPoll {
    /// The runner is ready.
    Ready,
    /// The runner has failed for good.
    Failed,
    /// The runner is not ready yet.
    Pending,
}

/// Whether a controller is ready.
#[derive(Clone, Copy, Debug, PartialEq, Eq, Structural)]
pub enum Readiness {
    /// Some runner is ready.
    Ready,
    /// All runners have failed for good.
    AllFailed,
    /// No runner is ready yet, and not all have failed.
    Pending,
}

/// How many of the first `k` answers are failures.
pub open spec fn failures(polls: Seq<RunnerPoll>, k: int) -> nat
    decreases k,
{
    if k <= 0 {
        0
    } else {
        failures(polls, k - 1) + if polls[k - 1] == RunnerPoll::Failed {
            1nat
        } else {
            0nat
        }
    }
}

/// The controller's readiness, given its runners' answers.
pub open spec fn readiness_of(polls: Seq<RunnerPoll>, runners: nat) -> Readiness {
    if exists|i: int| 0 <= i < polls.len() && polls[i] == RunnerPoll::Ready {
        Readiness::Ready
    } else if failures(polls, polls.len() as int) == runners {
        Readiness::AllFailed
    } else {
        Readiness::Pending
    }
}

/// One ready runner makes the controller ready, whatever the others
/// answered and in whatever order; with no runner ready, it has failed
/// exactly when every runner has failed.
pub proof fn lemma_readiness(polls: Seq<RunnerPoll>, runners: nat, i: int)
    ensures
        0 <= i < polls.len() && polls[i] == RunnerPoll::Ready ==> readiness_of(polls, runners)
            == Readiness::Ready,
        (forall|j: int| 0 <= j < polls.len() ==> polls[j] != RunnerPoll::Ready) ==> (readiness_of(
            polls,
            runners,
        ) == Readiness::AllFailed <==> failures(polls, polls.len() as int) == runners),
        readiness_of(polls, runners) != Readiness::Ready ==> forall|j: int|
            0 <= j < polls.len() ==> polls[j] != RunnerPoll::Ready,
{
}

/// Failures never outnumber the answers counted.
proof fn lemma_failures_bounded(polls: Seq<RunnerPoll>, k: int)
    requires
        0 <= k <= polls.len(),
    ensures
        failures(polls, k) <= k,
    decreases k,
{
    if k > 0 {
        lemma_failures_bounded(polls, k - 1);
    }
}

/// The controller is ready as soon as one of its runners is; it has failed
/// when all of its `runners` have (so also when it has none); else it waits.
/// `polls` are the runners' answers in the order they were asked.
pub fn readiness(polls: &Vec<RunnerPoll>, runners: usize) -> (r: Readiness)
    ensures
        r == readiness_of(polls@, runners as nat),
{
    let mut dead: usize = 0;
    let mut i: usize = 0;
    while i < polls.len()
        invariant
            i <= polls@.len(),
            dead == failures(polls@, i as int),
            forall|j: int| 0 <= j < i ==> polls@[j] != RunnerPoll::Ready,
        decreases polls@.len() - i,
    {
        proof {
            lemma_failures_bounded(polls@, i as int);
        }
        match polls[i] {
            RunnerPoll::Ready => {
                return Readiness::Ready;
            },
            RunnerPoll::Failed => {
                dead = dead + 1;
            },
            RunnerPoll::Pending => {},
        }
        i = i + 1;
    }
    if dead == runners {
        Readiness::AllFailed
    } else {
        Readiness::Pending
    }
}

/// A controller that hands plans to its runners.
#[derive(Clone, Debug)]
pub struct Controller<S> {
    runners: Vec<S>,
}

impl<S> Controller<S> {
    /// A controller over `runners`.
    pub fn new(runners: Vec<S>) -> (c: Controller<S>)
        ensures
            c.runners() == runners@,
    {
        Controller { runners }
    }

    /// The controller's runners.
    pub closed spec fn runners(self) -> Seq<S> {
        self.runners@
    }

    /// The runners a plan goes to: every one of them, each given the same
    /// plan. A controller without runners has nowhere to send it.
    pub fn plan_recipients(&self) -> (r: Result<&Vec<S>, ControllerError>)
        ensures
            r is Ok <==> self.runners().len() > 0,
            r matches Ok(v) ==> v@ == self.runners(),
            r matches Err(ControllerError::Unexpected(m)) ==> m@
                == "at least one runner is required"@,
    {
        if self.runners.len() == 0 {
            Err(ControllerError::Unexpected("at least one runner is required".to_owned()))
        } else {
            Ok(&self.runners)
        }
    }
}

/// What a controller's run answers once each runner has answered the plan
/// it was given (in the runners' order): success where every runner
/// succeeded, else the failure of the first runner that failed.
pub fn run_outcome(answers: &Vec<Result<(), String>>) -> (r: Result<(), ControllerError>)
    ensures
        r is Ok <==> forall|i: int| 0 <= i < answers@.len() ==> #[trigger] answers@[i] is Ok,
        r matches Err(ControllerError::Unexpected(m)) ==> exists|i: int|
            {
                &&& 0 <= i < answers@.len()
                &&& forall|j: int| 0 <= j < i ==> #[trigger] answers@[j] is Ok
                &&& #[trigger] answers@[i] matches Err(e) && e@ == m@
            },
{
    let mut i: usize = 0;
    while i < answers.len()
        invariant
            i <= answers@.len(),
            forall|j: int| 0 <= j < i ==> #[trigger] answers@[j] is Ok,
        decreases answers@.len() - i,
    {
        match &answers[i] {
            Ok(()) => {},
            Err(e) => {
                return Err(ControllerError::Unexpected(e.clone()));
            },
        }
        i = i + 1;
    }
    Ok(())
}

/// The text of the error a controller gives when all its runners have failed.
pub fn all_runners_failed() -> (e: ControllerError)
    ensures
        e matches ControllerError::Unexpected(m) && m@ == "all runners have terminally failed"@,
{
    ControllerError::Unexpected("all runners have terminally failed".to_owned())
}

/// A change in the set of known runners: a runner announced at an address.
#[derive(Clone, Debug)]
pub enum Change<S> {
    Insert(Target, S),
}

/// Runners registered by address, announced one at a time, the most
/// recently registered first.
#[derive(Debug)]
pub struct RunnerRegistry<S> {
    registry: Vec<(Target, S)>,
}

impl<S> RunnerRegistry<S> {
    /// A registry holding `registry`.
    pub fn new(registry: Vec<(Target, S)>) -> (r: RunnerRegistry<S>)
        ensures
            r.entries() == registry@,
    {
        RunnerRegistry { registry }
    }

    /// The runners registered and not yet announced, oldest first.
    pub closed spec fn entries(self) -> Seq<(Target, S)> {
        self.registry@
    }

    /// Registers the runner `s` at `address`.
    pub fn register(&mut self, address: Target, s: S)
        ensures
            final(self).entries() == old(self).entries().push((address, s)),
    {
        self.registry.push((address, s));
    }

    /// Announces the most recently registered runner not yet announced, or
    /// gives `None` where there is none (there may be more later).
    pub fn next_change(&mut self) -> (c: Option<Change<S>>)
        ensures
            old(self).entries().len() == 0 ==> c is None && final(self).entries() == old(
                self,
            ).entries(),
            old(self).entries().len() > 0 ==> {
                &&& final(self).entries() == old(self).entries().drop_last()
                &&& c matches Some(Change::Insert(a, s)) && (a, s) == old(self).entries().last()
            },
    {
        match self.registry.pop() {
            Some((address, s)) => Some(Change::Insert(address, s)),
            None => None,
        }
    }
}

} // verus!
