//! The gRPC servers that expose a service on a port.

use vstd::prelude::*;

verus! {

/// A gRPC agent server that listens on a port.
#[derive(Clone, Copy, Debug, PartialEq, Eq, Structural)]
pub struct GrpcServer {
    port: u16,
}

impl GrpcServer {
    /// A server that listens on `port`.
    pub fn new(port: u16) -> (s: GrpcServer)
        ensures
            s.port() == port,
    {
        GrpcServer { port }
    }

    /// The port listened on.
    pub closed spec fn port(self) -> u16 {
        self.port
    }

    /// The port listened on.
    pub fn get_port(&self) -> (p: u16)
        ensures
            p == self.port(),
    {
        self.port
    }
}

/// A server that answers the agent service's stream for `inner` on a port.
#[derive(Clone, Debug)]
pub struct AgentServer<S> {
    inner: S,
    port: u16,
}

impl<S> AgentServer<S> {
    /// A server for `inner` that listens on `port`.
    pub fn new(inner: S, port: u16) -> (s: AgentServer<S>)
        ensures
            s.inner() == inner,
            s.port() == port,
    {
        AgentServer { inner, port }
    }

    /// The service served.
    pub closed spec fn inner(self) -> S {
        self.inner
    }

    /// The port listened on.
    pub closed spec fn port(self) -> u16 {
        self.port
    }

    /// The port listened on.
    pub fn get_port(&self) -> (p: u16)
        ensures
            p == self.port(),
    {
        self.port
    }
}

/// A server that answers the load-test service's stream for `inner` on a port.
#[derive(Clone, Debug)]
pub struct MetronServer<S> {
    inner: S,
    port: u16,
}

impl<S> MetronServer<S> {
    /// A server for `inner` that listens on `port`.
    pub fn new(inner: S, port: u16) -> (s: MetronServer<S>)
        ensures
            s.inner() == inner,
            s.port() == port,
    {
        MetronServer { inner, port }
    }

    /// The service served.
    pub closed spec fn inner(self) -> S {
        self.inner
    }

    /// The port listened on.
    pub closed spec fn port(self) -> u16 {
        self.port
    }

    /// The port listened on.
    pub fn get_port(&self) -> (p: u16)
        ensures
            p == self.port(),
    {
        self.port
    }

    /// The service served.
    pub fn get_inner(&self) -> (s: &S)
        ensures
            *s == self.inner(),
    {
        &self.inner
    }
}

/// A server that runs load tests for `inner` on a port.
#[derive(Clone, Debug)]
pub struct GrpcServerAgent<S> {
    inner: S,
    port: u16,
}

impl<S> GrpcServerAgent<S> {
    /// A server for `inner` that listens on `port`.
    pub fn new(inner: S, port: u16) -> (s: GrpcServerAgent<S>)
        ensures
            s.inner() == inner,
            s.port() == port,
    {
        GrpcServerAgent { inner, port }
    }

    /// The service served.
    pub closed spec fn inner(self) -> S {
        self.inner
    }

    /// The port listened on.
    pub closed spec fn port(self) -> u16 {
        self.port
    }

    /// The port listened on.
    pub fn get_port(&self) -> (p: u16)
        ensures
            p == self.port(),
    {
        self.port
    }
}

} // verus!
