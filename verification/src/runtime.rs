//! The shape of the async runtime a node runs on.

use vstd::prelude::*;

use crate::config::cpu_count;

verus! {

/// How many threads the runtime runs on.
#[derive(Clone, Copy, Debug, PartialEq, Eq, Structural)]
pub enum Config {
    MultiThreaded { worker_threads: usize },
    SingleThreaded,
}

impl Config {
    /// The runtime runs on a single thread.
    pub fn is_single_threaded(&self) -> (b: bool)
        ensures
            b == (*self is SingleThreaded),
    {
        match self {
            Config::SingleThreaded => true,
            Config::MultiThreaded { .. } => false,
        }
    }
}

impl Default for Config {
    /// A multi-threaded runtime with one worker thread per logical CPU.
    fn default() -> (c: Config)
        ensures
            c matches Config::MultiThreaded { worker_threads } && worker_threads >= 1,
    {
        Config::MultiThreaded { worker_threads: cpu_count() }
    }
}

} // verus!
