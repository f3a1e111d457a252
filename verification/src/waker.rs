//! The signal that wakes a waiting engine thread.
use vstd::prelude::*;
use std::sync::Arc;
use crate::base::Nanos;
use crate::latch::Latch;

verus! {

/// A signal that a waker raises and an engine thread waits for.
pub struct Signal {
    signal: Arc<Latch>,
}

impl Signal {
    /// A new signal, not raised.
    pub fn new() -> Signal {
        Signal { signal: Arc::new(Latch::new()) }
    }

    /// Block until the signal is raised, and lower it.
    pub fn wait(&self) {
        let _ = self.signal.wait();
    }

    /// Block until the signal is raised or `timeout` nanoseconds pass, and lower it.
    /// `true` where it was raised; `false` on timeout or a poisoned lock.
    pub fn wait_timeout(&self, timeout: Nanos) -> (raised: bool) {
        match self.signal.wait_timeout(timeout) {
            Some(timed_out) => !timed_out,
            None => false,
        }
    }

    /// Raise the signal, waking the waiting thread.
    pub fn wake(&self) {
        self.signal.set_one();
    }
}

} // verus!
