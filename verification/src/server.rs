use vstd::prelude::*;

use crate::message::Incr;

verus! {

/// The counter service: a named RPC endpoint holding one non-negative
/// counter. While the host serving it stays alive the counter only grows;
/// the counter does not survive a kill, and a service created afresh at the
/// same address starts again at zero.
#[derive(Clone, Copy, Debug)]
pub struct MockSercer {
    pub counter: u64,
}

impl MockSercer {
    /// Constructs a fresh server whose counter is zero. Binding it to a
    /// host's address is the registry's registration step, which makes it
    /// reachable atomically with that step.
    pub fn new() -> (s: Self)
        ensures
            s.counter == 0,
    {
        MockSercer { counter: 0 }
    }

    /// The handler of the increment request: one delivered request raises
    /// the counter by exactly one, and nothing else about the server
    /// changes. The request carries no payload, so no validation error is
    /// possible.
    pub fn incr(&mut self, _request: Incr)
        requires
            old(self).counter < u64::MAX,
        ensures
            final(self).counter == old(self).counter + 1,
    {
        self.counter = self.counter + 1;
    }
}

} // verus!
