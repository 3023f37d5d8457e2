use vstd::prelude::*;

use crate::address::Address;
use crate::outcome::{DeliveryError, Outcome};
use crate::registry::{advance, unchanged_except, Registry};

verus! {

/// The fixed per-call timeout, in time units.
pub const TIMEOUT: u64 = 1;

/// What one call from a live client host observes, given the transport
/// turn-around `l` the network chose for the attempt and the registry state
/// `pre` at delivery time. A turn-around beyond the window means the
/// response cannot arrive in time: the timer wins the race. Within the
/// window, the transport either reports that no live host occupies the
/// destination, or delivers; a delivered request without a registered
/// service draws no response at all, which the sender sees as a timeout.
pub open spec fn call_outcome(pre: Registry, dst: Address, l: u64) -> Outcome {
    if l > TIMEOUT {
        Outcome::Failure(DeliveryError::Timeout)
    } else if !pre.live(dst) {
        Outcome::Failure(DeliveryError::Unreachable)
    } else if pre.server_at(dst) is Some {
        Outcome::Success
    } else {
        Outcome::Failure(DeliveryError::Timeout)
    }
}

/// How long the same call keeps its caller waiting: the full window when it
/// times out, the transport turn-around otherwise — never more than
/// `TIMEOUT`.
pub open spec fn call_elapsed(pre: Registry, dst: Address, l: u64) -> u64 {
    if l > TIMEOUT {
        TIMEOUT
    } else if !pre.live(dst) {
        l
    } else if pre.server_at(dst) is Some {
        l
    } else {
        TIMEOUT
    }
}

/// A client bound to its own host address, holding the address of the
/// server it targets. The association is weak: the target need not exist,
/// nor be alive, and the client never retries a failed call.
#[derive(Clone, Copy, Debug)]
pub struct Client {
    pub addr: Address,
    pub server_addr: Address,
}

impl Client {
    /// Binds a client to run as a fresh host at `addr`, targeting
    /// `server_addr`. The server is not contacted and need not exist. The
    /// address must be free; creating a host at an occupied address is a
    /// caller error reported synchronously by the registry.
    pub fn new(reg: &mut Registry, addr: Address, server_addr: Address) -> (c: Client)
        requires
            old(reg).wf(),
            !old(reg).live(addr),
        ensures
            final(reg).wf(),
            c.addr == addr,
            c.server_addr == server_addr,
            final(reg).live(addr),
            final(reg).server_at(addr) is None,
            final(reg).now == old(reg).now,
            unchanged_except(*old(reg), *final(reg), addr),
    {
        let _created = reg.create(addr);
        Client { addr, server_addr }
    }

    /// Performs exactly one increment call to the configured server
    /// address, bounded by the fixed timeout. The outcome and the elapsed
    /// time are exactly `call_outcome` and `call_elapsed` of the state at
    /// the send; in particular the call always resolves, and never keeps
    /// the caller waiting longer than the timeout window. A successful call
    /// raises the target counter by exactly one; a failed call changes no
    /// counter anywhere. The client's own host must be alive to issue the
    /// call: a killed host's tasks are cancelled, not run.
    pub fn send_req(&self, reg: &mut Registry, latency: u64) -> (r: Outcome)
        requires
            old(reg).wf(),
            old(reg).live(self.addr),
            latency <= TIMEOUT ==> (old(reg).server_at(self.server_addr) matches Option::Some(c)
                ==> c < u64::MAX),
        ensures
            final(reg).wf(),
            r == call_outcome(*old(reg), self.server_addr, latency),
            final(reg).now == advance(
                old(reg).now,
                call_elapsed(*old(reg), self.server_addr, latency),
            ),
            call_elapsed(*old(reg), self.server_addr, latency) <= TIMEOUT,
            r == Outcome::Success ==> (old(reg).server_at(self.server_addr) matches Option::Some(c)
                && final(reg).server_at(self.server_addr) == Option::Some((c + 1) as u64)),
            r != Outcome::Success ==> final(reg).server_at(self.server_addr) == old(
                reg,
            ).server_at(self.server_addr),
            forall|b: Address| final(reg).live(b) == old(reg).live(b),
            unchanged_except(*old(reg), *final(reg), self.server_addr),
    {
        if latency > TIMEOUT {
            reg.wait(TIMEOUT);
            Outcome::Failure(DeliveryError::Timeout)
        } else {
            match reg.deliver_incr(self.server_addr) {
                Result::Ok(()) => {
                    reg.wait(latency);
                    Outcome::Success
                },
                Result::Err(DeliveryError::Unreachable) => {
                    reg.wait(latency);
                    Outcome::Failure(DeliveryError::Unreachable)
                },
                Result::Err(DeliveryError::Timeout) => {
                    reg.wait(TIMEOUT);
                    Outcome::Failure(DeliveryError::Timeout)
                },
            }
        }
    }
}

} // verus!
