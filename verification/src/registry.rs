use vstd::prelude::*;

use crate::address::Address;
use crate::outcome::{CreateError, DeliveryError};
use crate::server::MockSercer;

verus! {

/// One live host: an independently addressable execution context. The one
/// handler slot is the host's dispatch table for the single request kind of
/// the protocol: `Some` exactly when a counter service is registered there.
pub struct Host {
    pub addr: Address,
    pub server: Option<MockSercer>,
}

/// The host registry: the single source of truth for which hosts are alive,
/// what each of them serves, and the current time of the run. Hosts are
/// created at an address, killed (which tears their handler down at once),
/// and may be created again at the same address as fresh, distinct hosts.
pub struct Registry {
    pub hosts: Vec<Host>,
    pub now: u64,
}

/// The time reached when a wait of `d` starts at `t`: the clock saturates
/// instead of wrapping.
pub open spec fn advance(t: u64, d: u64) -> u64 {
    if t + d <= u64::MAX {
        (t + d) as u64
    } else {
        u64::MAX
    }
}

/// Every address other than `a` sees the same liveness and the same
/// registered counter in `post` as in `pre`.
pub open spec fn unchanged_except(pre: Registry, post: Registry, a: Address) -> bool {
    forall|b: Address|
        #![trigger post.live(b)]
        #![trigger pre.live(b)]
        #![trigger post.server_at(b)]
        #![trigger pre.server_at(b)]
        b != a ==> post.live(b) == pre.live(b) && post.server_at(b) == pre.server_at(b)
}

impl Registry {
    /// Well-formed: no two live hosts occupy the same address.
    pub open spec fn wf(self) -> bool {
        forall|i: int, j: int|
            0 <= i < j < self.hosts@.len() ==> self.hosts@[i].addr != self.hosts@[j].addr
    }

    /// A live host occupies `a`.
    pub open spec fn live(self, a: Address) -> bool {
        exists|i: int| 0 <= i < self.hosts@.len() && self.hosts@[i].addr == a
    }

    /// The index of the live host at `a`, meaningful only while `live(a)`.
    pub open spec fn idx_of(self, a: Address) -> int {
        choose|i: int| 0 <= i < self.hosts@.len() && self.hosts@[i].addr == a
    }

    /// The counter of the service registered at `a`: `None` when no live
    /// host occupies `a`, or when the host there has no service registered.
    pub open spec fn server_at(self, a: Address) -> Option<u64> {
        if self.live(a) {
            match self.hosts@[self.idx_of(a)].server {
                Option::Some(s) => Option::Some(s.counter),
                Option::None => Option::None,
            }
        } else {
            Option::None
        }
    }

    /// In a well-formed registry the index of a live address is the one
    /// position holding that address.
    pub proof fn lemma_idx_of(self, a: Address)
        requires
            self.wf(),
            self.live(a),
        ensures
            0 <= self.idx_of(a) < self.hosts@.len(),
            self.hosts@[self.idx_of(a)].addr == a,
            forall|i: int|
                0 <= i < self.hosts@.len() && self.hosts@[i].addr == a ==> i == self.idx_of(a),
    {
        let x = self.idx_of(a);
        assert(0 <= x < self.hosts@.len() && self.hosts@[x].addr == a);
        assert forall|i: int|
            0 <= i < self.hosts@.len() && self.hosts@[i].addr == a implies i == x by {
            if i < x {
                assert(self.hosts@[i].addr != self.hosts@[x].addr);
            } else if x < i {
                assert(self.hosts@[x].addr != self.hosts@[i].addr);
            }
        }
    }

    /// An empty registry: no live host anywhere, clock at zero.
    pub fn new() -> (r: Registry)
        ensures
            r.wf(),
            r.now == 0,
            forall|a: Address| !r.live(a),
    {
        Registry { hosts: Vec::new(), now: 0 }
    }

    /// Linear lookup of the live host at `a`.
    fn find(&self, a: Address) -> (r: Option<usize>)
        ensures
            match r {
                Option::Some(i) => i < self.hosts@.len() && self.hosts@[i as int].addr == a
                    && self.live(a),
                Option::None => !self.live(a),
            },
    {
        let mut i: usize = 0;
        while i < self.hosts.len()
            invariant
                i <= self.hosts@.len(),
                forall|k: int| 0 <= k < i ==> self.hosts@[k].addr != a,
            decreases self.hosts@.len() - i,
        {
            if self.hosts[i].addr == a {
                return Option::Some(i);
            }
            i = i + 1;
        }
        Option::None
    }

    /// Creates a host at `addr`. Fails with `AddressInUse`, changing
    /// nothing, exactly when a live host already occupies the address;
    /// otherwise the new host is alive at once, with nothing registered on
    /// it yet, and every other address is untouched.
    pub fn create(&mut self, addr: Address) -> (r: Result<(), CreateError>)
        requires
            old(self).wf(),
        ensures
            final(self).wf(),
            final(self).now == old(self).now,
            unchanged_except(*old(self), *final(self), addr),
            old(self).live(addr) ==> r == Result::<(), CreateError>::Err(CreateError::AddressInUse)
                && *final(self) == *old(self),
            !old(self).live(addr) ==> r == Result::<(), CreateError>::Ok(())
                && final(self).live(addr) && final(self).server_at(addr) is None,
    {
        match self.find(addr) {
            Option::Some(_i) => Result::Err(CreateError::AddressInUse),
            Option::None => {
                let ghost pre = *self;
                self.hosts.push(Host { addr, server: Option::None });
                proof {
                    let post = *self;
                    let n = pre.hosts@.len() as int;
                    assert(post.hosts@ == pre.hosts@.push(Host { addr, server: Option::None }));
                    assert(post.hosts@[n].addr == addr);
                    assert forall|i: int, j: int|
                        0 <= i < j < post.hosts@.len() implies post.hosts@[i].addr
                        != post.hosts@[j].addr by {
                        if j < n {
                            assert(pre.hosts@[i].addr != pre.hosts@[j].addr);
                        } else {
                            assert(post.hosts@[i] == pre.hosts@[i]);
                            if pre.hosts@[i].addr == addr {
                                assert(pre.live(addr));
                            }
                        }
                    }
                    assert(post.live(addr));
                    post.lemma_idx_of(addr);
                    assert(post.idx_of(addr) == n);
                    assert(post.server_at(addr) is None);
                    assert forall|b: Address|
                        b != addr implies post.live(b) == pre.live(b) && post.server_at(b)
                        == pre.server_at(b) by {
                        if pre.live(b) {
                            pre.lemma_idx_of(b);
                            let i = pre.idx_of(b);
                            assert(post.hosts@[i].addr == b);
                            assert(post.live(b));
                            post.lemma_idx_of(b);
                            assert(post.idx_of(b) == i);
                            assert(post.hosts@[i] == pre.hosts@[i]);
                        } else {
                            if post.live(b) {
                                let k = choose|k: int|
                                    0 <= k < post.hosts@.len() && post.hosts@[k].addr == b;
                                assert(k == n);
                            }
                            assert(!post.live(b));
                        }
                    }
                }
                Result::Ok(())
            },
        }
    }

    /// Kills the host at `addr`, if one is alive there: its handler binding
    /// is discarded at once and the address becomes free for a future
    /// create. Idempotent: with no live host at `addr` nothing changes.
    pub fn kill(&mut self, addr: Address)
        requires
            old(self).wf(),
        ensures
            final(self).wf(),
            final(self).now == old(self).now,
            !final(self).live(addr),
            unchanged_except(*old(self), *final(self), addr),
            !old(self).live(addr) ==> *final(self) == *old(self),
    {
        match self.find(addr) {
            Option::None => {},
            Option::Some(i) => {
                let ghost pre = *self;
                self.hosts.remove(i);
                proof {
                    let post = *self;
                    let n = pre.hosts@.len() as int;
                    pre.hosts@.remove_ensures(i as int);
                    assert(post.hosts@ == pre.hosts@.remove(i as int));
                    assert(post.hosts@.len() == n - 1);
                    assert forall|p: int, q: int|
                        0 <= p < q < post.hosts@.len() implies post.hosts@[p].addr
                        != post.hosts@[q].addr by {
                        let p0: int = if p < i { p } else { p + 1 };
                        let q0: int = if q < i { q } else { q + 1 };
                        assert(post.hosts@[p] == pre.hosts@[p0]);
                        assert(post.hosts@[q] == pre.hosts@[q0]);
                        assert(pre.hosts@[p0].addr != pre.hosts@[q0].addr);
                    }
                    assert forall|k: int|
                        0 <= k < post.hosts@.len() implies post.hosts@[k].addr != addr by {
                        let k0: int = if k < i { k } else { k + 1 };
                        assert(post.hosts@[k] == pre.hosts@[k0]);
                        if pre.hosts@[k0].addr == addr {
                            pre.lemma_idx_of(addr);
                            assert(pre.idx_of(addr) == i as int);
                            assert(k0 == i as int);
                        }
                    }
                    assert(!post.live(addr));
                    assert forall|b: Address|
                        b != addr implies post.live(b) == pre.live(b) && post.server_at(b)
                        == pre.server_at(b) by {
                        if pre.live(b) {
                            pre.lemma_idx_of(b);
                            let j = pre.idx_of(b);
                            assert(j != i as int);
                            let j1: int = if j < i as int { j } else { j - 1 };
                            assert(post.hosts@[j1] == pre.hosts@[j]);
                            assert(post.live(b));
                            post.lemma_idx_of(b);
                            assert(post.idx_of(b) == j1);
                        } else {
                            if post.live(b) {
                                let k = choose|k: int|
                                    0 <= k < post.hosts@.len() && post.hosts@[k].addr == b;
                                let k0: int = if k < i as int { k } else { k + 1 };
                                assert(pre.hosts@[k0] == post.hosts@[k]);
                                assert(pre.live(b));
                            }
                            assert(!post.live(b));
                        }
                    }
                }
            },
        }
    }

    /// Registers `server` as the increment handler of the live host at
    /// `addr`, replacing whatever was registered there. The registration is
    /// visible as soon as this returns: there is no window in which the
    /// host is up but unreachable.
    pub fn register(&mut self, addr: Address, server: MockSercer)
        requires
            old(self).wf(),
            old(self).live(addr),
        ensures
            final(self).wf(),
            final(self).now == old(self).now,
            final(self).live(addr),
            final(self).server_at(addr) == Option::Some(server.counter),
            unchanged_except(*old(self), *final(self), addr),
    {
        match self.find(addr) {
            Option::None => {
                proof {
                    assert(false);
                }
            },
            Option::Some(i) => {
                let ghost pre = *self;
                self.hosts[i] = Host { addr, server: Option::Some(server) };
                proof {
                    let post = *self;
                    pre.lemma_idx_of(addr);
                    assert(pre.idx_of(addr) == i as int);
                    Self::lemma_update_slot(pre, post, i as int, addr, server.counter);
                }
            },
        }
    }

    /// Both `register` and a delivered increment replace the handler slot
    /// of the host at index `i` in place; this gives the pointwise facts
    /// their contracts state.
    proof fn lemma_update_slot(pre: Registry, post: Registry, i: int, addr: Address, c: u64)
        requires
            pre.wf(),
            0 <= i < pre.hosts@.len(),
            pre.hosts@[i].addr == addr,
            post.hosts@ == pre.hosts@.update(
                i,
                Host { addr, server: Option::Some(MockSercer { counter: c }) },
            ),
        ensures
            post.wf(),
            post.live(addr),
            post.server_at(addr) == Option::Some(c),
            unchanged_except(pre, post, addr),
    {
        assert(post.hosts@.len() == pre.hosts@.len());
        assert forall|p: int, q: int|
            0 <= p < q < post.hosts@.len() implies post.hosts@[p].addr != post.hosts@[q].addr by {
            assert(pre.hosts@[p].addr != pre.hosts@[q].addr);
            assert(post.hosts@[p].addr == pre.hosts@[p].addr);
            assert(post.hosts@[q].addr == pre.hosts@[q].addr);
        }
        assert(post.hosts@[i].addr == addr);
        assert(post.live(addr));
        post.lemma_idx_of(addr);
        assert(post.idx_of(addr) == i);
        assert(post.server_at(addr) == Option::Some(c));
        assert forall|b: Address|
            b != addr implies post.live(b) == pre.live(b) && post.server_at(b)
            == pre.server_at(b) by {
            if pre.live(b) {
                pre.lemma_idx_of(b);
                let j = pre.idx_of(b);
                assert(j != i);
                assert(post.hosts@[j] == pre.hosts@[j]);
                assert(post.live(b));
                post.lemma_idx_of(b);
                assert(post.idx_of(b) == j);
            } else {
                if post.live(b) {
                    let k = choose|k: int|
                        0 <= k < post.hosts@.len() && post.hosts@[k].addr == b;
                    if k != i {
                        assert(pre.hosts@[k] == post.hosts@[k]);
                    }
                    assert(pre.live(b));
                }
                assert(!post.live(b));
            }
        }
    }

    /// The transport's turn-around for one increment request sent to `to`:
    /// with no live host there the delivery fails as `Unreachable` and
    /// nothing changes; with a live host but no registered service the
    /// request draws no response, which the sender can only see as
    /// `Timeout`; with a registered service the handler runs, raising that
    /// counter by exactly one, and the unit acknowledgment comes back.
    pub fn deliver_incr(&mut self, to: Address) -> (r: Result<(), DeliveryError>)
        requires
            old(self).wf(),
            old(self).server_at(to) matches Option::Some(c) ==> c < u64::MAX,
        ensures
            final(self).wf(),
            final(self).now == old(self).now,
            final(self).live(to) == old(self).live(to),
            unchanged_except(*old(self), *final(self), to),
            !old(self).live(to) ==> r == Result::<(), DeliveryError>::Err(
                DeliveryError::Unreachable,
            ) && *final(self) == *old(self),
            old(self).live(to) && old(self).server_at(to) is None ==> r == Result::<
                (),
                DeliveryError,
            >::Err(DeliveryError::Timeout) && *final(self) == *old(self),
            old(self).server_at(to) matches Option::Some(c) ==> r == Result::<
                (),
                DeliveryError,
            >::Ok(()) && final(self).server_at(to) == Option::Some((c + 1) as u64),
    {
        match self.find(to) {
            Option::None => Result::Err(DeliveryError::Unreachable),
            Option::Some(i) => {
                proof {
                    old(self).lemma_idx_of(to);
                    assert(old(self).idx_of(to) == i as int);
                }
                let slot: Option<u64> = match &self.hosts[i].server {
                    Option::Some(s) => Option::Some(s.counter),
                    Option::None => Option::None,
                };
                match slot {
                    Option::None => Result::Err(DeliveryError::Timeout),
                    Option::Some(c) => {
                        let ghost pre = *self;
                        assert(pre.server_at(to) == Option::Some(c));
                        self.hosts[i] = Host {
                            addr: to,
                            server: Option::Some(MockSercer { counter: c + 1 }),
                        };
                        proof {
                            Self::lemma_update_slot(pre, *self, i as int, to, (c + 1) as u64);
                        }
                        Result::Ok(())
                    },
                }
            },
        }
    }

    /// Lets `d` time units pass with no delivery and no lifecycle event:
    /// the driver's quiescent wait between a kill and the next create.
    pub fn wait(&mut self, d: u64)
        ensures
            final(self).hosts == old(self).hosts,
            final(self).now == advance(old(self).now, d),
            forall|b: Address| final(self).live(b) == old(self).live(b),
            forall|b: Address| final(self).server_at(b) == old(self).server_at(b),
    {
        self.now = if self.now <= u64::MAX - d {
            self.now + d
        } else {
            u64::MAX
        };
    }

    /// Reads the counter of the service registered at `a`, if a live host
    /// at `a` has one.
    pub fn counter_of(&self, a: Address) -> (r: Option<u64>)
        requires
            self.wf(),
        ensures
            r == self.server_at(a),
    {
        match self.find(a) {
            Option::None => Option::None,
            Option::Some(i) => {
                proof {
                    self.lemma_idx_of(a);
                    assert(self.idx_of(a) == i as int);
                }
                match &self.hosts[i].server {
                    Option::Some(s) => Option::Some(s.counter),
                    Option::None => Option::None,
                }
            },
        }
    }
}

} // verus!
