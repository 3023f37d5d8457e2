use vstd::prelude::*;

use crate::address::Address;
use crate::client::{Client, TIMEOUT};
use crate::outcome::{CreateError, DeliveryError, Outcome};
use crate::registry::{unchanged_except, Registry};
use crate::server::MockSercer;

verus! {

/// How many of the turn-around times in `lats` fall within the timeout
/// window: against a continuously live server, exactly the calls that
/// succeed.
pub open spec fn on_time_count(lats: Seq<u64>) -> nat
    decreases lats.len(),
{
    if lats.len() == 0 {
        0
    } else {
        on_time_count(lats.drop_last()) + (if lats.last() <= TIMEOUT {
            1nat
        } else {
            0nat
        })
    }
}

/// No more calls can succeed than were made.
pub proof fn lemma_on_time_count_le(lats: Seq<u64>)
    ensures
        on_time_count(lats) <= lats.len(),
    decreases lats.len(),
{
    if lats.len() > 0 {
        lemma_on_time_count_le(lats.drop_last());
    }
}

/// Brings a server up at `addr`: creates the host and registers a fresh
/// counter service on it, visible at once. Exactly when a live host
/// already occupies `addr`, nothing changes and the create error is
/// surfaced; otherwise the new service starts counting at zero, whatever
/// any earlier host at this address had counted.
pub fn start_server(reg: &mut Registry, addr: Address) -> (r: Result<(), CreateError>)
    requires
        old(reg).wf(),
    ensures
        final(reg).wf(),
        final(reg).now == old(reg).now,
        unchanged_except(*old(reg), *final(reg), addr),
        old(reg).live(addr) ==> r == Result::<(), CreateError>::Err(CreateError::AddressInUse)
            && *final(reg) == *old(reg),
        !old(reg).live(addr) ==> r == Result::<(), CreateError>::Ok(()) && final(reg).live(addr)
            && final(reg).server_at(addr) == Option::Some(0u64),
{
    match reg.create(addr) {
        Result::Err(e) => Result::Err(e),
        Result::Ok(()) => {
            reg.register(addr, MockSercer::new());
            Result::Ok(())
        },
    }
}

/// Kills whatever occupies `addr` and brings up a fresh server there. The
/// new service starts at zero no matter what the old instance had counted:
/// nothing persists across a kill.
pub fn restart_server(reg: &mut Registry, addr: Address)
    requires
        old(reg).wf(),
    ensures
        final(reg).wf(),
        final(reg).now == old(reg).now,
        final(reg).live(addr),
        final(reg).server_at(addr) == Option::Some(0u64),
        unchanged_except(*old(reg), *final(reg), addr),
{
    reg.kill(addr);
    let _started = start_server(reg, addr);
}

/// Issues one call per entry of `lats`, each an independent attempt whose
/// transport turn-around is that entry, awaiting each outcome before the
/// next send. Against a server that is live when the batch starts, the
/// counter afterwards is the counter before plus exactly the number of
/// calls delivered in time, which is also the returned success count.
pub fn send_batch(client: &Client, reg: &mut Registry, lats: &Vec<u64>) -> (k: u64)
    requires
        old(reg).wf(),
        old(reg).live(client.addr),
        old(reg).server_at(client.server_addr) matches Option::Some(c) && c + lats@.len()
            <= u64::MAX,
    ensures
        final(reg).wf(),
        k == on_time_count(lats@),
        old(reg).server_at(client.server_addr) matches Option::Some(c) ==> final(reg).server_at(
            client.server_addr,
        ) == Option::Some((c + on_time_count(lats@)) as u64),
        forall|b: Address| final(reg).live(b) == old(reg).live(b),
        unchanged_except(*old(reg), *final(reg), client.server_addr),
{
    let ghost c0: u64 = old(reg).server_at(client.server_addr)->Some_0;
    let mut i: usize = 0;
    let mut k: u64 = 0;
    proof {
        assert(lats@.take(0) =~= Seq::<u64>::empty());
    }
    while i < lats.len()
        invariant
            reg.wf(),
            i <= lats@.len(),
            reg.live(client.addr),
            c0 + lats@.len() <= u64::MAX,
            reg.server_at(client.server_addr) == Option::Some(
                (c0 + on_time_count(lats@.take(i as int))) as u64,
            ),
            k == on_time_count(lats@.take(i as int)),
            forall|b: Address| reg.live(b) == old(reg).live(b),
            unchanged_except(*old(reg), *reg, client.server_addr),
        decreases lats@.len() - i,
    {
        proof {
            lemma_on_time_count_le(lats@.take(i as int));
            assert(lats@.take(i as int).len() == i);
        }
        let l = lats[i];
        let outcome = client.send_req(reg, l);
        proof {
            assert(lats@.take(i as int + 1).drop_last() =~= lats@.take(i as int));
            assert(lats@.take(i as int + 1).last() == lats@[i as int]);
        }
        match outcome {
            Outcome::Success => {
                k = k + 1;
            },
            Outcome::Failure(_) => {},
        }
        i = i + 1;
    }
    proof {
        assert(lats@.take(lats@.len() as int) =~= lats@);
    }
    k
}

/// The reference end-to-end run, and the acceptance contract of the whole
/// core: bring a server up, bind a client to it, issue a batch of `n`
/// prompt calls, kill the server host, issue one call while it is down,
/// wait `quiet` time units, bring a fresh server up at the same address,
/// and issue `n` prompt calls again. The first batch counts up to `n`; the
/// call in between fails without touching any counter; the second batch
/// counts up to `n` again, from zero, independent of the first.
pub fn run_scenario(
    reg: &mut Registry,
    server_addr: Address,
    client_addr: Address,
    n: u64,
    quiet: u64,
) -> (r: (u64, Outcome, u64))
    requires
        old(reg).wf(),
        !old(reg).live(server_addr),
        !old(reg).live(client_addr),
        server_addr != client_addr,
    ensures
        r.0 == n,
        r.1 == Outcome::Failure(DeliveryError::Unreachable),
        r.2 == n,
        final(reg).wf(),
        final(reg).live(server_addr),
        final(reg).server_at(server_addr) == Option::Some(n),
        final(reg).live(client_addr),
{
    let _up = start_server(reg, server_addr);
    let client = Client::new(reg, client_addr, server_addr);
    let c1 = count_prompt_calls(&client, reg, n);

    reg.kill(server_addr);
    let down = client.send_req(reg, 0);
    reg.wait(quiet);

    restart_server(reg, server_addr);
    let c2 = count_prompt_calls(&client, reg, n);
    (c1, down, c2)
}

/// One batch of the reference run: `n` sequential calls over a healthy
/// network (prompt turn-around) against a freshly started server, counting
/// it from zero to `n`.
fn count_prompt_calls(client: &Client, reg: &mut Registry, n: u64) -> (c: u64)
    requires
        old(reg).wf(),
        old(reg).live(client.addr),
        old(reg).server_at(client.server_addr) == Option::Some(0u64),
    ensures
        final(reg).wf(),
        c == n,
        final(reg).server_at(client.server_addr) == Option::Some(n),
        forall|b: Address| final(reg).live(b) == old(reg).live(b),
        unchanged_except(*old(reg), *final(reg), client.server_addr),
{
    let mut i: u64 = 0;
    while i < n
        invariant
            reg.wf(),
            i <= n,
            reg.live(client.addr),
            reg.server_at(client.server_addr) == Option::Some(i),
            forall|b: Address| reg.live(b) == old(reg).live(b),
            unchanged_except(*old(reg), *reg, client.server_addr),
        decreases n - i,
    {
        let outcome = client.send_req(reg, 0);
        proof {
            assert(outcome == Outcome::Success);
        }
        i = i + 1;
    }
    match reg.counter_of(client.server_addr) {
        Option::Some(c) => c,
        Option::None => {
            proof {
                assert(false);
            }
            0
        },
    }
}

} // verus!
