use counter_rpc::address::Address;
use counter_rpc::client::{Client, TIMEOUT};
use counter_rpc::driver::{restart_server, run_scenario, send_batch, start_server};
use counter_rpc::outcome::{CreateError, DeliveryError, Outcome};
use counter_rpc::registry::Registry;
use counter_rpc::server::MockSercer;

fn addr_a() -> Address {
    // 10.0.0.1:8000
    Address::new(0x0A000001, 8000)
}

fn addr_b() -> Address {
    // 10.0.0.2:1234
    Address::new(0x0A000002, 1234)
}

#[test]
fn fresh_server_counts_from_zero() {
    let s = MockSercer::new();
    assert_eq!(s.counter, 0);
}

#[test]
fn handler_increments_by_one() {
    let mut s = MockSercer::new();
    s.incr(counter_rpc::message::Incr);
    s.incr(counter_rpc::message::Incr);
    assert_eq!(s.counter, 2);
}

#[test]
fn create_on_occupied_address_fails() {
    let mut reg = Registry::new();
    assert_eq!(reg.create(addr_a()), Ok(()));
    assert_eq!(reg.create(addr_a()), Err(CreateError::AddressInUse));
    // the occupant is untouched
    reg.register(addr_a(), MockSercer::new());
    assert_eq!(reg.counter_of(addr_a()), Some(0));
}

#[test]
fn kill_is_idempotent_and_frees_the_address() {
    let mut reg = Registry::new();
    reg.kill(addr_a());
    assert_eq!(reg.create(addr_a()), Ok(()));
    reg.kill(addr_a());
    reg.kill(addr_a());
    assert_eq!(reg.counter_of(addr_a()), None);
    assert_eq!(reg.create(addr_a()), Ok(()));
}

#[test]
fn successful_call_increments_and_acknowledges() {
    let mut reg = Registry::new();
    start_server(&mut reg, addr_a()).unwrap();
    let client = Client::new(&mut reg, addr_b(), addr_a());
    assert_eq!(client.send_req(&mut reg, 0), Outcome::Success);
    assert_eq!(reg.counter_of(addr_a()), Some(1));
}

#[test]
fn unreachable_call_changes_no_counter() {
    let mut reg = Registry::new();
    let client = Client::new(&mut reg, addr_b(), addr_a());
    let before = reg.now;
    let outcome = client.send_req(&mut reg, 0);
    assert_eq!(outcome, Outcome::Failure(DeliveryError::Unreachable));
    assert_eq!(reg.counter_of(addr_a()), None);
    // resolved within the timeout bound
    assert!(reg.now - before <= TIMEOUT);
}

#[test]
fn late_response_times_out_without_increment() {
    let mut reg = Registry::new();
    start_server(&mut reg, addr_a()).unwrap();
    let client = Client::new(&mut reg, addr_b(), addr_a());
    let before = reg.now;
    let outcome = client.send_req(&mut reg, TIMEOUT + 1);
    assert_eq!(outcome, Outcome::Failure(DeliveryError::Timeout));
    assert_eq!(reg.counter_of(addr_a()), Some(0));
    assert_eq!(reg.now - before, TIMEOUT);
}

#[test]
fn host_without_service_times_out() {
    let mut reg = Registry::new();
    reg.create(addr_a()).unwrap();
    let client = Client::new(&mut reg, addr_b(), addr_a());
    assert_eq!(client.send_req(&mut reg, 0), Outcome::Failure(DeliveryError::Timeout));
    assert_eq!(reg.counter_of(addr_a()), None);
}

#[test]
fn every_call_resolves_within_its_window() {
    let mut reg = Registry::new();
    start_server(&mut reg, addr_a()).unwrap();
    let client = Client::new(&mut reg, addr_b(), addr_a());
    for latency in [0, 1, 2, 100, u64::MAX] {
        let before = reg.now;
        let _ = client.send_req(&mut reg, latency);
        assert!(reg.now - before <= TIMEOUT);
    }
}

#[test]
fn batch_counts_exactly_the_in_time_calls() {
    let mut reg = Registry::new();
    start_server(&mut reg, addr_a()).unwrap();
    let client = Client::new(&mut reg, addr_b(), addr_a());
    let lats: Vec<u64> = vec![0, 2, 1, 0, 3];
    let k = send_batch(&client, &mut reg, &lats);
    assert_eq!(k, 3);
    assert_eq!(reg.counter_of(addr_a()), Some(3));
}

#[test]
fn batch_over_live_server_adds_its_size() {
    let mut reg = Registry::new();
    start_server(&mut reg, addr_a()).unwrap();
    let client = Client::new(&mut reg, addr_b(), addr_a());
    let lats: Vec<u64> = vec![0; 7];
    assert_eq!(send_batch(&client, &mut reg, &lats), 7);
    let lats2: Vec<u64> = vec![1; 4];
    assert_eq!(send_batch(&client, &mut reg, &lats2), 4);
    assert_eq!(reg.counter_of(addr_a()), Some(11));
}

#[test]
fn restart_resets_the_counter() {
    let mut reg = Registry::new();
    start_server(&mut reg, addr_a()).unwrap();
    let client = Client::new(&mut reg, addr_b(), addr_a());
    for _ in 0..5 {
        assert_eq!(client.send_req(&mut reg, 0), Outcome::Success);
    }
    assert_eq!(reg.counter_of(addr_a()), Some(5));
    restart_server(&mut reg, addr_a());
    assert_eq!(reg.counter_of(addr_a()), Some(0));
}

#[test]
fn scenario_batch_then_crash_then_fresh_batch() {
    let mut reg = Registry::new();
    let server_addr = addr_a();
    let client_addr = addr_b();

    // create server S at A, client C at B targeting A; 10 calls all succeed
    start_server(&mut reg, server_addr).unwrap();
    let client = Client::new(&mut reg, client_addr, server_addr);
    for _ in 0..10 {
        assert_eq!(client.send_req(&mut reg, 0), Outcome::Success);
    }
    assert_eq!(reg.counter_of(server_addr), Some(10));

    // kill S; one call fails and no counter exists to change
    reg.kill(server_addr);
    let outcome = client.send_req(&mut reg, 0);
    assert!(matches!(outcome, Outcome::Failure(_)));
    assert_eq!(reg.counter_of(server_addr), None);

    // wait past the timeout window, re-create the server at A;
    // 10 more calls count to 10 again, not 20
    reg.wait(5);
    start_server(&mut reg, server_addr).unwrap();
    for _ in 0..10 {
        assert_eq!(client.send_req(&mut reg, 0), Outcome::Success);
    }
    assert_eq!(reg.counter_of(server_addr), Some(10));
}

#[test]
fn simple_test() {
    let server_addr = addr_a();
    let client_addr = addr_b();
    let mut reg = Registry::new();

    start_server(&mut reg, server_addr).unwrap();
    let client = Client::new(&mut reg, client_addr, server_addr);
    for _ in 0..10 {
        client.send_req(&mut reg, 0);
    }

    reg.kill(server_addr);

    reg.wait(5);

    start_server(&mut reg, server_addr).unwrap();
    reg.wait(5);

    for _ in 0..10 {
        client.send_req(&mut reg, 0);
    }
    assert_eq!(reg.counter_of(server_addr), Some(10));
}

#[test]
fn acceptance_run() {
    let mut reg = Registry::new();
    let (first, down, second) = run_scenario(&mut reg, addr_a(), addr_b(), 10, 5);
    assert_eq!(first, 10);
    assert_eq!(down, Outcome::Failure(DeliveryError::Unreachable));
    assert_eq!(second, 10);
    assert_eq!(reg.counter_of(addr_a()), Some(10));
}
