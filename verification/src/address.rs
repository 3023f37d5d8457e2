use vstd::prelude::*;

verus! {

/// The stable identifier used to route a call to a host: an IPv4 address
/// together with a port, held as plain integers.
///
/// An address is reusable: after the host occupying it is killed, a new,
/// logically distinct host may be created at the same address.
#[derive(Clone, Copy, Debug, PartialEq, Eq, Structural)]
pub struct Address {
    pub ip: u32,
    pub port: u16,
}

impl Address {
    pub fn new(ip: u32, port: u16) -> (a: Address)
        ensures
            a.ip == ip,
            a.port == port,
    {
        Address { ip, port }
    }
}

} // verus!
