use vstd::prelude::*;

verus! {

/// The single request kind of the protocol: increment the server's counter.
/// It carries no payload and no request identifier, so every send is a
/// fresh, independent, at-most-once attempt; the successful response is a
/// unit acknowledgment.
#[derive(Clone, Copy, Debug, PartialEq, Eq, Structural)]
pub struct Incr;

} // verus!
