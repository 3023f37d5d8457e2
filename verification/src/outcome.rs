use vstd::prelude::*;

verus! {

/// A transport-reported inability to deliver a call or its response.
///
/// - `Timeout`: no response arrived within the call's timeout window.
/// - `Unreachable`: no live host exists at the destination address at
///   delivery time.
///
/// Both are recoverable: they are surfaced to the caller as a failed
/// outcome and never retried by the core.
#[derive(Clone, Copy, Debug, PartialEq, Eq, Structural)]
pub enum DeliveryError {
    Timeout,
    Unreachable,
}

/// The error of creating a host at an address already occupied by a live
/// host. Fatal to that `create` call alone: the caller must pick another
/// address or kill the occupant first.
#[derive(Clone, Copy, Debug, PartialEq, Eq, Structural)]
pub enum CreateError {
    AddressInUse,
}

/// What the client observes for one call: a unit acknowledgment arrived in
/// time, or the delivery failed.
#[derive(Clone, Copy, Debug, PartialEq, Eq, Structural)]
pub enum Outcome {
    Success,
    Failure(DeliveryError),
}

} // verus!
