//! A verified model of a minimal point-to-point RPC exchange: one client
//! issuing independent, timeout-bounded increment calls to one named counter
//! server, under a host registry whose hosts may be created, killed and
//! created again at the same address.
//!
//! The registry is the single source of truth for which hosts are alive and
//! which of them serve the increment request; the client observes, for each
//! call, either a success or a delivery failure (timeout or unreachable).

pub mod address;
pub mod client;
pub mod driver;
pub mod message;
pub mod outcome;
pub mod registry;
pub mod server;
