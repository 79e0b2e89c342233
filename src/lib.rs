//! A donation counter with owner-only withdrawal, versioned state upgrades and
//! periodic forwarding of a share of the held funds to a parent instance.

pub mod coin;
pub mod error;
pub mod msg;
pub mod state;
pub mod contract;
pub mod migration;
