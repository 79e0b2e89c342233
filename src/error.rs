use vstd::prelude::*;

verus! {

/// A persisted record.
#[derive(Clone, Copy, Debug, PartialEq, Eq)]
pub enum Record {
    /// The name and version of the deployed build.
    ContractInfo,
    State,
    Owner,
    ParentDonation,
    /// The counter of the oldest layout, kept under its own key.
    Counter,
    /// The minimal donation of the oldest layout, kept under its own key.
    MinimalDonation,
}

/// Why a call failed. A failed call changes nothing and requests no transfer.
#[derive(Clone, Debug, PartialEq, Eq)]
pub enum ContractError {
    /// A record the call needs is absent.
    NotFound(Record),
    /// Only the owner may withdraw; carries the owner.
    Unauthorized { owner: String },
    /// The deployment records another contract's name; carries that name.
    InvalidName(String),
    /// No upgrade is known from the recorded version; carries that version.
    InvalidVersion(String),
}

} // verus!
