use vstd::prelude::*;
use crate::coin::{Coin, Decimal};

verus! {

/// Where and how often a share of the funds is forwarded.
#[derive(Clone, Debug, PartialEq, Eq)]
pub struct Parent {
    /// The parent instance's address, already validated.
    pub addr: String,
    /// Qualifying donations between two forwards.
    pub donating_period: u32,
    /// The share of each denomination that is forwarded.
    pub part: Decimal,
}

impl Parent {
    /// A period above zero and a part in `[0, 1]`.
    pub open spec fn is_valid(self) -> bool {
        self.donating_period > 0 && self.part.is_fraction()
    }

    /// Whether the period is above zero and the part in `[0, 1]`.
    pub fn check_valid(&self) -> (r: bool)
        ensures
            r == self.is_valid(),
    {
        self.donating_period > 0 && self.part.check_fraction()
    }
}

/// A parent configuration that is absent or valid.
pub open spec fn valid_parent(p: Option<Parent>) -> bool {
    match p {
        Some(p) => p.is_valid(),
        None => true,
    }
}

#[derive(Clone, Debug, PartialEq, Eq)]
pub struct InstantiateMsg {
    pub minimal_donation: Coin,
    pub parent: Option<Parent>,
}

#[derive(Clone, Debug, PartialEq, Eq)]
pub struct MigrateMsg {
    pub parent: Option<Parent>,
}

#[derive(Clone, Copy, Debug, PartialEq, Eq)]
pub enum ExecMsg {
    Donate {},
    Withdraw {},
}

#[derive(Clone, Copy, Debug, PartialEq, Eq)]
pub enum QueryMsg {
    Value {},
}

#[derive(Clone, Copy, Debug, PartialEq, Eq)]
pub struct ValueResp {
    pub value: u64,
}

/// A transfer that the host is asked to carry out once the call commits.
#[derive(Clone, Debug, PartialEq, Eq)]
pub enum CosmosMsg {
    /// Send `amount` to `to_address`.
    BankSend { to_address: String, amount: Vec<Coin> },
    /// Call `Donate` on the instance at `contract_addr`, attaching `funds`.
    ExecuteDonate { contract_addr: String, funds: Vec<Coin> },
}

/// What a successful call hands back: the transfers it requests, in order.
#[derive(Clone, Debug, PartialEq, Eq)]
pub struct Response {
    pub messages: Vec<CosmosMsg>,
}

impl Response {
    pub fn new() -> (r: Response)
        ensures
            r.messages@.len() == 0,
    {
        Response { messages: Vec::new() }
    }
}

} // verus!
