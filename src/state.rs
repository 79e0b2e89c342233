use vstd::prelude::*;
use crate::coin::{Coin, Decimal};
use crate::msg::Parent;

verus! {

/// The counter and its configuration.
#[derive(Clone, Debug, PartialEq, Eq)]
pub struct State {
    pub counter: u64,
    pub minimal_donation: Coin,
    /// Qualifying donations left before the next forward, when a parent is configured.
    pub donating_parent: Option<u32>,
}

/// The parent instance that receives a share of the funds.
#[derive(Clone, Debug, PartialEq, Eq)]
pub struct ParentDonation {
    pub address: String,
    pub donating_parent_period: u32,
    pub part: Decimal,
}

/// The name and version of a build.
#[derive(Clone, Debug, PartialEq, Eq)]
pub struct ContractVersion {
    pub contract: String,
    pub version: String,
}

impl ContractVersion {
    pub fn new(contract: &str, version: &str) -> (r: ContractVersion)
        ensures
            r.contract@ == contract@,
            r.version@ == version@,
    {
        ContractVersion { contract: contract.to_string(), version: version.to_string() }
    }

    /// A copy of this record.
    pub fn duplicate(&self) -> (r: ContractVersion)
        ensures
            r == *self,
    {
        ContractVersion { contract: self.contract.clone(), version: self.version.clone() }
    }
}

/// The records persisted for one instance, each present or absent.
///
/// `legacy_counter` and `legacy_minimal_donation` are the two records under
/// which the oldest layout kept what `state` holds now.
#[derive(Clone, Debug, PartialEq, Eq)]
pub struct Store {
    pub contract_version: Option<ContractVersion>,
    pub state: Option<State>,
    pub owner: Option<String>,
    pub parent_donation: Option<ParentDonation>,
    pub legacy_counter: Option<u64>,
    pub legacy_minimal_donation: Option<Coin>,
}

/// The parent record that a parent configuration gives.
pub open spec fn parent_record(p: Parent) -> ParentDonation {
    ParentDonation { address: p.addr, donating_parent_period: p.donating_period, part: p.part }
}

/// The countdown that a parent configuration starts with.
pub open spec fn countdown_of(p: Option<Parent>) -> Option<u32> {
    match p {
        Some(p) => Some(p.donating_period),
        None => None,
    }
}

impl ParentDonation {
    pub open spec fn wf(self) -> bool {
        self.donating_parent_period > 0 && self.part.is_fraction()
    }

    pub fn from_parent(p: Parent) -> (r: ParentDonation)
        ensures
            r == parent_record(p),
    {
        ParentDonation { address: p.addr, donating_parent_period: p.donating_period, part: p.part }
    }
}

impl Store {
    /// A countdown, where there is one, is above zero and comes with a valid
    /// parent record; a parent record, where there is one, is valid.
    pub open spec fn wf(self) -> bool {
        &&& self.parent_donation matches Some(pd) ==> pd.wf()
        &&& self.state matches Some(s) ==> (s.donating_parent matches Some(n) ==> n > 0
            && self.parent_donation is Some)
    }

    /// No record at all.
    pub fn new() -> (r: Store)
        ensures
            r.contract_version is None,
            r.state is None,
            r.owner is None,
            r.parent_donation is None,
            r.legacy_counter is None,
            r.legacy_minimal_donation is None,
    {
        Store {
            contract_version: None,
            state: None,
            owner: None,
            parent_donation: None,
            legacy_counter: None,
            legacy_minimal_donation: None,
        }
    }

    /// Whether the records are well formed.
    pub fn check_wf(&self) -> (r: bool)
        ensures
            r == self.wf(),
    {
        let pd_ok = match &self.parent_donation {
            Some(pd) => pd.donating_parent_period > 0 && pd.part.check_fraction(),
            None => true,
        };
        let state_ok = match &self.state {
            Some(s) => match s.donating_parent {
                Some(n) => n > 0 && self.parent_donation.is_some(),
                None => true,
            },
            None => true,
        };
        pd_ok && state_ok
    }
}

} // verus!
