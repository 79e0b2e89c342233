use vstd::prelude::*;
use crate::coin::Coin;
use crate::error::{ContractError, Record};
use crate::msg::{valid_parent, Parent, Response};
use crate::state::{countdown_of, parent_record, ContractVersion, ParentDonation, State, Store};

verus! {

/// `s` with a current-layout state made of `counter` and `minimal_donation`,
/// counting down for `parent` where one is given, and with `parent`'s record
/// put in place.
pub open spec fn with_state(s: Store, counter: u64, minimal_donation: Coin, parent: Option<Parent>) -> Store {
    Store {
        state: Some(State { counter, minimal_donation, donating_parent: countdown_of(parent) }),
        parent_donation: match parent {
            Some(p) => Some(parent_record(p)),
            None => s.parent_donation,
        },
        ..s
    }
}

/// Upgrading records of the oldest layout, where the counter and the minimal
/// donation were kept under keys of their own.
pub open spec fn upgraded_from_0_1_0(s: Store, parent: Option<Parent>) -> Result<Store, ContractError> {
    match s.legacy_counter {
        None => Err(ContractError::NotFound(Record::Counter)),
        Some(counter) => match s.legacy_minimal_donation {
            None => Err(ContractError::NotFound(Record::MinimalDonation)),
            Some(minimal_donation) => Ok(with_state(s, counter, minimal_donation, parent)),
        },
    }
}

/// Upgrading records of the layout whose state had no countdown yet.
pub open spec fn upgraded_from_0_2_0(s: Store, parent: Option<Parent>) -> Result<Store, ContractError> {
    match s.state {
        None => Err(ContractError::NotFound(Record::State)),
        Some(st) => Ok(with_state(s, st.counter, st.minimal_donation, parent)),
    }
}

/// The outcome `r` of an upgrade, with `build` recorded where it succeeded.
pub open spec fn recorded(r: Result<Store, ContractError>, build: ContractVersion) -> Result<
    Store,
    ContractError,
> {
    match r {
        Ok(s) => Ok(Store { contract_version: Some(build), ..s }),
        Err(e) => Err(e),
    }
}

/// The records after migrating `s` to `build`, or the error that stops it.
pub open spec fn migrated(s: Store, build: ContractVersion, parent: Option<Parent>) -> Result<
    Store,
    ContractError,
> {
    match s.contract_version {
        None => Err(ContractError::NotFound(Record::ContractInfo)),
        Some(v) => if v.contract@ != build.contract@ {
            Err(ContractError::InvalidName(v.contract))
        } else if v.version@ == build.version@ {
            Ok(s)
        } else if v.version@ == "0.1.0"@ {
            recorded(upgraded_from_0_1_0(s, parent), build)
        } else if v.version@ == "0.2.0"@ {
            recorded(upgraded_from_0_2_0(s, parent), build)
        } else {
            Err(ContractError::InvalidVersion(v.version))
        },
    }
}

/// Writes the current-layout state, and the parent record where one is given.
fn install_state(store: &mut Store, counter: u64, minimal_donation: Coin, parent: Option<Parent>)
    ensures
        *final(store) == with_state(*old(store), counter, minimal_donation, parent),
{
    let donating_parent = match &parent {
        Some(p) => Some(p.donating_period),
        None => None,
    };
    store.state = Some(State { counter, minimal_donation, donating_parent });
    match parent {
        Some(p) => {
            store.parent_donation = Some(ParentDonation::from_parent(p));
        },
        None => {},
    }
}

/// Rewrites records of the oldest layout into the current one. The name and
/// version record is left to the caller.
pub fn migrate_0_1_0(store: &mut Store, parent: Option<Parent>) -> (r: Result<Response, ContractError>)
    ensures
        match upgraded_from_0_1_0(*old(store), parent) {
            Ok(s) => r is Ok && r->Ok_0.messages@.len() == 0 && *final(store) == s,
            Err(e) => r == Err::<Response, ContractError>(e) && *final(store) == *old(store),
        },
{
    let counter = match store.legacy_counter {
        None => return Err(ContractError::NotFound(Record::Counter)),
        Some(c) => c,
    };
    let minimal_donation = match &store.legacy_minimal_donation {
        None => return Err(ContractError::NotFound(Record::MinimalDonation)),
        Some(m) => m.duplicate(),
    };
    install_state(store, counter, minimal_donation, parent);
    Ok(Response::new())
}

/// Rewrites a state without countdown into the current layout. The name and
/// version record is left to the caller.
pub fn migrate_0_2_0(store: &mut Store, parent: Option<Parent>) -> (r: Result<Response, ContractError>)
    ensures
        match upgraded_from_0_2_0(*old(store), parent) {
            Ok(s) => r is Ok && r->Ok_0.messages@.len() == 0 && *final(store) == s,
            Err(e) => r == Err::<Response, ContractError>(e) && *final(store) == *old(store),
        },
{
    let (counter, minimal_donation) = match &store.state {
        None => return Err(ContractError::NotFound(Record::State)),
        Some(s) => (s.counter, s.minimal_donation.duplicate()),
    };
    install_state(store, counter, minimal_donation, parent);
    Ok(Response::new())
}

/// Brings the records of an earlier version of this contract up to `build`, and
/// records `build`. Nothing changes where it fails, or where `build` is already
/// the recorded version.
pub fn migrate(store: &mut Store, build: &ContractVersion, parent: Option<Parent>) -> (r: Result<
    Response,
    ContractError,
>)
    requires
        old(store).wf(),
        valid_parent(parent),
    ensures
        final(store).wf(),
        match migrated(*old(store), *build, parent) {
            Ok(s) => r is Ok && r->Ok_0.messages@.len() == 0 && *final(store) == s,
            Err(e) => r == Err::<Response, ContractError>(e) && *final(store) == *old(store),
        },
{
    let version = match &store.contract_version {
        None => return Err(ContractError::NotFound(Record::ContractInfo)),
        Some(v) => {
            if v.contract != build.contract {
                return Err(ContractError::InvalidName(v.contract.clone()));
            }
            v.version.clone()
        },
    };
    if version == build.version {
        return Ok(Response::new());
    }
    let upgraded = if version == "0.1.0".to_string() {
        migrate_0_1_0(store, parent)
    } else if version == "0.2.0".to_string() {
        migrate_0_2_0(store, parent)
    } else {
        return Err(ContractError::InvalidVersion(version));
    };
    match upgraded {
        Ok(_) => {},
        Err(e) => return Err(e),
    }
    store.contract_version = Some(build.duplicate());
    Ok(Response::new())
}

/// Migrating to the build that is already recorded changes nothing and succeeds;
/// so a second migration to the same build, after a first one succeeded, is a
/// no-op.
pub proof fn lemma_migrate_idempotent(
    s: Store,
    build: ContractVersion,
    parent: Option<Parent>,
    again: Option<Parent>,
)
    ensures
        (s.contract_version matches Some(v) && v.contract@ == build.contract@ && v.version@
            == build.version@) ==> migrated(s, build, parent) == Ok::<Store, ContractError>(s),
        migrated(s, build, parent) is Ok ==> migrated(migrated(s, build, parent)->Ok_0, build, again)
            == Ok::<Store, ContractError>(migrated(s, build, parent)->Ok_0),
{
}

/// Records of the oldest layout, migrated without a parent, become a state with
/// the same counter and minimal donation and no countdown.
pub proof fn lemma_upgrade_from_0_1_0(s: Store, build: ContractVersion)
    requires
        s.contract_version matches Some(v) && v.contract@ == build.contract@ && v.version@
            != build.version@ && v.version@ == "0.1.0"@,
        s.legacy_counter is Some,
        s.legacy_minimal_donation is Some,
    ensures
        migrated(s, build, None) matches Ok(n) && n.contract_version == Some(build) && n.state
            == Some(
            State {
                counter: s.legacy_counter->Some_0,
                minimal_donation: s.legacy_minimal_donation->Some_0,
                donating_parent: None,
            },
        ) && n.owner == s.owner && n.parent_donation == s.parent_donation,
{
}

/// A state without countdown, migrated without a parent, keeps its counter and
/// minimal donation and gets no countdown.
pub proof fn lemma_upgrade_from_0_2_0(s: Store, build: ContractVersion)
    requires
        s.contract_version matches Some(v) && v.contract@ == build.contract@ && v.version@
            != build.version@ && v.version@ == "0.2.0"@,
        s.state is Some,
    ensures
        migrated(s, build, None) matches Ok(n) && n.contract_version == Some(build) && n.state
            == Some(
            State {
                counter: s.state->Some_0.counter,
                minimal_donation: s.state->Some_0.minimal_donation,
                donating_parent: None,
            },
        ) && n.owner == s.owner && n.parent_donation == s.parent_donation,
{
    assert("0.1.0"@ != "0.2.0"@) by {
        reveal_strlit("0.1.0");
        reveal_strlit("0.2.0");
        assert("0.1.0"@[2] != "0.2.0"@[2]);
    }
}

/// A recorded version that is neither the build's nor one with a known upgrade
/// is refused with that version named; [`migrate`] then leaves every record as
/// it was.
pub proof fn lemma_unknown_version_rejected(s: Store, build: ContractVersion, parent: Option<Parent>)
    requires
        s.contract_version matches Some(v) && v.contract@ == build.contract@ && v.version@
            != build.version@ && v.version@ != "0.1.0"@ && v.version@ != "0.2.0"@,
    ensures
        migrated(s, build, parent) == Err::<Store, ContractError>(
            ContractError::InvalidVersion(s.contract_version->Some_0.version),
        ),
{
}

} // verus!
