use vstd::prelude::*;
use crate::coin::{any_meets, forward_amounts, forwarded, has_qualifying, Coin};
use crate::error::{ContractError, Record};
use crate::migration::with_state;
use crate::msg::{valid_parent, CosmosMsg, ExecMsg, InstantiateMsg, QueryMsg, Response, ValueResp};
use crate::state::{ContractVersion, ParentDonation, State, Store};

verus! {

/// The countdown after one qualifying donation: one less, or back to the
/// period of `pd` where it reaches zero.
pub open spec fn next_countdown(countdown: Option<u32>, pd: Option<ParentDonation>) -> Option<u32> {
    match countdown {
        Some(n) => if n == 1 {
            Some(pd->Some_0.donating_parent_period)
        } else {
            Some((n - 1) as u32)
        },
        None => None,
    }
}

/// The state after one qualifying donation.
pub open spec fn counted(s: State, pd: Option<ParentDonation>) -> State {
    State {
        counter: (s.counter + 1) as u64,
        minimal_donation: s.minimal_donation,
        donating_parent: next_countdown(s.donating_parent, pd),
    }
}

/// A qualifying donation on `s` forwards to the parent.
pub open spec fn fires(s: State) -> bool {
    s.donating_parent == Some(1u32)
}

/// What a donation of `funds` does to the records `old`, giving `new` and `r`,
/// where the instance holds `balance`.
pub open spec fn donation(
    old: Store,
    new: Store,
    funds: Seq<Coin>,
    balance: Seq<Coin>,
    r: Result<Response, ContractError>,
) -> bool {
    match old.state {
        None => r == Err::<Response, ContractError>(ContractError::NotFound(Record::State)) && new
            == old,
        Some(s) => r is Ok && if !any_meets(funds, s.minimal_donation) {
            &&& new == old
            &&& r->Ok_0.messages@.len() == 0
        } else {
            let pd = old.parent_donation->Some_0;
            let fw = forwarded(balance, pd.part);
            &&& new == (Store { state: Some(counted(s, old.parent_donation)), ..old })
            &&& !fires(s) ==> r->Ok_0.messages@.len() == 0
            &&& fires(s) ==> r->Ok_0.messages@.len() == (if fw.len() > 0 {
                1int
            } else {
                0int
            })
            &&& fires(s) && fw.len() > 0 ==> (r->Ok_0.messages@[0] matches CosmosMsg::ExecuteDonate {
                contract_addr,
                funds,
            } && contract_addr == pd.address && funds@ == fw)
        },
    }
}

/// A donation of `funds` to `s` would count, and the counter has room for it.
pub open spec fn counter_has_room(s: Store, funds: Seq<Coin>) -> bool {
    (s.state matches Some(st) && any_meets(funds, st.minimal_donation)) ==> s.state->Some_0.counter
        < u64::MAX
}

/// Counts a donation of `funds`, and forwards a share of `balance` to the parent
/// when the countdown reaches zero.
///
/// `balance` is everything the instance holds at the time of the call, the
/// attached funds included.
pub fn donate(store: &mut Store, funds: &Vec<Coin>, balance: &Vec<Coin>) -> (r: Result<
    Response,
    ContractError,
>)
    requires
        old(store).wf(),
        counter_has_room(*old(store), funds@),
    ensures
        final(store).wf(),
        donation(*old(store), *final(store), funds@, balance@, r),
{
    let (counter, countdown, minimal_donation, qualifies) = match &store.state {
        None => return Err(ContractError::NotFound(Record::State)),
        Some(s) => (
            s.counter,
            s.donating_parent,
            s.minimal_donation.duplicate(),
            has_qualifying(funds, &s.minimal_donation),
        ),
    };
    let mut resp = Response::new();
    if !qualifies {
        return Ok(resp);
    }
    let next = match countdown {
        None => None,
        Some(n) => {
            if n == 1 {
                match &store.parent_donation {
                    None => return Err(ContractError::NotFound(Record::ParentDonation)),
                    Some(pd) => {
                        let fw = forward_amounts(balance, pd.part);
                        if fw.len() > 0 {
                            resp.messages.push(
                                CosmosMsg::ExecuteDonate { contract_addr: pd.address.clone(), funds: fw },
                            );
                        }
                        Some(pd.donating_parent_period)
                    },
                }
            } else {
                Some(n - 1)
            }
        },
    };
    store.state = Some(State { counter: counter + 1, minimal_donation, donating_parent: next });
    Ok(resp)
}

/// What a withdrawal by `sender` requests where the instance holds `balance`: a
/// single transfer of all of it to the owner, or the error.
pub open spec fn withdrawal(s: Store, sender: String, balance: Vec<Coin>) -> Result<
    Seq<CosmosMsg>,
    ContractError,
> {
    match s.owner {
        None => Err(ContractError::NotFound(Record::Owner)),
        Some(owner) => if sender@ != owner@ {
            Err(ContractError::Unauthorized { owner })
        } else {
            Ok(seq![CosmosMsg::BankSend { to_address: owner, amount: balance }])
        },
    }
}

/// `r` is what [`withdrawal`] gives.
pub open spec fn withdrawn(
    s: Store,
    sender: String,
    balance: Vec<Coin>,
    r: Result<Response, ContractError>,
) -> bool {
    match withdrawal(s, sender, balance) {
        Ok(m) => r is Ok && r->Ok_0.messages@ == m,
        Err(e) => r == Err::<Response, ContractError>(e),
    }
}

/// The records that instantiation by `sender` writes over `s`.
pub open spec fn instantiated(
    s: Store,
    sender: String,
    msg: InstantiateMsg,
    build: ContractVersion,
) -> Store {
    Store {
        contract_version: Some(build),
        owner: Some(sender),
        ..with_state(s, 0, msg.minimal_donation, msg.parent)
    }
}

/// Records a new instance owned by `sender`, with its counter at zero, and
/// `build` as its name and version.
pub fn instantiate(
    store: &mut Store,
    sender: &String,
    msg: InstantiateMsg,
    build: &ContractVersion,
) -> (r: Response)
    requires
        old(store).wf(),
        valid_parent(msg.parent),
    ensures
        final(store).wf(),
        *final(store) == instantiated(*old(store), *sender, msg, *build),
        r.messages@.len() == 0,
{
    let donating_parent = match &msg.parent {
        Some(p) => Some(p.donating_period),
        None => None,
    };
    store.contract_version = Some(build.duplicate());
    store.state = Some(
        State { counter: 0, minimal_donation: msg.minimal_donation, donating_parent },
    );
    store.owner = Some(sender.clone());
    match msg.parent {
        Some(p) => {
            store.parent_donation = Some(ParentDonation::from_parent(p));
        },
        None => {},
    }
    Response::new()
}

/// Succeeds, with the owner, exactly where `sender` is the owner.
pub fn require_owner(store: &Store, sender: &String) -> (r: Result<String, ContractError>)
    ensures
        match store.owner {
            None => r == Err::<String, ContractError>(ContractError::NotFound(Record::Owner)),
            Some(owner) => if sender@ == owner@ {
                r == Ok::<String, ContractError>(owner)
            } else {
                r == Err::<String, ContractError>(ContractError::Unauthorized { owner })
            },
        },
{
    match &store.owner {
        None => Err(ContractError::NotFound(Record::Owner)),
        Some(owner) => {
            if *sender != *owner {
                Err(ContractError::Unauthorized { owner: owner.clone() })
            } else {
                Ok(owner.clone())
            }
        },
    }
}

/// Sends everything the instance holds, `balance`, to the owner; only the owner
/// may ask.
pub fn withdraw(store: &Store, sender: &String, balance: Vec<Coin>) -> (r: Result<
    Response,
    ContractError,
>)
    ensures
        withdrawn(*store, *sender, balance, r),
{
    let owner = match require_owner(store, sender) {
        Ok(o) => o,
        Err(e) => return Err(e),
    };
    let msg = CosmosMsg::BankSend { to_address: owner, amount: balance };
    let mut resp = Response::new();
    resp.messages.push(msg);
    assert(resp.messages@ =~= seq![msg]);
    Ok(resp)
}

/// The current counter.
pub fn value(store: &Store) -> (r: Result<ValueResp, ContractError>)
    ensures
        match store.state {
            None => r == Err::<ValueResp, ContractError>(ContractError::NotFound(Record::State)),
            Some(s) => r == Ok::<ValueResp, ContractError>(ValueResp { value: s.counter }),
        },
{
    match &store.state {
        None => Err(ContractError::NotFound(Record::State)),
        Some(s) => Ok(ValueResp { value: s.counter }),
    }
}

/// Runs `msg` sent by `sender` with `funds` attached, where the instance holds
/// `balance`, the attached funds included.
pub fn execute(
    store: &mut Store,
    sender: &String,
    msg: ExecMsg,
    funds: &Vec<Coin>,
    balance: Vec<Coin>,
) -> (r: Result<Response, ContractError>)
    requires
        old(store).wf(),
        msg is Donate ==> counter_has_room(*old(store), funds@),
    ensures
        final(store).wf(),
        msg is Donate ==> donation(*old(store), *final(store), funds@, balance@, r),
        msg is Withdraw ==> *final(store) == *old(store),
        msg is Withdraw ==> withdrawn(*old(store), *sender, balance, r),
{
    match msg {
        ExecMsg::Donate {} => donate(store, funds, &balance),
        ExecMsg::Withdraw {} => withdraw(store, sender, balance),
    }
}

/// Answers `msg`.
pub fn query(store: &Store, msg: QueryMsg) -> (r: Result<ValueResp, ContractError>)
    ensures
        match store.state {
            None => r == Err::<ValueResp, ContractError>(ContractError::NotFound(Record::State)),
            Some(s) => r == Ok::<ValueResp, ContractError>(ValueResp { value: s.counter }),
        },
{
    match msg {
        QueryMsg::Value {} => value(store),
    }
}

/// A donation with a qualifying entry succeeds and adds exactly one to the
/// counter, whatever other entries come with it.
pub proof fn lemma_qualifying_donation_counts_once(
    old: Store,
    new: Store,
    funds: Seq<Coin>,
    balance: Seq<Coin>,
    r: Result<Response, ContractError>,
)
    requires
        old.wf(),
        counter_has_room(old, funds),
        donation(old, new, funds, balance, r),
        old.state matches Some(s) && any_meets(funds, s.minimal_donation),
    ensures
        r is Ok,
        new.state is Some,
        new.state->Some_0.counter == old.state->Some_0.counter + 1,
{
}

/// A donation without a qualifying entry succeeds, changes nothing and requests
/// no transfer.
pub proof fn lemma_unqualified_donation_changes_nothing(
    old: Store,
    new: Store,
    funds: Seq<Coin>,
    balance: Seq<Coin>,
    r: Result<Response, ContractError>,
)
    requires
        donation(old, new, funds, balance, r),
        old.state matches Some(s) && !any_meets(funds, s.minimal_donation),
    ensures
        r is Ok,
        new == old,
        r->Ok_0.messages@.len() == 0,
{
}

/// A withdrawal by anyone but the owner fails with the owner named, and so
/// requests no transfer.
pub proof fn lemma_only_owner_withdraws(s: Store, sender: String, balance: Vec<Coin>)
    requires
        s.owner matches Some(owner) && sender@ != owner@,
    ensures
        withdrawal(s, sender, balance) == Err::<Seq<CosmosMsg>, ContractError>(
            ContractError::Unauthorized { owner: s.owner->Some_0 },
        ),
{
}

/// A single transfer that carries no coins.
pub open spec fn sends_nothing(r: Result<Seq<CosmosMsg>, ContractError>) -> bool {
    &&& r is Ok
    &&& r->Ok_0.len() == 1
    &&& r->Ok_0[0] is BankSend
    &&& r->Ok_0[0]->BankSend_amount@.len() == 0
}

/// A withdrawal by the owner requests exactly one transfer, of everything held,
/// to the owner; with nothing held it still succeeds, and the transfer carries
/// nothing.
pub proof fn lemma_owner_withdraws_everything(s: Store, balance: Vec<Coin>)
    requires
        s.owner is Some,
    ensures
        withdrawal(s, s.owner->Some_0, balance) == Ok::<Seq<CosmosMsg>, ContractError>(
            seq![CosmosMsg::BankSend { to_address: s.owner->Some_0, amount: balance }],
        ),
        balance@.len() == 0 ==> sends_nothing(withdrawal(s, s.owner->Some_0, balance)),
{
}

} // verus!
