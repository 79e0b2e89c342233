use std::collections::BTreeMap;

use counting_contract::coin::{Coin, Decimal};
use counting_contract::contract::{execute, instantiate, query};
use counting_contract::error::ContractError;
use counting_contract::migration::migrate;
use counting_contract::msg::{CosmosMsg, ExecMsg, InstantiateMsg, Parent, QueryMsg, ValueResp};
use counting_contract::state::{ContractVersion, State, Store};

const ATOM: &str = "atom";

fn coins(amount: u128, denom: &str) -> Vec<Coin> {
    vec![Coin::new(amount, denom)]
}

fn build() -> ContractVersion {
    ContractVersion::new("counting-contract", "0.3.0")
}

/// Plays the host: holds the balances and the instances, and carries out the
/// transfers that a call requests once it succeeded.
#[derive(Clone)]
struct Chain {
    balances: BTreeMap<String, Vec<Coin>>,
    contracts: BTreeMap<String, Store>,
}

impl Chain {
    fn new() -> Chain {
        Chain { balances: BTreeMap::new(), contracts: BTreeMap::new() }
    }

    fn init_balance(&mut self, addr: &str, funds: Vec<Coin>) {
        self.balances.insert(addr.to_string(), funds);
    }

    fn balance(&self, addr: &str) -> Vec<Coin> {
        self.balances.get(addr).cloned().unwrap_or_default()
    }

    fn transfer(&mut self, from: &str, to: &str, funds: &[Coin]) {
        for coin in funds {
            let source = self.balances.entry(from.to_string()).or_default();
            let held = source.iter_mut().find(|c| c.denom == coin.denom).expect("no such denom");
            assert!(held.amount >= coin.amount, "insufficient funds");
            held.amount -= coin.amount;
            source.retain(|c| c.amount > 0);
            let target = self.balances.entry(to.to_string()).or_default();
            match target.iter_mut().find(|c| c.denom == coin.denom) {
                Some(c) => c.amount += coin.amount,
                None => {
                    target.push(coin.clone());
                    target.sort_by(|a, b| a.denom.cmp(&b.denom));
                }
            }
        }
    }

    fn instantiate(&mut self, addr: &str, sender: &str, minimal_donation: Coin, parent: Option<Parent>) {
        let mut store = Store::new();
        let msg = InstantiateMsg { minimal_donation, parent };
        let resp = instantiate(&mut store, &sender.to_string(), msg, &build());
        assert!(resp.messages.is_empty());
        self.contracts.insert(addr.to_string(), store);
    }

    fn execute(&mut self, contract: &str, sender: &str, msg: ExecMsg, funds: &[Coin]) -> Result<(), ContractError> {
        let saved = self.clone();
        let result = self.execute_inner(contract, sender, msg, funds);
        if result.is_err() {
            *self = saved;
        }
        result
    }

    fn execute_inner(&mut self, contract: &str, sender: &str, msg: ExecMsg, funds: &[Coin]) -> Result<(), ContractError> {
        self.transfer(sender, contract, funds);
        let balance = self.balance(contract);
        let store = self.contracts.get_mut(contract).expect("no such contract");
        let resp = execute(store, &sender.to_string(), msg, &funds.to_vec(), balance)?;
        for m in resp.messages {
            match m {
                CosmosMsg::BankSend { to_address, amount } => self.transfer(contract, &to_address, &amount),
                CosmosMsg::ExecuteDonate { contract_addr, funds } => {
                    self.execute_inner(&contract_addr, contract, ExecMsg::Donate {}, &funds)?
                }
            }
        }
        Ok(())
    }

    fn query_value(&self, contract: &str) -> Result<ValueResp, ContractError> {
        query(&self.contracts[contract], QueryMsg::Value {})
    }
}

#[test]
fn tests_query_value() {
    let mut chain = Chain::new();
    chain.instantiate("contract0", "sender", Coin::new(10, ATOM), None);
    let resp = chain.query_value("contract0").unwrap();
    assert_eq!(resp.value, 0);
}

#[test]
fn tests_donate() {
    let mut chain = Chain::new();
    chain.instantiate("contract0", "sender", Coin::new(10, ATOM), None);
    chain.execute("contract0", "sender", ExecMsg::Donate {}, &[]).unwrap();
    let resp = chain.query_value("contract0").unwrap();
    assert_eq!(resp.value, 0);
}

#[test]
fn tests_donate_with_funds() {
    let mut chain = Chain::new();
    chain.init_balance("sender", coins(10, ATOM));
    chain.instantiate("contract0", "sender", Coin::new(10, ATOM), None);
    chain.execute("contract0", "sender", ExecMsg::Donate {}, &coins(10, ATOM)).unwrap();
    let resp = chain.query_value("contract0").unwrap();
    assert_eq!(resp.value, 1);
    assert_eq!(chain.balance("sender"), vec![]);
    assert_eq!(chain.balance("contract0"), coins(10, ATOM));
}

#[test]
fn withdraw() {
    let mut chain = Chain::new();
    chain.init_balance("sender1", coins(10, ATOM));
    chain.init_balance("sender2", coins(5, ATOM));
    chain.instantiate("contract0", "owner", Coin::new(10, ATOM), None);
    chain.execute("contract0", "sender1", ExecMsg::Donate {}, &coins(10, ATOM)).unwrap();
    chain.execute("contract0", "sender2", ExecMsg::Donate {}, &coins(5, ATOM)).unwrap();
    chain.execute("contract0", "owner", ExecMsg::Withdraw {}, &[]).unwrap();
    assert_eq!(chain.balance("owner"), coins(15, ATOM));
    assert_eq!(chain.balance("contract0"), vec![]);
    assert_eq!(chain.balance("sender1"), vec![]);
    assert_eq!(chain.balance("sender2"), vec![]);
}

#[test]
fn unauthorized_withdraw() {
    let mut chain = Chain::new();
    chain.instantiate("contract0", "owner", Coin::new(10, ATOM), None);
    let err = chain.execute("contract0", "member", ExecMsg::Withdraw {}, &[]).unwrap_err();
    assert_eq!(err, ContractError::Unauthorized { owner: "owner".into() });
}

/// The records that the oldest build leaves after instantiation by `owner`.
fn store_0_1_0(owner: &str, counter: u64, minimal_donation: Coin) -> Store {
    let mut store = Store::new();
    store.contract_version = Some(ContractVersion::new("counting-contract", "0.1.0"));
    store.legacy_counter = Some(counter);
    store.legacy_minimal_donation = Some(minimal_donation);
    store.owner = Some(owner.to_string());
    store
}

#[test]
fn migration() {
    let mut chain = Chain::new();
    chain.init_balance("sender", coins(10, ATOM));
    // The oldest build counted the donation under its own counter record.
    chain.contracts.insert("contract0".to_string(), store_0_1_0("owner", 0, Coin::new(10, ATOM)));
    chain.transfer("sender", "contract0", &coins(10, ATOM));
    chain.contracts.get_mut("contract0").unwrap().legacy_counter = Some(1);

    let store = chain.contracts.get_mut("contract0").unwrap();
    migrate(store, &build(), None).unwrap();

    let resp = chain.query_value("contract0").unwrap();
    assert_eq!(resp.value, 1);

    let state = chain.contracts["contract0"].state.clone().unwrap();
    assert_eq!(
        state,
        State { counter: 1, minimal_donation: Coin::new(10, ATOM), donating_parent: None }
    );
}

#[test]
fn migration_no_update() {
    let mut chain = Chain::new();
    chain.instantiate("contract0", "owner", Coin::new(10, ATOM), None);
    let store = chain.contracts.get_mut("contract0").unwrap();
    migrate(store, &build(), None).unwrap();
}

#[test]
fn donating_parent() {
    let mut chain = Chain::new();
    chain.init_balance("sender", coins(20, ATOM));
    chain.instantiate("contract0", "owner", Coin::new(10, ATOM), None);
    chain.instantiate(
        "contract1",
        "owner",
        Coin::new(10, ATOM),
        Some(Parent { addr: "contract0".to_string(), donating_period: 2, part: Decimal::percent(10) }),
    );

    chain.execute("contract1", "sender", ExecMsg::Donate {}, &coins(10, ATOM)).unwrap();

    assert_eq!(chain.balance("sender"), coins(10, ATOM));
    assert_eq!(chain.balance("contract1"), coins(10, ATOM));
    assert_eq!(chain.balance("contract0"), vec![]);
    assert_eq!(chain.balance("owner"), vec![]);

    chain.execute("contract1", "sender", ExecMsg::Donate {}, &coins(10, ATOM)).unwrap();

    assert_eq!(chain.balance("sender"), vec![]);
    assert_eq!(chain.balance("contract1"), coins(18, ATOM));
    assert_eq!(chain.balance("contract0"), coins(2, ATOM));
    assert_eq!(chain.balance("owner"), vec![]);
}

#[test]
fn lib_query_value() {
    let mut chain = Chain::new();
    chain.instantiate("contract0", "sender", Coin::new(10, ATOM), None);
    let resp = chain.query_value("contract0").unwrap();
    assert_eq!(resp, ValueResp { value: 0 });
}

#[test]
fn lib_donate() {
    let mut chain = Chain::new();
    chain.instantiate("contract0", "sender", Coin::new(10, ATOM), None);
    chain.execute("contract0", "sender", ExecMsg::Donate {}, &[]).unwrap();
    let resp = chain.query_value("contract0").unwrap();
    assert_eq!(resp, ValueResp { value: 0 });
}

#[test]
fn lib_donate_with_funds() {
    let mut chain = Chain::new();
    chain.init_balance("sender", coins(10, ATOM));
    chain.instantiate("contract0", "sender", Coin::new(10, ATOM), None);
    chain.execute("contract0", "sender", ExecMsg::Donate {}, &coins(10, ATOM)).unwrap();
    let resp = chain.query_value("contract0").unwrap();
    assert_eq!(resp, ValueResp { value: 1 });
    assert_eq!(chain.balance("sender"), vec![]);
    assert_eq!(chain.balance("contract0"), coins(10, ATOM));
}
