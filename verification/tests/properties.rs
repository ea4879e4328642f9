//! Concrete checks of the contract's stated behaviour: qualification rules,
//! authorization, full-balance withdrawal, error reporting, and the decimal
//! rendering of the counter.

use counting_contract::contract::donate;
use counting_contract::contract::value;
use counting_contract::contract::withdraw;
use counting_contract::decimal::u64_to_decimal;
use counting_contract::error::ContractError;
use counting_contract::execute;
use counting_contract::instantiate;
use counting_contract::msg::ExecMsg;
use counting_contract::msg::InstantiateMsg;
use counting_contract::msg::MessageInfo;
use counting_contract::msg::QueryMsg;
use counting_contract::msg::ValueResp;
use counting_contract::query;
use counting_contract::state::Addr;
use counting_contract::state::Coin;
use counting_contract::state::Storage;

fn info(sender: &str, funds: Vec<Coin>) -> MessageInfo {
    MessageInfo { sender: Addr::unchecked(sender), funds }
}

fn fresh(owner: &str, threshold_amount: u128, threshold_denom: &str) -> Storage {
    let mut storage = Storage::new();
    instantiate(
        &mut storage,
        info(owner, vec![]),
        InstantiateMsg { minimal_donation: Coin::new(threshold_amount, threshold_denom) },
    )
    .unwrap();
    storage
}

fn counter(storage: &Storage) -> u64 {
    query(storage, QueryMsg::Value {}).unwrap().value
}

#[test]
fn value_after_initialization_is_zero() {
    let storage = fresh("owner", 10, "atom");
    assert_eq!(counter(&storage), 0);
}

#[test]
fn matching_entry_increments_counter_by_one() {
    let mut storage = fresh("owner", 10, "atom");
    // A matching entry among non-matching ones still qualifies.
    let funds = vec![Coin::new(1, "btc"), Coin::new(25, "atom")];
    donate(&mut storage, info("alice", funds)).unwrap();
    assert_eq!(counter(&storage), 1);
}

#[test]
fn exact_threshold_amount_qualifies() {
    let mut storage = fresh("owner", 10, "atom");
    donate(&mut storage, info("alice", vec![Coin::new(10, "atom")])).unwrap();
    assert_eq!(counter(&storage), 1);
}

#[test]
fn several_matching_entries_do_not_stack() {
    let mut storage = fresh("owner", 10, "atom");
    let funds = vec![Coin::new(10, "atom"), Coin::new(30, "atom")];
    donate(&mut storage, info("alice", funds)).unwrap();
    assert_eq!(counter(&storage), 1);
}

#[test]
fn zero_threshold_counts_every_call() {
    let mut storage = fresh("owner", 0, "atom");
    donate(&mut storage, info("alice", vec![])).unwrap();
    assert_eq!(counter(&storage), 1);
    donate(&mut storage, info("bob", vec![Coin::new(3, "btc")])).unwrap();
    assert_eq!(counter(&storage), 2);
}

#[test]
fn wrong_denomination_leaves_counter_unchanged() {
    let mut storage = fresh("owner", 10, "atom");
    let resp = donate(&mut storage, info("alice", vec![Coin::new(25, "btc")])).unwrap();
    assert_eq!(counter(&storage), 0);
    // A non-qualifying donation is a success reporting the unchanged counter.
    assert_eq!(resp.attributes[2].value, "0");
}

#[test]
fn too_small_amount_leaves_counter_unchanged() {
    let mut storage = fresh("owner", 10, "atom");
    donate(&mut storage, info("alice", vec![Coin::new(9, "atom")])).unwrap();
    assert_eq!(counter(&storage), 0);
}

#[test]
fn donate_response_attributes() {
    let mut storage = fresh("owner", 10, "atom");
    let resp = donate(&mut storage, info("alice", vec![Coin::new(10, "atom")])).unwrap();
    assert!(resp.messages.is_empty());
    assert_eq!(resp.attributes.len(), 3);
    assert_eq!(resp.attributes[0].key, "action");
    assert_eq!(resp.attributes[0].value, "donate");
    assert_eq!(resp.attributes[1].key, "sender");
    assert_eq!(resp.attributes[1].value, "alice");
    assert_eq!(resp.attributes[2].key, "counter");
    assert_eq!(resp.attributes[2].value, "1");
}

#[test]
fn unauthorized_withdrawal_names_owner_and_mutates_nothing() {
    let mut storage = fresh("owner", 10, "atom");
    donate(&mut storage, info("alice", vec![Coin::new(10, "atom")])).unwrap();

    let err = withdraw(
        &storage,
        info("alice", vec![]),
        Ok(vec![Coin::new(10, "atom")]),
    )
    .unwrap_err();
    assert_eq!(err, ContractError::Unauthorized { owner: "owner".to_string() });

    // The counter — and with it the whole state — is untouched.
    assert_eq!(counter(&storage), 1);
}

#[test]
fn owner_withdrawal_moves_entire_balance() {
    let storage = fresh("owner", 10, "atom");
    let balance = vec![Coin::new(15, "atom"), Coin::new(3, "btc")];
    let resp = withdraw(&storage, info("owner", vec![]), Ok(balance)).unwrap();

    assert_eq!(resp.messages.len(), 1);
    assert_eq!(resp.messages[0].to_address, "owner");
    assert_eq!(resp.messages[0].amount.len(), 2);
    assert_eq!(resp.messages[0].amount[0].denom, "atom");
    assert_eq!(resp.messages[0].amount[0].amount, 15);
    assert_eq!(resp.messages[0].amount[1].denom, "btc");
    assert_eq!(resp.messages[0].amount[1].amount, 3);

    assert_eq!(resp.attributes.len(), 2);
    assert_eq!(resp.attributes[0].key, "action");
    assert_eq!(resp.attributes[0].value, "withdraw");
    assert_eq!(resp.attributes[1].key, "sender");
    assert_eq!(resp.attributes[1].value, "owner");
}

#[test]
fn withdrawal_of_empty_balance_still_succeeds() {
    let storage = fresh("owner", 10, "atom");
    let resp = withdraw(&storage, info("owner", vec![]), Ok(vec![])).unwrap();
    assert_eq!(resp.messages.len(), 1);
    assert_eq!(resp.messages[0].to_address, "owner");
    assert!(resp.messages[0].amount.is_empty());
}

#[test]
fn balance_query_failure_is_passed_through() {
    let storage = fresh("owner", 10, "atom");
    let err = withdraw(
        &storage,
        info("owner", vec![]),
        Err("bank unavailable".to_string()),
    )
    .unwrap_err();
    assert_eq!(err, ContractError::Std { msg: "bank unavailable".to_string() });
}

#[test]
fn donate_before_initialization_reports_missing_entry() {
    let mut storage = Storage::new();
    let err = donate(&mut storage, info("alice", vec![])).unwrap_err();
    assert_eq!(err, ContractError::Std { msg: "minimal_donation not found".to_string() });
}

#[test]
fn value_before_initialization_reports_missing_entry() {
    let storage = Storage::new();
    let err = value(&storage).unwrap_err();
    assert_eq!(err, ContractError::Std { msg: "counter not found".to_string() });
}

#[test]
fn full_donation_and_withdrawal_round() {
    let mut storage = fresh("owner", 10, "atom");

    // Address A donates 10 atom: qualifies.
    execute(
        &mut storage,
        info("addr-a", vec![Coin::new(10, "atom")]),
        Err("no balance query was made".to_string()),
        ExecMsg::Donate {},
    )
    .unwrap();
    assert_eq!(query(&storage, QueryMsg::Value {}).unwrap(), ValueResp { value: 1 });

    // Address B donates 5 atom: below the threshold, the counter stays.
    execute(
        &mut storage,
        info("addr-b", vec![Coin::new(5, "atom")]),
        Err("no balance query was made".to_string()),
        ExecMsg::Donate {},
    )
    .unwrap();
    assert_eq!(query(&storage, QueryMsg::Value {}).unwrap(), ValueResp { value: 1 });

    // The owner withdraws the 10 atom the host holds for the contract.
    let mut owner_balance: u128 = 0;
    let mut contract_balance: u128 = 10;
    let resp = execute(
        &mut storage,
        info("owner", vec![]),
        Ok(vec![Coin::new(contract_balance, "atom")]),
        ExecMsg::Withdraw {},
    )
    .unwrap();
    assert_eq!(resp.messages.len(), 1);
    assert_eq!(resp.messages[0].to_address, "owner");
    for coin in resp.messages[0].amount.iter() {
        assert_eq!(coin.denom, "atom");
        owner_balance += coin.amount;
        contract_balance -= coin.amount;
    }
    assert_eq!(owner_balance, 10);
    assert_eq!(contract_balance, 0);

    // A withdrawal attempt by address A fails, naming the owner.
    let err = execute(
        &mut storage,
        info("addr-a", vec![]),
        Ok(vec![]),
        ExecMsg::Withdraw {},
    )
    .unwrap_err();
    assert_eq!(err, ContractError::Unauthorized { owner: "owner".to_string() });
}

#[test]
fn repeated_value_queries_answer_alike() {
    let mut storage = fresh("owner", 10, "atom");
    donate(&mut storage, info("alice", vec![Coin::new(10, "atom")])).unwrap();
    let first = query(&storage, QueryMsg::Value {}).unwrap();
    let second = query(&storage, QueryMsg::Value {}).unwrap();
    let third = query(&storage, QueryMsg::Value {}).unwrap();
    assert_eq!(first, second);
    assert_eq!(second, third);
    assert_eq!(third, ValueResp { value: 1 });
}

#[test]
fn decimal_rendering_is_exact() {
    assert_eq!(u64_to_decimal(0), "0");
    assert_eq!(u64_to_decimal(7), "7");
    assert_eq!(u64_to_decimal(10), "10");
    assert_eq!(u64_to_decimal(105), "105");
    assert_eq!(u64_to_decimal(9876543210), "9876543210");
    assert_eq!(u64_to_decimal(u64::MAX), "18446744073709551615");
}

#[test]
fn counter_attribute_follows_the_count() {
    let mut storage = fresh("owner", 0, "atom");
    let first = donate(&mut storage, info("alice", vec![])).unwrap();
    assert_eq!(first.attributes[2].value, "1");
    let second = donate(&mut storage, info("alice", vec![])).unwrap();
    assert_eq!(second.attributes[2].value, "2");
}
