//! A minimal counting contract: a ledger state-transition core whose counter
//! advances only on qualifying donations, and whose accumulated balance can be
//! withdrawn only by the designated owner.
//!
//! The host runtime (storage persistence, balance queries, message
//! (de)serialization) is external; the handlers here work on a typed snapshot
//! of the persisted state and on plain values handed in by the host.

use vstd::prelude::*;

pub mod contract;
pub mod decimal;
pub mod error;
pub mod msg;
pub mod response;
pub mod state;

use crate::contract::balance_view;
use crate::contract::resp_result_view;
use crate::contract::spec_donate_result;
use crate::contract::spec_donate_state;
use crate::contract::spec_instantiate;
use crate::contract::spec_value;
use crate::contract::spec_withdraw;
use crate::contract::value_result_view;
use crate::error::ContractError;
use crate::error::ErrorView;
use crate::msg::ExecMsg;
use crate::msg::InstantiateMsg;
use crate::msg::MessageInfo;
use crate::msg::MessageInfoView;
use crate::msg::QueryMsg;
use crate::msg::ValueResp;
use crate::response::Response;
use crate::response::ResponseView;
use crate::state::Coin;
use crate::state::CoinView;
use crate::state::Storage;
use crate::state::StorageView;

verus! {

/// The state after a state-changing call is dispatched: only a donation ever
/// writes, and only the counter.
pub open spec fn spec_execute_state(
    s: StorageView,
    info: MessageInfoView,
    msg: ExecMsg,
) -> StorageView {
    match msg {
        ExecMsg::Donate {} => spec_donate_state(s, info),
        ExecMsg::Withdraw {} => s,
    }
}

/// The result of a state-changing call, per message kind.
pub open spec fn spec_execute_result(
    s: StorageView,
    info: MessageInfoView,
    balance: Result<Seq<CoinView>, Seq<char>>,
    msg: ExecMsg,
) -> Result<ResponseView, ErrorView> {
    match msg {
        ExecMsg::Donate {} => spec_donate_result(s, info),
        ExecMsg::Withdraw {} => spec_withdraw(s, info.sender, balance),
    }
}

/// Entry point for the host's one-time activation call.
pub fn instantiate(storage: &mut Storage, info: MessageInfo, msg: InstantiateMsg) -> (r: Result<
    Response,
    ContractError,
>)
    ensures
        final(storage)@ == spec_instantiate(info@.sender, msg.minimal_donation@),
        r matches Ok(resp) && resp@ == ResponseView::empty(),
{
    contract::instantiate(storage, info, msg)
}

/// Entry point for read-only queries. Answers with the typed response; the
/// host-facing layer owns its wire encoding.
pub fn query(storage: &Storage, msg: QueryMsg) -> (r: Result<ValueResp, ContractError>)
    ensures
        value_result_view(r) == spec_value(storage@),
{
    match msg {
        QueryMsg::Value {} => contract::value(storage),
    }
}

/// Entry point for state-changing calls. `balance` is the outcome of the
/// host's balance query for the contract's own address; only a withdrawal by
/// the stored owner ever looks at it.
pub fn execute(
    storage: &mut Storage,
    info: MessageInfo,
    balance: Result<Vec<Coin>, String>,
    msg: ExecMsg,
) -> (r: Result<Response, ContractError>)
    requires
        msg is Donate ==> (old(storage)@.counter matches Some(c) ==> c < u64::MAX),
    ensures
        final(storage)@ == spec_execute_state(old(storage)@, info@, msg),
        resp_result_view(r) == spec_execute_result(old(storage)@, info@, balance_view(balance), msg),
{
    match msg {
        ExecMsg::Donate {} => contract::donate(storage, info),
        ExecMsg::Withdraw {} => contract::withdraw(storage, info, balance),
    }
}

/// Law: a withdrawal call — by whoever, authorized or not — never writes the
/// state.
pub proof fn lemma_withdraw_writes_nothing(s: StorageView, info: MessageInfoView)
    ensures
        spec_execute_state(s, info, ExecMsg::Withdraw {}) == s,
{
}

/// Law: no state-changing call ever writes the threshold or the owner after
/// initialization, and none ever moves the counter backwards.
pub proof fn lemma_execute_preserves_invariants(
    s: StorageView,
    info: MessageInfoView,
    msg: ExecMsg,
)
    requires
        s.counter is Some ==> s.counter->Some_0 < u64::MAX,
    ensures
        spec_execute_state(s, info, msg).minimal_donation == s.minimal_donation,
        spec_execute_state(s, info, msg).owner == s.owner,
        spec_execute_state(s, info, msg).counter is Some <==> s.counter is Some,
        s.counter is Some ==> spec_execute_state(s, info, msg).counter->Some_0
            >= s.counter->Some_0,
{
    match msg {
        ExecMsg::Donate {} => contract::lemma_donate_step(s, info),
        ExecMsg::Withdraw {} => lemma_withdraw_writes_nothing(s, info),
    }
}

} // verus!
