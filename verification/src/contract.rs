//! The state-transition core: the initializer, the two execution handlers and
//! the read-only query, each specified against a mathematical transition
//! function over the state snapshot.

use vstd::prelude::*;

use crate::decimal::dec_str;
use crate::decimal::u64_to_decimal;
use crate::error::ContractError;
use crate::error::ErrorView;
use crate::error::not_found_msg;
use crate::msg::InstantiateMsg;
use crate::msg::MessageInfo;
use crate::msg::MessageInfoView;
use crate::msg::ValueResp;
use crate::response::AttributeView;
use crate::response::BankMsgSend;
use crate::response::BankMsgSendView;
use crate::response::Response;
use crate::response::ResponseView;
use crate::state::Coin;
use crate::state::CoinView;
use crate::state::Storage;
use crate::state::StorageView;

verus! {

/// Whether one attached coin satisfies the donation threshold: same
/// denomination, and at least the threshold amount.
pub open spec fn coin_matches(threshold: CoinView, c: CoinView) -> bool {
    c.denom == threshold.denom && c.amount >= threshold.amount
}

/// Whether a donation call qualifies to advance the counter: a zero threshold
/// amount lets every call qualify; otherwise some attached entry must match
/// the threshold. Qualification is boolean — several matching entries do not
/// stack.
pub open spec fn spec_qualifies(threshold: CoinView, funds: Seq<CoinView>) -> bool {
    threshold.amount == 0 || exists|i: int|
        0 <= i < funds.len() && coin_matches(threshold, #[trigger] funds[i])
}

/// The state written by the initializer: counter zero, the given threshold,
/// and the caller as owner.
pub open spec fn spec_instantiate(sender: Seq<char>, threshold: CoinView) -> StorageView {
    StorageView {
        counter: Some(0u64),
        minimal_donation: Some(threshold),
        owner: Some(sender),
    }
}

/// The state after a donation call: the counter advances by exactly one on a
/// qualifying call and is untouched otherwise; the threshold and the owner are
/// never written. A call that fails (an entry is missing) leaves the state as
/// it was.
pub open spec fn spec_donate_state(s: StorageView, info: MessageInfoView) -> StorageView {
    match (s.minimal_donation, s.counter) {
        (Some(threshold), Some(c)) => if spec_qualifies(threshold, info.funds) {
            StorageView { counter: Some((c + 1) as u64), ..s }
        } else {
            s
        },
        _ => s,
    }
}

/// The result of a donation call: a storage error when an entry the handler
/// loads is absent; otherwise a response with no transfer instruction whose
/// attributes name the action, the caller, and the counter as it stands after
/// the call (a non-qualifying donation reports the unchanged counter).
pub open spec fn spec_donate_result(s: StorageView, info: MessageInfoView) -> Result<
    ResponseView,
    ErrorView,
> {
    match (s.minimal_donation, s.counter) {
        (None, _) => Err(ErrorView::Std { msg: not_found_msg("minimal_donation"@) }),
        (Some(_), None) => Err(ErrorView::Std { msg: not_found_msg("counter"@) }),
        (Some(threshold), Some(c)) => {
            let reported: u64 = if spec_qualifies(threshold, info.funds) {
                (c + 1) as u64
            } else {
                c
            };
            Ok(
                ResponseView {
                    messages: Seq::empty(),
                    attributes: seq![
                        AttributeView { key: "action"@, value: "donate"@ },
                        AttributeView { key: "sender"@, value: info.sender },
                        AttributeView { key: "counter"@, value: dec_str(reported as nat) },
                    ],
                },
            )
        },
    }
}

/// The result of a withdrawal call. Authorization comes first: a caller other
/// than the stored owner is turned away with `Unauthorized` naming the owner,
/// whatever the balance query would say. For the owner, a failed balance query
/// is passed through verbatim; otherwise the response carries exactly one
/// transfer instruction moving the entire queried balance — possibly empty —
/// to the owner.
pub open spec fn spec_withdraw(
    s: StorageView,
    sender: Seq<char>,
    balance: Result<Seq<CoinView>, Seq<char>>,
) -> Result<ResponseView, ErrorView> {
    match s.owner {
        None => Err(ErrorView::Std { msg: not_found_msg("owner"@) }),
        Some(owner) => if sender != owner {
            Err(ErrorView::Unauthorized { owner })
        } else {
            match balance {
                Err(msg) => Err(ErrorView::Std { msg }),
                Ok(funds) => Ok(
                    ResponseView {
                        messages: seq![BankMsgSendView { to_address: owner, amount: funds }],
                        attributes: seq![
                            AttributeView { key: "action"@, value: "withdraw"@ },
                            AttributeView { key: "sender"@, value: sender },
                        ],
                    },
                ),
            }
        },
    }
}

/// The result of the value query: the counter as persisted, or a storage
/// error when it was never written.
pub open spec fn spec_value(s: StorageView) -> Result<u64, ErrorView> {
    match s.counter {
        Some(c) => Ok(c),
        None => Err(ErrorView::Std { msg: not_found_msg("counter"@) }),
    }
}

/// The mathematical value of a handler result.
pub open spec fn resp_result_view(r: Result<Response, ContractError>) -> Result<
    ResponseView,
    ErrorView,
> {
    match r {
        Ok(resp) => Ok(resp@),
        Err(e) => Err(e@),
    }
}

/// The mathematical value of a value-query result.
pub open spec fn value_result_view(r: Result<ValueResp, ContractError>) -> Result<
    u64,
    ErrorView,
> {
    match r {
        Ok(resp) => Ok(resp.value),
        Err(e) => Err(e@),
    }
}

/// The mathematical value of a balance-query outcome.
pub open spec fn balance_view(b: Result<Vec<Coin>, String>) -> Result<Seq<CoinView>, Seq<char>> {
    match b {
        Ok(funds) => Ok(funds.deep_view()),
        Err(msg) => Err(msg@),
    }
}

/// One-time setup: writes counter, threshold and owner in one batch and
/// answers with an empty response. No other handler ever writes the threshold
/// or the owner.
pub fn instantiate(storage: &mut Storage, info: MessageInfo, msg: InstantiateMsg) -> (r: Result<
    Response,
    ContractError,
>)
    ensures
        final(storage)@ == spec_instantiate(info@.sender, msg.minimal_donation@),
        r matches Ok(resp) && resp@ == ResponseView::empty(),
{
    let ghost sender = info.sender@;
    let ghost threshold = msg.minimal_donation@;
    storage.save_counter(0);
    storage.save_minimal_donation(msg.minimal_donation);
    storage.save_owner(info.sender);
    proof {
        assert(storage@ =~= spec_instantiate(sender, threshold));
    }
    Ok(Response::new())
}

/// Whether the attached funds satisfy the threshold.
fn donation_qualifies(threshold: &Coin, funds: &Vec<Coin>) -> (b: bool)
    ensures
        b == spec_qualifies(threshold@, funds.deep_view()),
{
    if threshold.amount == 0 {
        return true;
    }
    let mut i: usize = 0;
    while i < funds.len()
        invariant
            i <= funds.len(),
            forall|j: int| 0 <= j < i ==> !coin_matches(threshold@, #[trigger] funds.deep_view()[j]),
        decreases funds.len() - i,
    {
        let c = &funds[i];
        if c.denom == threshold.denom && c.amount >= threshold.amount {
            proof {
                assert(coin_matches(threshold@, funds.deep_view()[i as int]));
            }
            return true;
        }
        i = i + 1;
    }
    false
}

/// The donation handler: loads the threshold and the counter, advances the
/// counter by one exactly when the call qualifies, and reports the action, the
/// caller and the resulting counter. A non-qualifying donation is a success
/// with no counter change, not a failure.
pub fn donate(storage: &mut Storage, info: MessageInfo) -> (r: Result<Response, ContractError>)
    requires
        old(storage)@.counter matches Some(c) ==> c < u64::MAX,
    ensures
        final(storage)@ == spec_donate_state(old(storage)@, info@),
        resp_result_view(r) == spec_donate_result(old(storage)@, info@),
{
    let qualified = match storage.load_minimal_donation() {
        Ok(threshold) => donation_qualifies(threshold, &info.funds),
        Err(e) => return Err(e),
    };
    let value = match storage.load_counter() {
        Ok(v) => v,
        Err(e) => return Err(e),
    };
    let new_value = if qualified {
        value + 1
    } else {
        value
    };
    if qualified {
        storage.save_counter(new_value);
    }
    let counter_text = u64_to_decimal(new_value);
    let resp = Response::new()
        .add_attribute("action", "donate")
        .add_attribute("sender", info.sender.as_str())
        .add_attribute("counter", counter_text.as_str());
    proof {
        assert(storage@ =~= spec_donate_state(old(storage)@, info@));
        let expected = spec_donate_result(old(storage)@, info@);
        assert(expected is Ok);
        assert(resp@ =~~= expected->Ok_0);
    }
    Ok(resp)
}

/// The withdrawal handler: only the stored owner may call it; everyone else is
/// turned away with `Unauthorized` naming the owner, before the balance
/// outcome is even looked at. For the owner it issues exactly one instruction
/// moving the entire queried balance to the owner — an empty balance still
/// succeeds with an empty transfer. The state is never written.
pub fn withdraw(storage: &Storage, info: MessageInfo, balance: Result<Vec<Coin>, String>) -> (r:
    Result<Response, ContractError>)
    ensures
        resp_result_view(r) == spec_withdraw(storage@, info@.sender, balance_view(balance)),
{
    let ghost bv = balance_view(balance);
    let owner = match storage.load_owner() {
        Ok(o) => o,
        Err(e) => return Err(e),
    };
    if !(info.sender.0 == owner.0) {
        return Err(ContractError::Unauthorized { owner: owner.0.clone() });
    }
    match balance {
        Ok(funds) => {
            let bank_msg = BankMsgSend { to_address: owner.0.clone(), amount: funds };
            let resp = Response::new()
                .add_message(bank_msg)
                .add_attribute("action", "withdraw")
                .add_attribute("sender", info.sender.as_str());
            proof {
                let expected = spec_withdraw(storage@, info@.sender, bv);
                assert(expected is Ok);
                assert(resp@ =~~= expected->Ok_0);
            }
            Ok(resp)
        },
        Err(msg) => Err(ContractError::Std { msg }),
    }
}

/// The read-only projection of the counter. Any caller may query it; it
/// writes nothing, so repeated queries of one state answer alike.
pub fn value(storage: &Storage) -> (r: Result<ValueResp, ContractError>)
    ensures
        value_result_view(r) == spec_value(storage@),
{
    match storage.load_counter() {
        Ok(v) => Ok(ValueResp { value: v }),
        Err(e) => Err(e),
    }
}

/// Law: right after initialization the value query answers zero, whatever the
/// caller and threshold were.
pub proof fn lemma_value_after_instantiate(sender: Seq<char>, threshold: CoinView)
    ensures
        spec_value(spec_instantiate(sender, threshold)) == Ok::<u64, ErrorView>(0u64),
{
}

/// Law: a donation whose attached funds hold an entry of the threshold
/// denomination with at least the threshold amount advances the counter by
/// exactly one.
pub proof fn lemma_matching_donation_increments(s: StorageView, info: MessageInfoView, i: int)
    requires
        s.initialized(),
        s.counter->Some_0 < u64::MAX,
        0 <= i < info.funds.len(),
        info.funds[i].denom == s.minimal_donation->Some_0.denom,
        info.funds[i].amount >= s.minimal_donation->Some_0.amount,
    ensures
        spec_donate_state(s, info).counter == Some((s.counter->Some_0 + 1) as u64),
{
    assert(coin_matches(s.minimal_donation->Some_0, info.funds[i]));
}

/// Law: with a zero threshold amount every donation call advances the counter
/// by exactly one, whatever funds are attached — also none at all.
pub proof fn lemma_zero_threshold_increments(s: StorageView, info: MessageInfoView)
    requires
        s.initialized(),
        s.counter->Some_0 < u64::MAX,
        s.minimal_donation->Some_0.amount == 0,
    ensures
        spec_donate_state(s, info).counter == Some((s.counter->Some_0 + 1) as u64),
{
}

/// Law: a donation with a positive threshold amount and no attached entry that
/// matches it leaves the state — counter included — exactly as it was, and is
/// still a success, not a failure.
pub proof fn lemma_non_qualifying_donation_unchanged(s: StorageView, info: MessageInfoView)
    requires
        s.initialized(),
        s.minimal_donation->Some_0.amount > 0,
        forall|i: int|
            0 <= i < info.funds.len() ==> !coin_matches(
                s.minimal_donation->Some_0,
                #[trigger] info.funds[i],
            ),
    ensures
        spec_donate_state(s, info) == s,
        spec_donate_result(s, info) is Ok,
{
}

/// Law: one donation call moves the counter by zero or one, never more and
/// never backwards, and writes neither the threshold nor the owner.
pub proof fn lemma_donate_step(s: StorageView, info: MessageInfoView)
    requires
        s.counter is Some ==> s.counter->Some_0 < u64::MAX,
    ensures
        spec_donate_state(s, info).minimal_donation == s.minimal_donation,
        spec_donate_state(s, info).owner == s.owner,
        spec_donate_state(s, info).counter == s.counter || spec_donate_state(s, info).counter
            == Some((s.counter->Some_0 + 1) as u64),
        s.counter is Some ==> spec_donate_state(s, info).counter->Some_0 >= s.counter->Some_0,
{
}

/// Law: a withdrawal by any identity other than the stored owner fails with
/// `Unauthorized` carrying the true owner's identity — whatever the balance
/// query would have said. An error carries no transfer instruction, and a
/// withdrawal never writes the state (it takes the store read-only).
pub proof fn lemma_withdraw_unauthorized(
    s: StorageView,
    sender: Seq<char>,
    balance: Result<Seq<CoinView>, Seq<char>>,
)
    requires
        s.owner is Some,
        sender != s.owner->Some_0,
    ensures
        spec_withdraw(s, sender, balance) == Err::<ResponseView, ErrorView>(
            ErrorView::Unauthorized { owner: s.owner->Some_0 },
        ),
{
}

/// Law: a withdrawal by the stored owner succeeds and issues exactly one
/// transfer instruction, moving the entire queried balance — exactly as the
/// host reported it — to the owner.
pub proof fn lemma_withdraw_by_owner_transfers_entire_balance(s: StorageView, funds: Seq<CoinView>)
    requires
        s.owner is Some,
    ensures
        spec_withdraw(s, s.owner->Some_0, Ok(funds)) is Ok,
        spec_withdraw(s, s.owner->Some_0, Ok(funds))->Ok_0.messages == seq![
            BankMsgSendView { to_address: s.owner->Some_0, amount: funds },
        ],
{
    assert(spec_withdraw(s, s.owner->Some_0, Ok(funds))->Ok_0.messages =~~= seq![
        BankMsgSendView { to_address: s.owner->Some_0, amount: funds },
    ]);
}

/// Law: the value query is a pure read — its answer is a function of the
/// state snapshot alone, so repeated queries with no intervening
/// state-changing call answer alike.
pub proof fn lemma_value_idempotent(s1: StorageView, s2: StorageView)
    requires
        s1 == s2,
    ensures
        spec_value(s1) == spec_value(s2),
{
}

} // verus!
