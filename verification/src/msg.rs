//! The logical message schema and the per-call envelope.
//!
//! The concrete wire encoding is owned by the host-facing serialization layer;
//! the handlers only see these typed values.

use vstd::prelude::*;

use crate::state::Addr;
use crate::state::Coin;
use crate::state::CoinView;

verus! {

/// One-time setup message: the donation threshold the contract is to enforce.
pub struct InstantiateMsg {
    pub minimal_donation: Coin,
}

/// Read-only queries.
pub enum QueryMsg {
    Value {},
}

/// State-changing calls. Funds attached to a donation travel in the call
/// envelope ([`MessageInfo`]), not in the message itself.
pub enum ExecMsg {
    Donate {},
    Withdraw {},
}

/// Answer to [`QueryMsg::Value`]: the counter as currently persisted.
#[derive(Debug, PartialEq, Eq, Structural)]
pub struct ValueResp {
    pub value: u64,
}

/// The call envelope the host builds for each invocation: who calls, and which
/// funds ride along.
pub struct MessageInfo {
    pub sender: Addr,
    pub funds: Vec<Coin>,
}

/// Mathematical value of a [`MessageInfo`].
#[verifier::ext_equal]
pub struct MessageInfoView {
    pub sender: Seq<char>,
    pub funds: Seq<CoinView>,
}

impl View for MessageInfo {
    type V = MessageInfoView;

    open spec fn view(&self) -> MessageInfoView {
        MessageInfoView { sender: self.sender@, funds: self.funds.deep_view() }
    }
}

} // verus!
