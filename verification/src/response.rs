//! What a successful handler hands back to the host: observable attributes and
//! outbound transfer instructions.

use vstd::prelude::*;

use crate::state::Coin;
use crate::state::CoinView;

verus! {

/// One observable key/value pair of a response.
#[derive(Debug)]
pub struct Attribute {
    pub key: String,
    pub value: String,
}

/// Mathematical value of an [`Attribute`].
#[verifier::ext_equal]
pub struct AttributeView {
    pub key: Seq<char>,
    pub value: Seq<char>,
}

impl View for Attribute {
    type V = AttributeView;

    open spec fn view(&self) -> AttributeView {
        AttributeView { key: self.key@, value: self.value@ }
    }
}

impl DeepView for Attribute {
    type V = AttributeView;

    open spec fn deep_view(&self) -> AttributeView {
        self.view()
    }
}

/// An outbound instruction asking the host to move `amount` from the
/// contract's own balance to `to_address`.
#[derive(Debug)]
pub struct BankMsgSend {
    pub to_address: String,
    pub amount: Vec<Coin>,
}

/// Mathematical value of a [`BankMsgSend`].
#[verifier::ext_equal]
pub struct BankMsgSendView {
    pub to_address: Seq<char>,
    pub amount: Seq<CoinView>,
}

impl View for BankMsgSend {
    type V = BankMsgSendView;

    open spec fn view(&self) -> BankMsgSendView {
        BankMsgSendView { to_address: self.to_address@, amount: self.amount.deep_view() }
    }
}

impl DeepView for BankMsgSend {
    type V = BankMsgSendView;

    open spec fn deep_view(&self) -> BankMsgSendView {
        self.view()
    }
}

/// A successful handler result: zero or more transfer instructions for the
/// host to carry out, and observable attributes describing the call.
#[derive(Debug)]
pub struct Response {
    pub messages: Vec<BankMsgSend>,
    pub attributes: Vec<Attribute>,
}

/// Mathematical value of a [`Response`].
#[verifier::ext_equal]
pub struct ResponseView {
    pub messages: Seq<BankMsgSendView>,
    pub attributes: Seq<AttributeView>,
}

impl View for Response {
    type V = ResponseView;

    open spec fn view(&self) -> ResponseView {
        ResponseView {
            messages: self.messages.deep_view(),
            attributes: self.attributes.deep_view(),
        }
    }
}

impl ResponseView {
    /// The response with no instructions and no attributes.
    pub open spec fn empty() -> ResponseView {
        ResponseView { messages: Seq::empty(), attributes: Seq::empty() }
    }
}

impl Response {
    /// A response with no instructions and no attributes.
    pub fn new() -> (r: Response)
        ensures
            r@ == ResponseView::empty(),
    {
        let r = Response { messages: Vec::new(), attributes: Vec::new() };
        proof {
            assert(r@ =~~= ResponseView::empty());
        }
        r
    }

    /// Appends one observable attribute.
    pub fn add_attribute(self, key: &str, value: &str) -> (r: Response)
        ensures
            r@ == (ResponseView {
                attributes: self@.attributes.push(AttributeView { key: key@, value: value@ }),
                ..self@
            }),
    {
        let ghost sv = self@;
        let mut attributes = self.attributes;
        attributes.push(Attribute { key: key.to_owned(), value: value.to_owned() });
        let r = Response { messages: self.messages, attributes };
        proof {
            assert(r@ =~~= (ResponseView {
                attributes: sv.attributes.push(AttributeView { key: key@, value: value@ }),
                ..sv
            }));
        }
        r
    }

    /// Appends one outbound transfer instruction.
    pub fn add_message(self, msg: BankMsgSend) -> (r: Response)
        ensures
            r@ == (ResponseView { messages: self@.messages.push(msg@), ..self@ }),
    {
        let ghost sv = self@;
        let ghost m = msg@;
        let mut messages = self.messages;
        messages.push(msg);
        let r = Response { messages, attributes: self.attributes };
        proof {
            assert(r@ =~~= (ResponseView { messages: sv.messages.push(m), ..sv }));
        }
        r
    }
}

} // verus!
