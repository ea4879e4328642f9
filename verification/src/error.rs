//! The two failure kinds a handler can surface to the host.

use vstd::prelude::*;
use vstd::string::StringExecFns;

verus! {

/// A handler failure. `Std` forwards the message of an underlying
/// storage/serialization/query failure verbatim; `Unauthorized` is raised only
/// by the withdrawal handler and carries the rightful owner's identity.
#[derive(Debug)]
pub enum ContractError {
    Std { msg: String },
    Unauthorized { owner: String },
}

/// Mathematical value of a [`ContractError`].
#[verifier::ext_equal]
pub enum ErrorView {
    Std { msg: Seq<char> },
    Unauthorized { owner: Seq<char> },
}

impl View for ContractError {
    type V = ErrorView;

    open spec fn view(&self) -> ErrorView {
        match self {
            ContractError::Std { msg } => ErrorView::Std { msg: msg@ },
            ContractError::Unauthorized { owner } => ErrorView::Unauthorized { owner: owner@ },
        }
    }
}

impl PartialEq for ContractError {
    fn eq(&self, other: &Self) -> (r: bool) {
        match (self, other) {
            (ContractError::Std { msg: a }, ContractError::Std { msg: b }) => *a == *b,
            (
                ContractError::Unauthorized { owner: a },
                ContractError::Unauthorized { owner: b },
            ) => *a == *b,
            _ => false,
        }
    }
}

impl vstd::std_specs::cmp::PartialEqSpecImpl for ContractError {
    open spec fn obeys_eq_spec() -> bool {
        true
    }

    open spec fn eq_spec(&self, other: &Self) -> bool {
        self@ == other@
    }
}

/// The error reported when a persisted entry is loaded before it was written.
pub fn not_found_error(key: &str) -> (e: ContractError)
    ensures
        e@ == (ErrorView::Std { msg: not_found_msg(key@) }),
{
    let mut msg = key.to_owned();
    msg.append(" not found");
    ContractError::Std { msg }
}

/// The message of the error reported for an absent entry named `key`.
pub open spec fn not_found_msg(key: Seq<char>) -> Seq<char> {
    key + " not found"@
}

} // verus!
