//! Persisted state and the value types it is built from.
//!
//! `Storage` models the contract's key-value store as the three typed entries
//! the handlers touch (`counter`, `minimal_donation`, `owner`), each absent
//! until written. The typed accessors are the only way handlers read or write
//! an entry; a load of an absent entry reports a storage error.

use vstd::prelude::*;

use crate::error::ContractError;
use crate::error::ErrorView;
use crate::error::not_found_error;
use crate::error::not_found_msg;

verus! {

/// An amount of a single currency, tagged with its denomination identifier.
#[derive(Debug)]
pub struct Coin {
    pub denom: String,
    pub amount: u128,
}

/// Mathematical value of a [`Coin`].
#[verifier::ext_equal]
pub struct CoinView {
    pub denom: Seq<char>,
    pub amount: u128,
}

impl View for Coin {
    type V = CoinView;

    open spec fn view(&self) -> CoinView {
        CoinView { denom: self.denom@, amount: self.amount }
    }
}

impl DeepView for Coin {
    type V = CoinView;

    open spec fn deep_view(&self) -> CoinView {
        self.view()
    }
}

impl Coin {
    /// Builds a coin from a denomination literal and an amount.
    pub fn new(amount: u128, denom: &str) -> (c: Coin)
        ensures
            c@ == (CoinView { denom: denom@, amount }),
    {
        Coin { denom: denom.to_owned(), amount }
    }
}

/// An identity on the ledger, as the host hands it in.
#[derive(Debug)]
pub struct Addr(pub String);

impl View for Addr {
    type V = Seq<char>;

    open spec fn view(&self) -> Seq<char> {
        self.0@
    }
}

impl DeepView for Addr {
    type V = Seq<char>;

    open spec fn deep_view(&self) -> Seq<char> {
        self.view()
    }
}

impl Addr {
    /// Builds an address from its textual form, without validation.
    pub fn unchecked(s: &str) -> (a: Addr)
        ensures
            a@ == s@,
    {
        Addr(s.to_owned())
    }

    /// The textual form of the address.
    pub fn as_str(&self) -> (s: &str)
        ensures
            s@ == self@,
    {
        self.0.as_str()
    }
}

/// The contract's slice of the host's key-value store, seen through the three
/// typed entries the handlers use. Each entry is absent until first written.
pub struct Storage {
    counter: Option<u64>,
    minimal_donation: Option<Coin>,
    owner: Option<Addr>,
}

/// Mathematical value of a [`Storage`] snapshot.
#[verifier::ext_equal]
pub struct StorageView {
    pub counter: Option<u64>,
    pub minimal_donation: Option<CoinView>,
    pub owner: Option<Seq<char>>,
}

impl View for Storage {
    type V = StorageView;

    closed spec fn view(&self) -> StorageView {
        StorageView {
            counter: self.counter,
            minimal_donation: match self.minimal_donation {
                Some(c) => Some(c@),
                None => None,
            },
            owner: match self.owner {
                Some(a) => Some(a@),
                None => None,
            },
        }
    }
}

impl StorageView {
    /// Whether the initializer has written all three entries.
    pub open spec fn initialized(self) -> bool {
        self.counter is Some && self.minimal_donation is Some && self.owner is Some
    }
}

impl Storage {
    /// An empty store: the state before the initializer has run.
    pub fn new() -> (s: Storage)
        ensures
            s@ == (StorageView { counter: None, minimal_donation: None, owner: None }),
    {
        Storage { counter: None, minimal_donation: None, owner: None }
    }

    /// Writes the `counter` entry.
    pub fn save_counter(&mut self, value: u64)
        ensures
            final(self)@ == (StorageView { counter: Some(value), ..old(self)@ }),
    {
        self.counter = Some(value);
    }

    /// Reads the `counter` entry; an absent entry is a storage error.
    pub fn load_counter(&self) -> (r: Result<u64, ContractError>)
        ensures
            match self@.counter {
                Some(v) => r == Ok::<u64, ContractError>(v),
                None => r matches Err(e) && e@ == (ErrorView::Std {
                    msg: not_found_msg("counter"@),
                }),
            },
    {
        match self.counter {
            Some(v) => Ok(v),
            None => Err(not_found_error("counter")),
        }
    }

    /// Writes the `minimal_donation` entry.
    pub fn save_minimal_donation(&mut self, threshold: Coin)
        ensures
            final(self)@ == (StorageView {
                minimal_donation: Some(threshold@),
                ..old(self)@
            }),
    {
        self.minimal_donation = Some(threshold);
    }

    /// Reads the `minimal_donation` entry; an absent entry is a storage error.
    pub fn load_minimal_donation(&self) -> (r: Result<&Coin, ContractError>)
        ensures
            match self@.minimal_donation {
                Some(c) => r matches Ok(m) && m@ == c,
                None => r matches Err(e) && e@ == (ErrorView::Std {
                    msg: not_found_msg("minimal_donation"@),
                }),
            },
    {
        match &self.minimal_donation {
            Some(c) => Ok(c),
            None => Err(not_found_error("minimal_donation")),
        }
    }

    /// Writes the `owner` entry.
    pub fn save_owner(&mut self, owner: Addr)
        ensures
            final(self)@ == (StorageView { owner: Some(owner@), ..old(self)@ }),
    {
        self.owner = Some(owner);
    }

    /// The `counter` entry as it stands, absent or present.
    pub fn counter(&self) -> (r: Option<u64>)
        ensures
            r == self@.counter,
    {
        self.counter
    }

    /// The `minimal_donation` entry as it stands, absent or present.
    pub fn minimal_donation(&self) -> (r: Option<&Coin>)
        ensures
            match self@.minimal_donation {
                Some(v) => r matches Some(c) && c@ == v,
                None => r is None,
            },
    {
        self.minimal_donation.as_ref()
    }

    /// The `owner` entry as it stands, absent or present.
    pub fn owner(&self) -> (r: Option<&Addr>)
        ensures
            match self@.owner {
                Some(v) => r matches Some(a) && a@ == v,
                None => r is None,
            },
    {
        self.owner.as_ref()
    }

    /// Reads the `owner` entry; an absent entry is a storage error.
    pub fn load_owner(&self) -> (r: Result<&Addr, ContractError>)
        ensures
            match self@.owner {
                Some(o) => r matches Ok(a) && a@ == o,
                None => r matches Err(e) && e@ == (ErrorView::Std {
                    msg: not_found_msg("owner"@),
                }),
            },
    {
        match &self.owner {
            Some(a) => Ok(a),
            None => Err(not_found_error("owner")),
        }
    }
}

} // verus!
