use crate::address::Address;
use vstd::prelude::*;

verus! {

/// A movement of fungible value between two parties.
#[derive(Clone, Copy, Debug, PartialEq, Eq)]
pub struct Payment {
    pub from: Address,
    pub to: Address,
    pub amount: u64,
}

/// A movement of the escrowed asset unit into or out of custody.
#[derive(Clone, Copy, Debug, PartialEq, Eq)]
pub enum CustodyMove {
    /// The unit moves from `from` into the custody vault.
    Hold { from: Address },
    /// The unit leaves the custody vault for `to`.
    Release { to: Address },
}

/// What the caller must carry out, in this order, after an operation succeeded.
#[derive(Clone, Copy, Debug, PartialEq, Eq)]
pub struct Effects {
    /// Value to transfer first.
    pub payment: Option<Payment>,
    /// Then the asset unit to move.
    pub custody: Option<CustodyMove>,
    /// The record was destroyed; its storage deposit goes to this party.
    pub closed_to: Option<Address>,
}

impl Effects {
    pub open spec fn none() -> Effects {
        Effects { payment: None, custody: None, closed_to: None }
    }
}

} // verus!
