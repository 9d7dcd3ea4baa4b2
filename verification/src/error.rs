//! The ways in which an operation of the ledger fails.

use crate::primitives::{Address, U256};
use vstd::prelude::*;

verus! {

/// `account` does not own `token_id`, or may not approve a spender for it.
#[derive(Clone, Copy, Debug, PartialEq, Eq, Structural)]
pub struct NotOwner {
    pub account: Address,
    pub token_id: U256,
}

/// `caller` holds none of the grants that would let it act on the token.
#[derive(Clone, Copy, Debug, PartialEq, Eq, Structural)]
pub struct NotAuthorized {
    pub caller: Address,
}

/// The recipient `to` is the zero sentinel.
#[derive(Clone, Copy, Debug, PartialEq, Eq, Structural)]
pub struct InvalidRecipient {
    pub to: Address,
}

/// `token_id` already has an owner.
#[derive(Clone, Copy, Debug, PartialEq, Eq, Structural)]
pub struct AlreadyMinted {
    pub token_id: U256,
}

/// `token_id` has no owner.
#[derive(Clone, Copy, Debug, PartialEq, Eq, Structural)]
pub struct NotMinted {
    pub token_id: U256,
}

/// The acceptance hook of `recipient` answered with the wrong value.
#[derive(Clone, Copy, Debug, PartialEq, Eq, Structural)]
pub struct UnsafeRecipient {
    pub recipient: Address,
}

/// The acceptance hook could not be invoked, or its answer could not be read.
#[derive(Clone, Copy, Debug, PartialEq, Eq, Structural)]
pub struct CallFailed {}

/// The failure of an operation; the ledger is left as it was.
#[derive(Clone, Copy, Debug, PartialEq, Eq, Structural)]
pub enum Erc721Error {
    NotOwner(NotOwner),
    NotAuthorized(NotAuthorized),
    InvalidRecipient(InvalidRecipient),
    AlreadyMinted(AlreadyMinted),
    NotMinted(NotMinted),
    UnsafeRecipient(UnsafeRecipient),
    CallFailed(CallFailed),
}

} // verus!
