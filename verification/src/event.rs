//! The notifications that the ledger appends to its event log.

use crate::primitives::{Address, U256};
use vstd::prelude::*;

verus! {

/// A notification of one successful mutation.
#[derive(Clone, Copy, Debug, PartialEq, Eq, Structural)]
pub enum Event {
    /// Token `token_id` went from `from` to `to`; `from` is zero for a mint
    /// and `to` is zero for a burn.
    Transfer { from: Address, to: Address, token_id: U256 },
    /// `spender` became the approved spender of `token_id`, owned by `owner`.
    Approval { owner: Address, spender: Address, token_id: U256 },
    /// `owner` granted (`approved`) or withdrew the operator role of `operator`.
    ApprovalForAll { owner: Address, operator: Address, approved: bool },
}

} // verus!
