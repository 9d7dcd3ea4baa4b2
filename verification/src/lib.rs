//! A verified ERC-721 ownership ledger: who owns each token, how many tokens
//! each account holds, and who may move a token on the owner's behalf.
//!
//! `erc721` holds the ledger and its operations, `nft` a collection built on
//! it. `model` states what every operation does as a function on a
//! mathematical state, and `laws` proves what holds of every state that the
//! operations reach. `rules` and `receiver` hold the decisions as functions of
//! plain values, for a host that keeps the relations in a store of its own.

pub mod erc721;
pub mod error;
pub mod event;
pub mod laws;
pub mod model;
pub mod nft;
pub mod primitives;
pub mod receiver;
pub mod rules;
pub mod store;
pub mod table;
