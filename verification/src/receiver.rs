//! The safe-receive protocol: what the ledger asks of a recipient that is a
//! callable program, and how it judges the recipient's answer.

use crate::error::{CallFailed, Erc721Error, UnsafeRecipient};
use crate::primitives::{Address, U256};
use vstd::prelude::*;

verus! {

/// The value with which the acceptance hook acknowledges a token.
pub const ERC721_TOKEN_RECEIVER_ID: u32 = 0x150b7a02;

/// How an invocation of the acceptance hook ended.
#[derive(Clone, Copy, Debug)]
pub enum HookOutcome {
    /// The hook completed and returned these four bytes.
    Returned([u8; 4]),
    /// The hook could not be reached, or its answer could not be read.
    Failed,
}

/// What the host found out about the recipient of a safe transfer or mint.
#[derive(Clone, Copy, Debug)]
pub enum Receiver {
    /// A plain account: the acceptance hook is not invoked.
    Account,
    /// A callable program, with the outcome of its acceptance hook.
    Program(HookOutcome),
}

/// The arguments of one invocation of the acceptance hook.
#[derive(Clone, Copy, Debug, PartialEq, Eq, Structural)]
pub struct AcceptanceCall {
    /// The recipient, on which the hook is invoked.
    pub target: Address,
    /// The caller of the transfer or mint.
    pub operator: Address,
    /// The owner before the operation; zero for a mint.
    pub from: Address,
    pub token_id: U256,
}

/// The number that four bytes stand for, most significant byte first.
pub open spec fn big_endian(bytes: [u8; 4]) -> int {
    bytes[0] * 0x100_0000 + bytes[1] * 0x1_0000 + bytes[2] * 0x100 + bytes[3]
}

/// Whether the operation may stand for recipient `to`: it may for a plain
/// account; for a program the hook must have completed, else `CallFailed`,
/// and must have returned the acknowledgment, else `UnsafeRecipient`.
pub open spec fn receipt_verdict(to: Address, receiver: Receiver) -> Result<(), Erc721Error> {
    match receiver {
        Receiver::Account => Ok(()),
        Receiver::Program(HookOutcome::Failed) => Err(Erc721Error::CallFailed(CallFailed {  })),
        Receiver::Program(HookOutcome::Returned(bytes)) => if big_endian(bytes)
            == ERC721_TOKEN_RECEIVER_ID {
            Ok(())
        } else {
            Err(Erc721Error::UnsafeRecipient(UnsafeRecipient { recipient: to }))
        },
    }
}

/// The number that `bytes` stand for, most significant byte first.
pub fn u32_from_be_bytes(bytes: [u8; 4]) -> (value: u32)
    ensures
        value == big_endian(bytes),
{
    let b0: u32 = bytes[0] as u32;
    let b1: u32 = bytes[1] as u32;
    let b2: u32 = bytes[2] as u32;
    let b3: u32 = bytes[3] as u32;
    b0 * 0x100_0000 + b1 * 0x1_0000 + b2 * 0x100 + b3
}

/// The invocation of the acceptance hook that a safe transfer of `token_id`
/// from `from` to `to` on behalf of `caller` asks for; `from` is zero for a
/// safe mint.
pub fn acceptance_call(caller: Address, from: Address, to: Address, token_id: U256) -> (call:
    AcceptanceCall)
    ensures
        call == (AcceptanceCall { target: to, operator: caller, from, token_id }),
{
    AcceptanceCall { target: to, operator: caller, from, token_id }
}

} // verus!
