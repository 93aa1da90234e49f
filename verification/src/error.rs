//! What can go wrong: errors that end a batch before any transaction is sent,
//! and failures that concern one recipient only.

use vstd::prelude::*;

verus! {

/// An error that ends the whole batch. Each of them arises before the first
/// transaction is submitted.
#[derive(Clone, Copy, Debug, PartialEq, Eq, Structural)]
pub enum BatchError {
    /// No connection to the chain endpoint could be established.
    EndpointUnavailable,
    /// The endpoint did not answer a query for the base fee, the pending
    /// transaction count or the balance.
    RpcQueryFailed,
    /// The total amount is zero or there is no recipient.
    InvalidAmount,
    /// The funder's balance does not cover the transfers and their fees.
    InsufficientFunds { balance: u128, required: u128 },
    /// A fee or an amount does not fit in 128 bits.
    AmountOverflow,
}

/// Why nothing reached one recipient. The batch goes on after each of them.
#[derive(Clone, Copy, Debug, PartialEq, Eq, Structural)]
pub enum FailureKind {
    /// The recipient's line is no address. No nonce was used.
    InvalidAddress,
    /// The endpoint rejected the signed transaction. Its nonce counts as used.
    SubmissionFailed,
    /// The transaction was included but its execution failed, or its
    /// inclusion could not be confirmed. Its nonce is used.
    TransactionReverted,
}

impl FailureKind {
    /// Whether a transaction was handed to the network, so that its nonce is
    /// used up.
    pub fn consumes_nonce(&self) -> (r: bool)
        ensures
            r == (*self != FailureKind::InvalidAddress),
    {
        match self {
            FailureKind::InvalidAddress => false,
            _ => true,
        }
    }
}

} // verus!
