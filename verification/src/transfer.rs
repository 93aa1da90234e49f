//! One transfer: the request that is signed and sent, and the result that is
//! recorded for its recipient.

use vstd::prelude::*;
use crate::error::FailureKind;
use crate::recipient::{Destination, DestinationView};

verus! {

/// A transfer ready to be signed: a plain payment with the fee fields of the
/// batch's quote. All amounts are in wei.
#[derive(Debug, PartialEq, Eq)]
pub struct TransferRequest {
    pub to: Destination,
    pub value: u128,
    pub nonce: u128,
    pub gas_limit: u64,
    pub max_fee_per_gas: u128,
    pub max_priority_fee_per_gas: u128,
}

/// A request as a mathematical value.
#[verifier::ext_equal]
pub struct TransferRequestView {
    pub to: DestinationView,
    pub value: u128,
    pub nonce: u128,
    pub gas_limit: u64,
    pub max_fee_per_gas: u128,
    pub max_priority_fee_per_gas: u128,
}

impl View for TransferRequest {
    type V = TransferRequestView;

    open spec fn view(&self) -> TransferRequestView {
        TransferRequestView {
            to: self.to@,
            value: self.value,
            nonce: self.nonce,
            gas_limit: self.gas_limit,
            max_fee_per_gas: self.max_fee_per_gas,
            max_priority_fee_per_gas: self.max_priority_fee_per_gas,
        }
    }
}

/// How a transfer ended.
#[derive(Clone, Copy, Debug, PartialEq, Eq)]
pub enum TransferStatus {
    /// The transaction was included. `effective_fee` is what was paid per
    /// unit of gas, which may be less than the quote's cap.
    Success { tx: [u8; 32], effective_fee: u64 },
    /// Nothing reached the recipient.
    Failure(FailureKind),
}

/// What is recorded for one recipient. There is one result per recipient, in
/// the order of the input, and none is changed once it is recorded.
#[derive(Debug, PartialEq, Eq)]
pub struct TransferResult {
    /// The recipient's line.
    pub recipient: String,
    /// The nonce of the transaction that was handed to the network, if one
    /// was.
    pub nonce: Option<u128>,
    pub status: TransferStatus,
}

/// A result as a mathematical value.
#[verifier::ext_equal]
pub struct TransferResultView {
    pub recipient: Seq<char>,
    pub nonce: Option<u128>,
    pub status: TransferStatus,
}

impl View for TransferResult {
    type V = TransferResultView;

    open spec fn view(&self) -> TransferResultView {
        TransferResultView { recipient: self.recipient@, nonce: self.nonce, status: self.status }
    }
}

impl TransferStatus {
    /// Whether the transfer reached its recipient.
    pub fn is_success(&self) -> (r: bool)
        ensures
            r == (*self is Success),
    {
        match self {
            TransferStatus::Success { .. } => true,
            TransferStatus::Failure(_) => false,
        }
    }
}

impl TransferResultView {
    /// What was paid per unit of gas for this transfer: nothing where it
    /// failed.
    pub open spec fn fee(self) -> nat {
        match self.status {
            TransferStatus::Success { tx, effective_fee } => effective_fee as nat,
            TransferStatus::Failure(_) => 0,
        }
    }
}

/// The results as mathematical values, in the same order.
pub open spec fn result_views(results: Seq<TransferResult>) -> Seq<TransferResultView> {
    results.map_values(|r: TransferResult| r@)
}

/// How many of the results stand for a transaction that was handed to the
/// network: those that carry a nonce.
pub open spec fn attempts(results: Seq<TransferResultView>) -> nat
    decreases results.len(),
{
    if results.len() == 0 {
        0
    } else {
        attempts(results.drop_last()) + if results.last().nonce is Some {
            1nat
        } else {
            0nat
        }
    }
}

/// How many of the results are successes.
pub open spec fn successes(results: Seq<TransferResultView>) -> nat
    decreases results.len(),
{
    if results.len() == 0 {
        0
    } else {
        successes(results.drop_last()) + if results.last().status is Success {
            1nat
        } else {
            0nat
        }
    }
}

/// The sum of the fees of the successes.
pub open spec fn fees_paid(results: Seq<TransferResultView>) -> nat
    decreases results.len(),
{
    if results.len() == 0 {
        0
    } else {
        fees_paid(results.drop_last()) + results.last().fee()
    }
}

/// The nonces that the results carry, in their order.
pub open spec fn nonces(results: Seq<TransferResultView>) -> Seq<u128>
    decreases results.len(),
{
    if results.len() == 0 {
        Seq::empty()
    } else {
        match results.last().nonce {
            Some(nonce) => nonces(results.drop_last()).push(nonce),
            None => nonces(results.drop_last()),
        }
    }
}

/// No count exceeds the number of results, and the fees stay below that
/// number times the largest fee.
pub(crate) proof fn lemma_count_bounds(results: Seq<TransferResultView>)
    ensures
        attempts(results) <= results.len(),
        successes(results) <= results.len(),
        fees_paid(results) <= successes(results) * u64::MAX,
        nonces(results).len() == attempts(results),
    decreases results.len(),
{
    if results.len() > 0 {
        lemma_count_bounds(results.drop_last());
        let n = successes(results.drop_last());
        assert((n + 1) * u64::MAX == n * u64::MAX + u64::MAX) by (nonlinear_arith);
    }
}

/// Counting over a sequence that was extended by one result.
pub(crate) proof fn lemma_count_push(results: Seq<TransferResultView>, last: TransferResultView)
    ensures
        attempts(results.push(last)) == attempts(results) + if last.nonce is Some {
            1nat
        } else {
            0nat
        },
        successes(results.push(last)) == successes(results) + if last.status is Success {
            1nat
        } else {
            0nat
        },
        fees_paid(results.push(last)) == fees_paid(results) + last.fee(),
{
    assert(results.push(last).drop_last() =~= results);
}

} // verus!
