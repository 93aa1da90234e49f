//! The course of a batch as a state machine over mathematical values: which
//! action follows which reply of the chain endpoint, and what is recorded.
//!
//! A batch connects, reads the base fee and the funder's pending transaction
//! count and computes its plan from them, reads the balance, and then sends
//! one transfer per recipient, one after the other. The executable
//! [`crate::batch::Batch`] follows [`BatchView::next`] step by step.

use vstd::prelude::*;
use crate::constant::ETH_TRANSFER;
use crate::error::{BatchError, FailureKind};
use crate::fees::FeeQuote;
use crate::plan::{allocation, TransferPlan};
use crate::recipient::RecipientView;
use crate::transfer::{
    attempts,
    TransferRequest,
    TransferRequestView,
    TransferResultView,
    TransferStatus,
};

verus! {

/// Where a batch stands. In each phase but the last two the batch waits for
/// the reply to one action.
#[derive(Clone, Copy, Debug, PartialEq, Eq)]
pub enum Phase {
    /// Waiting for the connection to the endpoint.
    Connecting,
    /// Waiting for the network's base fee and the funder's pending
    /// transaction count.
    Estimating,
    /// Waiting for the funder's balance.
    FetchingBalance,
    /// Waiting for the outcome of the transfer to the next recipient.
    Dispatching,
    /// Every recipient has its result.
    Finished,
    /// The batch ended before any transfer was sent.
    Failed(BatchError),
}

/// A reply of the chain endpoint to the action that the batch asked for.
#[derive(Clone, Copy, Debug, PartialEq, Eq)]
pub enum Event {
    /// The connection stands.
    Connected,
    /// No connection could be established.
    ConnectFailed,
    /// The network's base fee per unit of gas, in wei, and the funder's
    /// pending transaction count.
    Fees { base_fee: u128, pending_count: u64 },
    /// The funder's balance, in wei. A balance beyond 128 bits is given as
    /// the largest value.
    Balance(u128),
    /// A query for the fee, the count or the balance failed.
    QueryFailed,
    /// The endpoint rejected the signed transaction.
    Rejected,
    /// The transaction was submitted, but it was not included with success.
    Reverted,
    /// The transaction was included. `effective_fee` is what was paid per
    /// unit of gas, in wei; a fee beyond 64 bits is given as the largest
    /// value.
    Included { tx: [u8; 32], effective_fee: u64 },
}

impl Event {
    /// The event that a receipt stands for.
    pub open spec fn of_receipt(
        tx: [u8; 32],
        status: Option<u64>,
        effective_gas_price: Option<u64>,
    ) -> Event {
        if status == Some(0u64) {
            Event::Reverted
        } else {
            Event::Included {
                tx,
                effective_fee: match effective_gas_price {
                    Some(price) => price,
                    None => 0,
                },
            }
        }
    }

    /// Reads the receipt of a transaction that was included in a block. A
    /// status of zero means that its execution failed; a receipt without a
    /// status comes from a chain that reports none and counts as a success.
    /// A receipt that names no effective gas price counts as a fee of zero.
    pub fn from_receipt(
        tx: [u8; 32],
        status: Option<u64>,
        effective_gas_price: Option<u64>,
    ) -> (r: Event)
        ensures
            r == Event::of_receipt(tx, status, effective_gas_price),
    {
        match status {
            Some(0) => Event::Reverted,
            _ => Event::Included {
                tx,
                effective_fee: match effective_gas_price {
                    Some(price) => price,
                    None => 0,
                },
            },
        }
    }
}

/// What the caller is to do next.
#[derive(Debug, PartialEq, Eq)]
pub enum Action {
    /// Connect to the endpoint; reply with `Connected` or `ConnectFailed`.
    Connect,
    /// Read the base fee and the funder's pending transaction count; reply
    /// with `Fees`, or with `QueryFailed` if either query failed.
    QueryFees,
    /// Read the funder's balance; reply with `Balance` or `QueryFailed`.
    QueryBalance,
    /// Sign and submit the transfer and wait for its inclusion; reply with
    /// `Rejected`, `Reverted` or `Included`.
    Submit(TransferRequest),
    /// Nothing: the batch is complete.
    Finish,
    /// Nothing: the batch ended with this error.
    Abort(BatchError),
}

/// An action as a mathematical value.
#[verifier::ext_equal]
pub enum ActionView {
    Connect,
    QueryFees,
    QueryBalance,
    Submit(TransferRequestView),
    Finish,
    Abort(BatchError),
}

impl View for Action {
    type V = ActionView;

    open spec fn view(&self) -> ActionView {
        match self {
            Action::Connect => ActionView::Connect,
            Action::QueryFees => ActionView::QueryFees,
            Action::QueryBalance => ActionView::QueryBalance,
            Action::Submit(request) => ActionView::Submit(request@),
            Action::Finish => ActionView::Finish,
            Action::Abort(error) => ActionView::Abort(*error),
        }
    }
}

/// The state of a batch as a mathematical value.
#[verifier::ext_equal]
pub struct BatchView {
    pub phase: Phase,
    /// The recipients, in the order of the input.
    pub recipients: Seq<RecipientView>,
    /// What is to be distributed, in wei.
    pub total_amount: u128,
    /// The fixed priority fee, in wei per unit of gas.
    pub priority_fee: u128,
    /// The fee quote, once the base fee is known.
    pub quote: Option<FeeQuote>,
    /// The nonce of the first transfer, once the pending count is known.
    pub start_nonce: Option<u64>,
    /// The amounts, once they are computed from the quote.
    pub plan: Option<TransferPlan>,
    /// The funder's balance, once it has passed the guard.
    pub balance: Option<u128>,
    /// The results recorded so far: one for each of the first recipients.
    pub results: Seq<TransferResultView>,
}

/// The result of a recipient whose line is no destination.
pub open spec fn invalid_address_result(recipient: RecipientView) -> TransferResultView {
    TransferResultView {
        recipient: recipient.line,
        nonce: None,
        status: TransferStatus::Failure(FailureKind::InvalidAddress),
    }
}

/// How a reply to `Submit` is recorded, if the event is one.
pub open spec fn outcome(event: Event) -> Option<TransferStatus> {
    match event {
        Event::Rejected => Some(TransferStatus::Failure(FailureKind::SubmissionFailed)),
        Event::Reverted => Some(TransferStatus::Failure(FailureKind::TransactionReverted)),
        Event::Included { tx, effective_fee } => Some(TransferStatus::Success { tx, effective_fee }),
        _ => None,
    }
}

impl BatchView {
    /// A batch that has done nothing yet.
    pub open spec fn initial(
        recipients: Seq<RecipientView>,
        total_amount: u128,
        priority_fee: u128,
    ) -> BatchView {
        BatchView {
            phase: Phase::Connecting,
            recipients,
            total_amount,
            priority_fee,
            quote: None,
            start_nonce: None,
            plan: None,
            balance: None,
            results: Seq::empty(),
        }
    }

    /// The position of the recipient that is served next.
    pub open spec fn cursor(self) -> int {
        self.results.len() as int
    }

    /// The nonce of the next transfer that is handed to the network: the
    /// starting nonce plus the number of transfers handed over so far.
    pub open spec fn next_nonce(self) -> int {
        self.start_nonce.unwrap() + attempts(self.results)
    }

    /// The transfer to the recipient at the cursor.
    pub open spec fn request(self) -> TransferRequestView {
        TransferRequestView {
            to: self.recipients[self.cursor()].destination.unwrap(),
            value: self.plan.unwrap().per_recipient_amount,
            nonce: self.next_nonce() as u128,
            gas_limit: ETH_TRANSFER,
            max_fee_per_gas: self.quote.unwrap().max_fee_per_gas,
            max_priority_fee_per_gas: self.quote.unwrap().priority_fee,
        }
    }

    /// The batch after it ended with an error.
    pub open spec fn failed(self, error: BatchError) -> BatchView {
        BatchView { phase: Phase::Failed(error), ..self }
    }

    /// The batch after the recipient at the cursor was passed over because
    /// its line is no destination.
    pub open spec fn skipped(self) -> BatchView {
        BatchView {
            results: self.results.push(invalid_address_result(self.recipients[self.cursor()])),
            ..self
        }
    }

    /// The batch after the transfer to the recipient at the cursor ended with
    /// `status`. The result carries the nonce that the transfer used.
    pub open spec fn recorded(self, status: TransferStatus) -> BatchView {
        BatchView {
            results: self.results.push(
                TransferResultView {
                    recipient: self.recipients[self.cursor()].line,
                    nonce: Some(self.next_nonce() as u128),
                    status,
                },
            ),
            ..self
        }
    }

    /// Moves on to the next recipient that has a destination, and passes over
    /// those before it that have none. The batch is finished when no
    /// recipient is left.
    pub open spec fn advanced(self) -> BatchView
        decreases self.recipients.len() - self.results.len(),
    {
        if self.cursor() >= self.recipients.len() {
            BatchView { phase: Phase::Finished, ..self }
        } else if self.recipients[self.cursor()].destination is Some {
            BatchView { phase: Phase::Dispatching, ..self }
        } else {
            self.skipped().advanced()
        }
    }

    /// The batch after the base fee and the pending count were read: the
    /// quote is derived from the base fee, and the plan from the quote.
    pub open spec fn estimated(self, base_fee: u128, pending_count: u64) -> BatchView {
        match FeeQuote::quote_for(base_fee, self.priority_fee) {
            Ok(quote) => match allocation(
                self.total_amount,
                self.recipients.len() as usize,
                quote,
            ) {
                Ok(plan) => BatchView {
                    phase: Phase::FetchingBalance,
                    quote: Some(quote),
                    start_nonce: Some(pending_count),
                    plan: Some(plan),
                    ..self
                },
                Err(error) => self.failed(error),
            },
            Err(error) => self.failed(error),
        }
    }

    /// The batch after the balance was read: the guard lets it start only if
    /// the balance covers the plan's total.
    pub open spec fn guarded(self, balance: u128) -> BatchView {
        if balance < self.plan.unwrap().total_required {
            self.failed(
                BatchError::InsufficientFunds {
                    balance,
                    required: self.plan.unwrap().total_required,
                },
            )
        } else {
            BatchView { balance: Some(balance), ..self }.advanced()
        }
    }

    /// The state that follows on an event. An event that does not answer the
    /// pending action changes nothing.
    pub open spec fn next(self, event: Event) -> BatchView {
        match self.phase {
            Phase::Connecting => match event {
                Event::Connected => BatchView { phase: Phase::Estimating, ..self },
                Event::ConnectFailed => self.failed(BatchError::EndpointUnavailable),
                _ => self,
            },
            Phase::Estimating => match event {
                Event::Fees { base_fee, pending_count } => self.estimated(base_fee, pending_count),
                Event::QueryFailed => self.failed(BatchError::RpcQueryFailed),
                _ => self,
            },
            Phase::FetchingBalance => match event {
                Event::Balance(balance) => self.guarded(balance),
                Event::QueryFailed => self.failed(BatchError::RpcQueryFailed),
                _ => self,
            },
            Phase::Dispatching => match outcome(event) {
                Some(status) => self.recorded(status).advanced(),
                None => self,
            },
            Phase::Finished => self,
            Phase::Failed(_) => self,
        }
    }

    /// The action that the batch waits for in this state.
    pub open spec fn pending(self) -> ActionView {
        match self.phase {
            Phase::Connecting => ActionView::Connect,
            Phase::Estimating => ActionView::QueryFees,
            Phase::FetchingBalance => ActionView::QueryBalance,
            Phase::Dispatching => ActionView::Submit(self.request()),
            Phase::Finished => ActionView::Finish,
            Phase::Failed(error) => ActionView::Abort(error),
        }
    }

    /// The request is valid: something is to be distributed, to at least one
    /// recipient.
    pub open spec fn request_valid(self) -> bool {
        &&& self.total_amount > 0
        &&& 0 < self.recipients.len() <= usize::MAX
    }

    /// Nothing was read from the network yet.
    pub open spec fn nothing_known(self) -> bool {
        &&& self.quote is None
        &&& self.start_nonce is None
        &&& self.plan is None
        &&& self.balance is None
    }

    /// The quote is known and consistent.
    pub open spec fn quote_known(self) -> bool {
        &&& self.quote matches Some(quote)
        &&& quote.wf()
        &&& quote.priority_fee == self.priority_fee
    }

    /// The starting nonce is known, and the plan is the one that the request
    /// and the quote give.
    pub open spec fn plan_known(self) -> bool {
        &&& self.start_nonce is Some
        &&& self.plan matches Some(plan)
        &&& self.quote matches Some(quote)
        &&& allocation(self.total_amount, self.recipients.len() as usize, quote) == Ok::<
            TransferPlan,
            BatchError,
        >(plan)
    }

    /// The balance is known and covers the plan's total.
    pub open spec fn funded(self) -> bool {
        &&& self.balance matches Some(balance)
        &&& self.plan matches Some(plan)
        &&& balance >= plan.total_required
    }

    /// The result at position `i` is the one that belongs to the recipient
    /// at that position: it names the recipient; it is an `InvalidAddress`
    /// without a nonce where the recipient has no destination; and else it
    /// carries the starting nonce plus the number of transfers that were
    /// handed to the network before it.
    pub open spec fn result_matches(self, i: int) -> bool {
        let result = self.results[i];
        let recipient = self.recipients[i];
        &&& result.recipient == recipient.line
        &&& recipient.destination is None ==> result == invalid_address_result(recipient)
        &&& recipient.destination is Some ==> {
            &&& result.nonce matches Some(nonce)
            &&& nonce == self.start_nonce.unwrap() + attempts(self.results.take(i))
            &&& result.status != TransferStatus::Failure(FailureKind::InvalidAddress)
        }
    }

    /// Every result recorded so far belongs to the recipient at its position.
    pub open spec fn results_valid(self) -> bool {
        &&& self.results.len() <= self.recipients.len()
        &&& forall|i: int| 0 <= i < self.results.len() ==> #[trigger] self.result_matches(i)
    }

    /// What holds once the guard has let the batch start.
    pub open spec fn started(self) -> bool {
        &&& self.request_valid()
        &&& self.quote_known()
        &&& self.plan_known()
        &&& self.funded()
        &&& self.results_valid()
    }

    /// What holds of a batch in every state that it can reach.
    pub open spec fn inv(self) -> bool {
        &&& self.request_valid()
        &&& match self.phase {
            Phase::Connecting => self.results.len() == 0 && self.nothing_known(),
            Phase::Estimating => self.results.len() == 0 && self.nothing_known(),
            Phase::FetchingBalance => self.results.len() == 0 && self.quote_known()
                && self.plan_known() && self.balance is None,
            Phase::Dispatching => {
                &&& self.started()
                &&& self.cursor() < self.recipients.len()
                &&& self.recipients[self.cursor()].destination is Some
            },
            Phase::Finished => self.started() && self.results.len() == self.recipients.len(),
            Phase::Failed(_) => self.results.len() == 0,
        }
    }
}

} // verus!
