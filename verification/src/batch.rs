//! A batch in execution. A [`Batch`] holds the request and everything that
//! was learned and recorded so far; it tells the caller what to do next and
//! takes the endpoint's reply.

use vstd::prelude::*;
use crate::constant::ETH_TRANSFER;
use crate::error::{BatchError, FailureKind};
use crate::fees::FeeQuote;
use crate::laws::{
    law_step_keeps_invariant,
    lemma_advanced_valid,
    lemma_recorded_valid,
    lemma_skipped_valid,
};
use crate::plan::{allocate, allocation, check_balance, TransferPlan};
use crate::protocol::{invalid_address_result, Action, BatchView, Event, Phase};
use crate::recipient::{Recipient, RecipientView};
use crate::report::BatchSummary;
use crate::transfer::{
    attempts,
    fees_paid,
    lemma_count_bounds,
    lemma_count_push,
    result_views,
    successes,
    TransferRequest,
    TransferResult,
    TransferStatus,
};

verus! {

/// The recipients as mathematical values, in the same order.
pub open spec fn recipient_views(recipients: Seq<Recipient>) -> Seq<RecipientView> {
    recipients.map_values(|r: Recipient| r@)
}

/// One run over a list of recipients.
///
/// The funder's nonce counter and the results belong to the batch alone. It
/// asks for one action at a time, so that no two transfers of one funder are
/// ever in flight together.
///
/// The fields are private: a batch comes from [`Batch::new`] and changes
/// through [`Batch::step`] only, which establish and keep [`Batch::wf`].
pub struct Batch {
    recipients: Vec<Recipient>,
    total_amount: u128,
    priority_fee: u128,
    phase: Phase,
    quote: Option<FeeQuote>,
    start_nonce: Option<u64>,
    plan: Option<TransferPlan>,
    balance: Option<u128>,
    results: Vec<TransferResult>,
    /// How many transfers were handed to the network.
    attempts: usize,
    /// How many of them were included.
    succeeded: usize,
    /// The sum of their effective fees.
    fees_paid: u128,
}

impl View for Batch {
    type V = BatchView;

    closed spec fn view(&self) -> BatchView {
        BatchView {
            phase: self.phase,
            recipients: recipient_views(self.recipients@),
            total_amount: self.total_amount,
            priority_fee: self.priority_fee,
            quote: self.quote,
            start_nonce: self.start_nonce,
            plan: self.plan,
            balance: self.balance,
            results: result_views(self.results@),
        }
    }
}

impl Batch {
    /// The counters agree with the results.
    spec fn counted(&self) -> bool {
        &&& self.attempts == attempts(self@.results)
        &&& self.succeeded == successes(self@.results)
        &&& self.fees_paid == fees_paid(self@.results)
    }

    /// The batch is in a state that it can reach, and its counters agree
    /// with its results.
    pub closed spec fn wf(&self) -> bool {
        &&& self@.inv()
        &&& self.counted()
    }

    /// A well-formed batch is in a state that the invariant of the state
    /// machine admits, so that the laws of [`crate::laws`] hold of its view.
    pub proof fn lemma_wf_gives_invariant(&self)
        requires
            self.wf(),
        ensures
            self@.inv(),
    {
    }

    /// Starts a batch that distributes `total_amount` wei among the
    /// recipients, with `priority_fee` wei per unit of gas offered on top of
    /// the base fee. Nothing is asked of the network before the amount and
    /// the recipients have been checked.
    pub fn new(recipients: Vec<Recipient>, total_amount: u128, priority_fee: u128) -> (r: Result<
        Batch,
        BatchError,
    >)
        ensures
            r is Err <==> total_amount == 0 || recipients.len() == 0,
            r matches Err(error) ==> error == BatchError::InvalidAmount,
            r matches Ok(batch) ==> {
                &&& batch.wf()
                &&& batch@.inv()
                &&& batch@ == BatchView::initial(
                    recipient_views(recipients@),
                    total_amount,
                    priority_fee,
                )
            },
    {
        if total_amount == 0 || recipients.len() == 0 {
            return Err(BatchError::InvalidAmount);
        }
        let batch = Batch {
            recipients,
            total_amount,
            priority_fee,
            phase: Phase::Connecting,
            quote: None,
            start_nonce: None,
            plan: None,
            balance: None,
            results: Vec::new(),
            attempts: 0,
            succeeded: 0,
            fees_paid: 0,
        };
        assert(batch@.results =~= Seq::empty());
        Ok(batch)
    }

    /// Where the batch stands.
    pub fn phase(&self) -> (r: Phase)
        ensures
            r == self@.phase,
    {
        self.phase
    }

    /// Whether the batch has come to its end, finished or failed.
    pub fn is_done(&self) -> (r: bool)
        ensures
            r == (self@.phase == Phase::Finished || self@.phase is Failed),
    {
        match self.phase {
            Phase::Finished => true,
            Phase::Failed(_) => true,
            _ => false,
        }
    }

    /// The recipients, in the order of the input.
    pub fn recipients(&self) -> (r: &Vec<Recipient>)
        ensures
            recipient_views(r@) == self@.recipients,
    {
        &self.recipients
    }

    /// The results recorded so far, in the order of the recipients.
    pub fn results(&self) -> (r: &Vec<TransferResult>)
        ensures
            result_views(r@) == self@.results,
    {
        &self.results
    }

    /// The fee quote, once the base fee has been read.
    pub fn quote(&self) -> (r: Option<FeeQuote>)
        ensures
            r == self@.quote,
    {
        self.quote
    }

    /// The nonce of the first transfer, once the pending count has been read.
    pub fn start_nonce(&self) -> (r: Option<u64>)
        ensures
            r == self@.start_nonce,
    {
        self.start_nonce
    }

    /// The amounts, once they have been computed.
    pub fn plan(&self) -> (r: Option<TransferPlan>)
        ensures
            r == self@.plan,
    {
        self.plan
    }

    /// The funder's balance, once it has passed the guard.
    pub fn balance(&self) -> (r: Option<u128>)
        ensures
            r == self@.balance,
    {
        self.balance
    }

    /// The counts over the results recorded so far.
    pub fn summary(&self) -> (r: BatchSummary)
        requires
            self.wf(),
        ensures
            r.recipients == self@.recipients.len(),
            r.succeeded == successes(self@.results),
            r.failed == self@.results.len() - successes(self@.results),
            r.fees_paid == fees_paid(self@.results),
            r.succeeded + r.failed <= r.recipients,
            self@.phase == Phase::Finished ==> r.succeeded + r.failed == r.recipients,
    {
        proof {
            lemma_count_bounds(self@.results);
        }
        BatchSummary {
            recipients: self.recipients.len(),
            succeeded: self.succeeded,
            failed: self.results.len() - self.succeeded,
            fees_paid: self.fees_paid,
        }
    }

    /// The action that the batch waits for. For a transfer it is the request
    /// to the next recipient, with the next nonce.
    pub fn pending(&self) -> (action: Action)
        requires
            self.wf(),
        ensures
            action@ == self@.pending(),
    {
        match self.phase {
            Phase::Connecting => Action::Connect,
            Phase::Estimating => Action::QueryFees,
            Phase::FetchingBalance => Action::QueryBalance,
            Phase::Dispatching => {
                proof {
                    lemma_count_bounds(self@.results);
                }
                let i: usize = self.results.len();
                let quote: FeeQuote = self.quote.unwrap();
                let plan: TransferPlan = self.plan.unwrap();
                let start: u64 = self.start_nonce.unwrap();
                let to = self.recipients[i].destination.as_ref().unwrap().clone();
                Action::Submit(
                    TransferRequest {
                        to,
                        value: plan.per_recipient_amount,
                        nonce: start as u128 + self.attempts as u128,
                        gas_limit: ETH_TRANSFER,
                        max_fee_per_gas: quote.max_fee_per_gas,
                        max_priority_fee_per_gas: quote.priority_fee,
                    },
                )
            },
            Phase::Finished => Action::Finish,
            Phase::Failed(error) => Action::Abort(error),
        }
    }

    /// Derives the quote from the base fee, and the plan from the quote.
    fn estimate(&self, base_fee: u128) -> (r: Result<(FeeQuote, TransferPlan), BatchError>)
        ensures
            match FeeQuote::quote_for(base_fee, self@.priority_fee) {
                Ok(quote) => match allocation(
                    self@.total_amount,
                    self@.recipients.len() as usize,
                    quote,
                ) {
                    Ok(plan) => r == Ok::<(FeeQuote, TransferPlan), BatchError>((quote, plan)),
                    Err(error) => r == Err::<(FeeQuote, TransferPlan), BatchError>(error),
                },
                Err(error) => r == Err::<(FeeQuote, TransferPlan), BatchError>(error),
            },
    {
        let quote: FeeQuote = FeeQuote::estimate(base_fee, self.priority_fee)?;
        let plan: TransferPlan = allocate(self.total_amount, self.recipients.len(), &quote)?;
        Ok((quote, plan))
    }

    /// Records the outcome of the transfer to the recipient at the cursor.
    /// The nonce counts as used, whatever the outcome.
    fn record(&mut self, status: TransferStatus)
        requires
            old(self).counted(),
            old(self)@.started(),
            old(self)@.cursor() < old(self)@.recipients.len(),
            old(self)@.recipients[old(self)@.cursor()].destination is Some,
            status != TransferStatus::Failure(FailureKind::InvalidAddress),
        ensures
            final(self)@ == old(self)@.recorded(status),
            final(self).counted(),
            final(self)@.started(),
    {
        let i: usize = self.results.len();
        let start: u64 = self.start_nonce.unwrap();
        let fee: u64 = match status {
            TransferStatus::Success { tx, effective_fee } => effective_fee,
            TransferStatus::Failure(_) => 0,
        };
        let won: bool = status.is_success();
        let ghost before = self@;
        proof {
            lemma_count_bounds(before.results);
            lemma_recorded_valid(before, status);
            lemma_count_push(before.results, before.recorded(status).results.last());
            lemma_fee_sum_fits(successes(before.results), before.results.len());
        }
        let result = TransferResult {
            recipient: self.recipients[i].line.clone(),
            nonce: Some(start as u128 + self.attempts as u128),
            status,
        };
        self.results.push(result);
        self.attempts = self.attempts + 1;
        if won {
            self.succeeded = self.succeeded + 1;
        }
        self.fees_paid = self.fees_paid + fee as u128;
        assert(self@.results =~= before.recorded(status).results);
    }

    /// Records that the recipient at the cursor has no destination. No nonce
    /// is used.
    fn skip(&mut self)
        requires
            old(self).counted(),
            old(self)@.started(),
            old(self)@.cursor() < old(self)@.recipients.len(),
            old(self)@.recipients[old(self)@.cursor()].destination is None,
        ensures
            final(self)@ == old(self)@.skipped(),
            final(self).counted(),
            final(self)@.started(),
    {
        let i: usize = self.results.len();
        let ghost before = self@;
        proof {
            lemma_skipped_valid(before);
            lemma_count_push(before.results, invalid_address_result(before.recipients[i as int]));
        }
        let result = TransferResult {
            recipient: self.recipients[i].line.clone(),
            nonce: None,
            status: TransferStatus::Failure(FailureKind::InvalidAddress),
        };
        self.results.push(result);
        assert(self@.results =~= before.skipped().results);
    }

    /// Moves on to the next recipient that has a destination.
    fn advance(&mut self)
        requires
            old(self).counted(),
            old(self)@.started(),
        ensures
            final(self)@ == old(self)@.advanced(),
            final(self).wf(),
    {
        let ghost before = self@;
        while self.results.len() < self.recipients.len()
            && self.recipients[self.results.len()].destination.is_none()
            invariant
                self.counted(),
                self@.started(),
                self@.advanced() == before.advanced(),
            decreases self.recipients.len() - self.results.len(),
        {
            self.skip();
        }
        proof {
            lemma_advanced_valid(self@);
        }
        if self.results.len() < self.recipients.len() {
            self.phase = Phase::Dispatching;
        } else {
            self.phase = Phase::Finished;
        }
    }

    /// Takes the endpoint's reply to the pending action and returns the
    /// action that follows. A reply that does not answer the pending action
    /// changes nothing, and the pending action is returned once more.
    ///
    /// All results that the step adds are in place when it returns, so that
    /// the caller can report them before it performs the next action.
    pub fn step(&mut self, event: Event) -> (action: Action)
        requires
            old(self).wf(),
        ensures
            final(self).wf(),
            final(self)@.inv(),
            final(self)@ == old(self)@.next(event),
            action@ == final(self)@.pending(),
    {
        let ghost before = self@;
        proof {
            law_step_keeps_invariant(before, event);
        }
        match self.phase {
            Phase::Connecting => match event {
                Event::Connected => {
                    self.phase = Phase::Estimating;
                },
                Event::ConnectFailed => {
                    self.phase = Phase::Failed(BatchError::EndpointUnavailable);
                },
                _ => {},
            },
            Phase::Estimating => match event {
                Event::Fees { base_fee, pending_count } => {
                    match self.estimate(base_fee) {
                        Ok((quote, plan)) => {
                            self.quote = Some(quote);
                            self.start_nonce = Some(pending_count);
                            self.plan = Some(plan);
                            self.phase = Phase::FetchingBalance;
                        },
                        Err(error) => {
                            self.phase = Phase::Failed(error);
                        },
                    }
                },
                Event::QueryFailed => {
                    self.phase = Phase::Failed(BatchError::RpcQueryFailed);
                },
                _ => {},
            },
            Phase::FetchingBalance => match event {
                Event::Balance(balance) => {
                    let plan: TransferPlan = self.plan.unwrap();
                    match check_balance(balance, &plan) {
                        Ok(()) => {
                            self.balance = Some(balance);
                            assert(self@.started());
                            self.advance();
                        },
                        Err(error) => {
                            self.phase = Phase::Failed(error);
                        },
                    }
                },
                Event::QueryFailed => {
                    self.phase = Phase::Failed(BatchError::RpcQueryFailed);
                },
                _ => {},
            },
            Phase::Dispatching => match event {
                Event::Rejected => {
                    self.record(TransferStatus::Failure(FailureKind::SubmissionFailed));
                    self.advance();
                },
                Event::Reverted => {
                    self.record(TransferStatus::Failure(FailureKind::TransactionReverted));
                    self.advance();
                },
                Event::Included { tx, effective_fee } => {
                    self.record(TransferStatus::Success { tx, effective_fee });
                    self.advance();
                },
                _ => {},
            },
            Phase::Finished => {},
            Phase::Failed(_) => {},
        }
        assert(self@ == before.next(event));
        self.pending()
    }
}

/// The sum of the fees of fewer successes than a `usize` can count leaves
/// room for one more fee in 128 bits.
proof fn lemma_fee_sum_fits(won: nat, recorded: nat)
    requires
        won <= recorded < usize::MAX,
    ensures
        won * u64::MAX + u64::MAX <= u128::MAX,
{
    assert(won * u64::MAX + u64::MAX <= u128::MAX) by (nonlinear_arith)
        requires
            won < 0x1_0000_0000_0000_0000,
            u64::MAX == 0xffff_ffff_ffff_ffff,
            u128::MAX == 0xffff_ffff_ffff_ffff_ffff_ffff_ffff_ffff,
    ;
}

} // verus!
