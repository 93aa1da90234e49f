//! What holds of every batch, proved of the state machine in
//! [`crate::protocol`].

use vstd::prelude::*;
use crate::error::{BatchError, FailureKind};
use crate::plan::{allocation, law_allocation_exact, TransferPlan};
use crate::protocol::{invalid_address_result, outcome, ActionView, BatchView, Event, Phase};
use crate::recipient::RecipientView;
use crate::transfer::{
    attempts,
    lemma_count_bounds,
    lemma_count_push,
    nonces,
    TransferResultView,
    TransferStatus,
};

verus! {

/// A result that is appended leaves the results before it, and what was
/// counted up to each of them, as they were.
proof fn lemma_push_keeps_prefixes(results: Seq<TransferResultView>, last: TransferResultView)
    ensures
        results.push(last).take(results.len() as int) == results,
        forall|i: int|
            0 <= i < results.len() ==> {
                &&& #[trigger] results.push(last)[i] == results[i]
                &&& #[trigger] results.push(last).take(i) == results.take(i)
            },
{
    assert(results.push(last).take(results.len() as int) =~= results);
    assert forall|i: int| 0 <= i < results.len() implies #[trigger] results.push(last).take(i)
        == results.take(i) by {
        assert(results.push(last).take(i) =~= results.take(i));
    }
}

/// The nonce of the next transfer fits in 128 bits.
proof fn lemma_next_nonce_fits(s: BatchView)
    requires
        s.start_nonce is Some,
        s.results.len() <= usize::MAX,
    ensures
        0 <= s.next_nonce() <= u128::MAX,
{
    lemma_count_bounds(s.results);
}

/// Recording the outcome of a transfer keeps the results in line with the
/// recipients.
pub(crate) proof fn lemma_recorded_valid(s: BatchView, status: TransferStatus)
    requires
        s.started(),
        s.cursor() < s.recipients.len(),
        s.recipients[s.cursor()].destination is Some,
        status != TransferStatus::Failure(FailureKind::InvalidAddress),
    ensures
        s.recorded(status).started(),
        s.recorded(status).phase == s.phase,
        attempts(s.recorded(status).results) == attempts(s.results) + 1,
{
    let t = s.recorded(status);
    let last = t.results.last();
    lemma_next_nonce_fits(s);
    lemma_push_keeps_prefixes(s.results, last);
    lemma_count_push(s.results, last);
    assert(t.results == s.results.push(last));
    assert forall|i: int| 0 <= i < t.results.len() implies #[trigger] t.result_matches(i) by {
        if i < s.results.len() {
            assert(s.result_matches(i));
        }
    }
}

/// Passing over a recipient without a destination keeps the results in line
/// with the recipients, and uses no nonce.
pub(crate) proof fn lemma_skipped_valid(s: BatchView)
    requires
        s.started(),
        s.cursor() < s.recipients.len(),
        s.recipients[s.cursor()].destination is None,
    ensures
        s.skipped().started(),
        s.skipped().phase == s.phase,
        attempts(s.skipped().results) == attempts(s.results),
{
    let t = s.skipped();
    let last = t.results.last();
    lemma_push_keeps_prefixes(s.results, last);
    lemma_count_push(s.results, last);
    assert(t.results == s.results.push(last));
    assert forall|i: int| 0 <= i < t.results.len() implies #[trigger] t.result_matches(i) by {
        if i < s.results.len() {
            assert(s.result_matches(i));
        }
    }
}

/// What holds of a started batch does not depend on its phase.
proof fn lemma_started_in_any_phase(s: BatchView, phase: Phase)
    requires
        s.started(),
    ensures
        (BatchView { phase, ..s }).started(),
{
    let t = BatchView { phase, ..s };
    assert forall|i: int| 0 <= i < t.results.len() implies #[trigger] t.result_matches(i) by {
        assert(s.result_matches(i));
    }
}

/// Moving on to the next recipient leaves the batch waiting for a transfer to
/// a recipient with a destination, or finished. It records results only, and
/// none of them uses a nonce.
pub(crate) proof fn lemma_advanced_valid(s: BatchView)
    requires
        s.started(),
    ensures
        s.advanced().inv(),
        s.advanced().phase == Phase::Dispatching || s.advanced().phase == Phase::Finished,
        s.advanced().started(),
        attempts(s.advanced().results) == attempts(s.results),
        s.advanced().results.len() >= s.results.len(),
        s.advanced().results.take(s.results.len() as int) == s.results,
        s.advanced() == (BatchView {
            phase: s.advanced().phase,
            results: s.advanced().results,
            ..s
        }),
    decreases s.recipients.len() - s.results.len(),
{
    if s.cursor() >= s.recipients.len() {
        lemma_started_in_any_phase(s, Phase::Finished);
        assert(s.advanced().results.take(s.results.len() as int) =~= s.results);
    } else if s.recipients[s.cursor()].destination is Some {
        lemma_started_in_any_phase(s, Phase::Dispatching);
        assert(s.advanced().results.take(s.results.len() as int) =~= s.results);
    } else {
        lemma_skipped_valid(s);
        lemma_advanced_valid(s.skipped());
        let mid = s.skipped().results;
        let end = s.advanced().results;
        assert(end.take(mid.len() as int) == mid);
        assert(end.take(s.results.len() as int) =~= mid.take(s.results.len() as int));
        assert(mid.take(s.results.len() as int) =~= s.results);
    }
}

/// A batch that was just created is in a state that the invariant admits.
pub proof fn law_initial_state(recipients: Seq<RecipientView>, total_amount: u128, priority_fee: u128)
    requires
        total_amount > 0,
        0 < recipients.len() <= usize::MAX,
    ensures
        BatchView::initial(recipients, total_amount, priority_fee).inv(),
{
}

/// Every step keeps the invariant: whatever the endpoint replies, the batch
/// stays in a state in which each recorded result belongs to its recipient,
/// the plan is the one that the request and the quote give, and no transfer
/// was sent unless the balance covered the plan's total.
pub proof fn law_step_keeps_invariant(s: BatchView, event: Event)
    requires
        s.inv(),
    ensures
        s.next(event).inv(),
{
    match s.phase {
        Phase::Connecting => {},
        Phase::Estimating => {},
        Phase::FetchingBalance => {
            if let Event::Balance(balance) = event {
                if balance >= s.plan.unwrap().total_required {
                    let t = BatchView { balance: Some(balance), ..s };
                    assert(t.started());
                    lemma_advanced_valid(t);
                }
            }
        },
        Phase::Dispatching => {
            if let Some(status) = outcome(event) {
                lemma_recorded_valid(s, status);
                lemma_advanced_valid(s.recorded(status));
            }
        },
        Phase::Finished => {},
        Phase::Failed(_) => {},
    }
}

/// The balance guard: a batch ends with `InsufficientFunds` if and only if
/// the balance that was read is below the plan's total. The error reports
/// both values, and no transfer was or will be handed to the network.
pub proof fn law_insufficient_funds(s: BatchView, event: Event)
    requires
        s.inv(),
        !(s.phase is Failed),
    ensures
        s.next(event).phase matches Phase::Failed(BatchError::InsufficientFunds { .. }) <==> {
            &&& s.phase == Phase::FetchingBalance
            &&& event matches Event::Balance(balance)
            &&& balance < s.plan.unwrap().total_required
        },
        s.next(event).phase matches Phase::Failed(
            BatchError::InsufficientFunds { balance, required },
        ) ==> {
            &&& event == Event::Balance(balance)
            &&& required == s.plan.unwrap().total_required
            &&& s.next(event).results.len() == 0
            &&& s.next(event).pending() == ActionView::Abort(
                BatchError::InsufficientFunds { balance, required },
            )
        },
{
    law_step_keeps_invariant(s, event);
    match s.phase {
        Phase::FetchingBalance => {
            if let Event::Balance(balance) = event {
                if balance >= s.plan.unwrap().total_required {
                    let t = BatchView { balance: Some(balance), ..s };
                    lemma_advanced_valid(t);
                }
            }
        },
        Phase::Dispatching => {
            if let Some(status) = outcome(event) {
                lemma_recorded_valid(s, status);
                lemma_advanced_valid(s.recorded(status));
            }
        },
        _ => {},
    }
}

/// What was learned and recorded stays: a step leaves the request as it is,
/// and the quote, the starting nonce, the plan and the balance once they are
/// known; it adds results behind those that are there without changing any
/// of them.
pub proof fn law_step_only_appends(s: BatchView, event: Event)
    requires
        s.inv(),
    ensures
        s.next(event).recipients == s.recipients,
        s.next(event).total_amount == s.total_amount,
        s.next(event).priority_fee == s.priority_fee,
        s.quote is Some ==> s.next(event).quote == s.quote,
        s.start_nonce is Some ==> s.next(event).start_nonce == s.start_nonce,
        s.plan is Some ==> s.next(event).plan == s.plan,
        s.balance is Some ==> s.next(event).balance == s.balance,
        s.next(event).results.len() >= s.results.len(),
        s.next(event).results.take(s.results.len() as int) == s.results,
{
    assert(s.results.take(s.results.len() as int) =~= s.results);
    match s.phase {
        Phase::FetchingBalance => {
            if let Event::Balance(balance) = event {
                if balance >= s.plan.unwrap().total_required {
                    lemma_advanced_valid(BatchView { balance: Some(balance), ..s });
                }
            }
        },
        Phase::Dispatching => {
            if let Some(status) = outcome(event) {
                let t = s.recorded(status);
                lemma_recorded_valid(s, status);
                lemma_advanced_valid(t);
                assert(t.results.take(s.results.len() as int) =~= s.results);
                assert(t.advanced().results.take(s.results.len() as int) =~= t.advanced().results.take(
                    t.results.len() as int,
                ).take(s.results.len() as int));
            }
        },
        _ => {},
    }
}

/// A batch that ended with an error has sent nothing, and asks for nothing
/// more to be sent; it stays as it is whatever event follows.
pub proof fn law_failed_batch_sent_nothing(s: BatchView, event: Event)
    requires
        s.inv(),
        s.phase is Failed,
    ensures
        s.results.len() == 0,
        attempts(s.results) == 0,
        s.pending() is Abort,
        s.next(event) == s,
{
}

/// The nonces of the transfers handed to the network, in the order in which
/// they were sent, are the starting nonce, the starting nonce plus one, and
/// so on without a gap, whether the transfers succeeded or not.
pub proof fn law_nonces_are_consecutive(s: BatchView)
    requires
        s.inv(),
    ensures
        nonces(s.results).len() == attempts(s.results),
        forall|k: int|
            0 <= k < nonces(s.results).len() ==> #[trigger] nonces(s.results)[k]
                == s.start_nonce.unwrap() + k,
        s.phase == Phase::Dispatching ==> s.request().nonce == s.start_nonce.unwrap() + nonces(
            s.results,
        ).len(),
{
    lemma_count_bounds(s.results);
    if s.results.len() > 0 {
        lemma_nonces_of_prefix(s, s.results.len() as int);
        assert(s.results.take(s.results.len() as int) =~= s.results);
    }
    if s.phase == Phase::Dispatching {
        lemma_next_nonce_fits(s);
    }
}

/// The nonces carried by the first `n` results count up from the starting
/// nonce.
proof fn lemma_nonces_of_prefix(s: BatchView, n: int)
    requires
        s.results_valid(),
        0 <= n <= s.results.len(),
    ensures
        nonces(s.results.take(n)).len() == attempts(s.results.take(n)),
        forall|k: int|
            0 <= k < nonces(s.results.take(n)).len() ==> #[trigger] nonces(s.results.take(n))[k]
                == s.start_nonce.unwrap() + k,
    decreases n,
{
    if n > 0 {
        lemma_nonces_of_prefix(s, n - 1);
        assert(s.results.take(n).drop_last() =~= s.results.take(n - 1));
        assert(s.results.take(n).last() == s.results[n - 1]);
        assert(s.result_matches(n - 1));
    }
}

/// When the batch is finished there is exactly one result for each
/// recipient, and the results stand in the order of the recipients. Before
/// that, the results recorded so far belong to the first recipients, in
/// their order.
pub proof fn law_one_result_per_recipient(s: BatchView)
    requires
        s.inv(),
    ensures
        s.results.len() <= s.recipients.len(),
        s.phase == Phase::Finished ==> s.results.len() == s.recipients.len(),
        forall|i: int|
            0 <= i < s.results.len() ==> (#[trigger] s.results[i]).recipient
                == s.recipients[i].line,
{
    assert forall|i: int| 0 <= i < s.results.len() implies (#[trigger] s.results[i]).recipient
        == s.recipients[i].line by {
        assert(s.result_matches(i));
    }
}

/// A recipient whose line is no destination gets exactly the result
/// `InvalidAddress`, which carries no nonce and uses none: the next recipient
/// that has a destination is sent the nonce that the failed one would have
/// been sent.
pub proof fn law_invalid_address_uses_no_nonce(s: BatchView, i: int, j: int)
    requires
        s.inv(),
        0 <= i < j < s.results.len(),
        s.recipients[j].destination is Some,
        forall|m: int| i <= m < j ==> (#[trigger] s.recipients[m]).destination is None,
    ensures
        s.results[i] == invalid_address_result(s.recipients[i]),
        attempts(s.results.take(i + 1)) == attempts(s.results.take(i)),
        s.results[j].nonce matches Some(nonce) && nonce == s.start_nonce.unwrap() + attempts(
            s.results.take(i),
        ),
{
    assert(s.result_matches(i));
    assert(s.result_matches(j));
    lemma_no_nonce_between(s, i, i + 1);
    lemma_no_nonce_between(s, i, j);
}

/// While a transfer is pending, the recipients without a destination that
/// stand just before its recipient have used no nonce: the request carries
/// the nonce that the first of them would have been sent.
pub proof fn law_pending_nonce_skips_invalid_addresses(s: BatchView, i: int)
    requires
        s.inv(),
        s.phase == Phase::Dispatching,
        0 <= i <= s.results.len(),
        forall|m: int| i <= m < s.results.len() ==> (#[trigger] s.recipients[m]).destination is None,
    ensures
        s.pending() == ActionView::Submit(s.request()),
        s.request().to == s.recipients[s.cursor()].destination.unwrap(),
        s.request().nonce == s.start_nonce.unwrap() + attempts(s.results.take(i)),
{
    lemma_next_nonce_fits(s);
    lemma_no_nonce_between(s, i, s.results.len() as int);
    assert(s.results.take(s.results.len() as int) =~= s.results);
}

/// Results of recipients without a destination do not add to the count of
/// transfers handed to the network.
proof fn lemma_no_nonce_between(s: BatchView, i: int, j: int)
    requires
        s.results_valid(),
        0 <= i <= j <= s.results.len(),
        forall|m: int| i <= m < j ==> (#[trigger] s.recipients[m]).destination is None,
    ensures
        attempts(s.results.take(j)) == attempts(s.results.take(i)),
    decreases j - i,
{
    if i < j {
        lemma_no_nonce_between(s, i, j - 1);
        assert(s.results.take(j).drop_last() =~= s.results.take(j - 1));
        assert(s.results.take(j).last() == s.results[j - 1]);
        assert(s.result_matches(j - 1));
        assert(s.recipients[j - 1].destination is None);
    }
}

/// The plan of a batch that has started is the one that the allocation rule
/// gives: the total is the amount of one transfer times the number of
/// recipients, and the balance that was read covers it.
pub proof fn law_started_batch_is_funded(s: BatchView)
    requires
        s.inv(),
        s.phase == Phase::Dispatching || s.phase == Phase::Finished,
    ensures
        s.plan is Some,
        s.balance is Some,
        s.plan.unwrap().total_required == s.plan.unwrap().per_recipient_amount
            * s.recipients.len(),
        s.plan.unwrap().total_required <= s.balance.unwrap(),
        allocation(s.total_amount, s.recipients.len() as usize, s.quote.unwrap()) == Ok::<
            TransferPlan,
            BatchError,
        >(s.plan.unwrap()),
{
    law_allocation_exact(s.total_amount, s.recipients.len() as usize, s.quote.unwrap());
}

} // verus!
