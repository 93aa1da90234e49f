//! How much each recipient is sent, and whether the funder can afford it.

use vstd::prelude::*;
use crate::constant::ETH_TRANSFER;
use crate::error::BatchError;
use crate::fees::FeeQuote;

verus! {

/// The amounts of one batch, in wei. Computed once and never changed.
#[derive(Clone, Copy, Debug, PartialEq, Eq, Structural)]
pub struct TransferPlan {
    /// What each transfer carries: the recipient's share plus the fee buffer.
    pub per_recipient_amount: u128,
    /// What the funder must hold before the first transfer is sent.
    pub total_required: u128,
    /// How many recipients share the total.
    pub recipient_count: usize,
}

/// The fee that one plain transfer costs at most under a cap of
/// `max_fee_per_gas` per unit of gas.
pub open spec fn fee_buffer(max_fee_per_gas: u128) -> int {
    max_fee_per_gas * ETH_TRANSFER
}

/// The amount of one transfer: an equal share of the total, rounded down, and
/// the fee buffer on top.
pub open spec fn per_recipient(total_amount: u128, recipient_count: usize, max_fee_per_gas: u128) -> int
    recommends
        recipient_count > 0,
{
    total_amount as int / recipient_count as int + fee_buffer(max_fee_per_gas)
}

/// The sum of all transfers of a batch.
pub open spec fn total_required(total_amount: u128, recipient_count: usize, max_fee_per_gas: u128) -> int
    recommends
        recipient_count > 0,
{
    per_recipient(total_amount, recipient_count, max_fee_per_gas) * recipient_count
}

/// The plan for a request, or the reason why there is none.
pub open spec fn allocation(total_amount: u128, recipient_count: usize, quote: FeeQuote) -> Result<
    TransferPlan,
    BatchError,
> {
    if total_amount == 0 || recipient_count == 0 {
        Err(BatchError::InvalidAmount)
    } else if total_required(total_amount, recipient_count, quote.max_fee_per_gas) > u128::MAX {
        Err(BatchError::AmountOverflow)
    } else {
        Ok(
            (TransferPlan {
                per_recipient_amount: per_recipient(
                    total_amount,
                    recipient_count,
                    quote.max_fee_per_gas,
                ) as u128,
                total_required: total_required(
                    total_amount,
                    recipient_count,
                    quote.max_fee_per_gas,
                ) as u128,
                recipient_count,
            }),
        )
    }
}

impl TransferPlan {
    /// A plan is consistent when the total is the amount of one transfer
    /// times the number of recipients, of which there is at least one.
    pub open spec fn wf(&self) -> bool {
        &&& self.recipient_count > 0
        &&& self.total_required == self.per_recipient_amount * self.recipient_count
    }
}

/// Computes the plan of a batch. The share of each recipient is the total
/// divided by their number, rounded down; the fee buffer, which is the cost
/// of one plain transfer at the quote's cap, is added to each share.
pub fn allocate(total_amount: u128, recipient_count: usize, quote: &FeeQuote) -> (r: Result<
    TransferPlan,
    BatchError,
>)
    ensures
        r == allocation(total_amount, recipient_count, *quote),
        r == Err::<TransferPlan, BatchError>(BatchError::InvalidAmount) <==> (total_amount == 0
            || recipient_count == 0),
        r == Err::<TransferPlan, BatchError>(BatchError::AmountOverflow) <==> (total_amount > 0
            && recipient_count > 0 && total_required(
            total_amount,
            recipient_count,
            quote.max_fee_per_gas,
        ) > u128::MAX),
        r matches Ok(plan) ==> {
            &&& plan.wf()
            &&& plan.recipient_count == recipient_count
            &&& plan.per_recipient_amount >= total_amount / (recipient_count as u128)
            &&& quote.max_fee_per_gas > 0 ==> plan.per_recipient_amount > total_amount / (
            recipient_count as u128)
        },
{
    if total_amount == 0 || recipient_count == 0 {
        return Err(BatchError::InvalidAmount);
    }
    let count: u128 = recipient_count as u128;
    let share: u128 = total_amount / count;
    proof {
        lemma_total_bounds(total_amount, recipient_count, quote.max_fee_per_gas);
    }
    let buffer: u128 = match quote.max_fee_per_gas.checked_mul(ETH_TRANSFER as u128) {
        Some(buffer) => buffer,
        None => {
            return Err(BatchError::AmountOverflow);
        },
    };
    let each: u128 = match share.checked_add(buffer) {
        Some(each) => each,
        None => {
            return Err(BatchError::AmountOverflow);
        },
    };
    match each.checked_mul(count) {
        Some(total) => Ok(
            TransferPlan { per_recipient_amount: each, total_required: total, recipient_count },
        ),
        None => Err(BatchError::AmountOverflow),
    }
}

/// The balance guard: a batch may start only if the funder holds at least the
/// plan's total. Both values are reported when it does not.
pub fn check_balance(balance: u128, plan: &TransferPlan) -> (r: Result<(), BatchError>)
    ensures
        r is Err <==> balance < plan.total_required,
        r is Err ==> r == Err::<(), BatchError>(
            BatchError::InsufficientFunds { balance, required: plan.total_required },
        ),
{
    if balance < plan.total_required {
        Err(BatchError::InsufficientFunds { balance, required: plan.total_required })
    } else {
        Ok(())
    }
}

/// The allocation rule is exact: where there is a plan, its total is the
/// amount of one transfer times the number of recipients, and the amount of
/// one transfer is the recipient's share plus the fee buffer, which is more
/// than the share alone as soon as the fee cap is positive.
pub proof fn law_allocation_exact(total_amount: u128, recipient_count: usize, quote: FeeQuote)
    requires
        total_amount > 0,
        recipient_count >= 1,
    ensures
        !(allocation(total_amount, recipient_count, quote) matches Err(BatchError::InvalidAmount)),
        allocation(total_amount, recipient_count, quote) matches Ok(plan) ==> {
            &&& plan.recipient_count == recipient_count
            &&& plan.total_required == plan.per_recipient_amount * recipient_count
            &&& plan.per_recipient_amount == total_amount as int / recipient_count as int
                + quote.max_fee_per_gas * ETH_TRANSFER
            &&& plan.per_recipient_amount >= total_amount as int / recipient_count as int
            &&& quote.max_fee_per_gas > 0 ==> plan.per_recipient_amount > total_amount as int
                / recipient_count as int
        },
{
    lemma_total_bounds(total_amount, recipient_count, quote.max_fee_per_gas);
}

/// The total is at least the amount of one transfer, which is at least the
/// fee buffer: when one of them exceeds 128 bits, so does the total.
proof fn lemma_total_bounds(total_amount: u128, recipient_count: usize, max_fee_per_gas: u128)
    requires
        recipient_count > 0,
    ensures
        0 <= fee_buffer(max_fee_per_gas) <= per_recipient(
            total_amount,
            recipient_count,
            max_fee_per_gas,
        ),
        0 <= total_amount as int / recipient_count as int <= per_recipient(
            total_amount,
            recipient_count,
            max_fee_per_gas,
        ),
        per_recipient(total_amount, recipient_count, max_fee_per_gas) <= total_required(
            total_amount,
            recipient_count,
            max_fee_per_gas,
        ),
        fee_buffer(max_fee_per_gas) > 0 <==> max_fee_per_gas > 0,
{
    let each = per_recipient(total_amount, recipient_count, max_fee_per_gas);
    let share = total_amount as int / recipient_count as int;
    assert(share >= 0) by (nonlinear_arith)
        requires
            share == total_amount as int / recipient_count as int,
            total_amount >= 0,
            recipient_count > 0,
    ;
    assert(each * recipient_count >= each) by (nonlinear_arith)
        requires
            each >= 0,
            recipient_count >= 1,
    ;
}

} // verus!
