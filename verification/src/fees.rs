//! The fee quote of a batch: what the funder offers to pay for each unit of
//! gas.

use vstd::prelude::*;
use crate::error::BatchError;

verus! {

/// Fees for one unit of gas, in wei. A quote is taken once per batch, just
/// before the transfers are sent.
#[derive(Clone, Copy, Debug, PartialEq, Eq, Structural)]
pub struct FeeQuote {
    /// What the network charges at present.
    pub base_fee: u128,
    /// What is offered to the validator on top of the base fee.
    pub priority_fee: u128,
    /// The most that the funder authorises per unit of gas.
    pub max_fee_per_gas: u128,
}

impl FeeQuote {
    /// A quote is consistent when its cap is the base fee plus the priority
    /// fee.
    pub open spec fn wf(&self) -> bool {
        self.max_fee_per_gas == self.base_fee + self.priority_fee
    }

    /// The quote for a base fee read from the network and a fixed priority
    /// fee, as far as their sum fits.
    pub open spec fn quote_for(base_fee: u128, priority_fee: u128) -> Result<FeeQuote, BatchError> {
        if base_fee + priority_fee <= u128::MAX {
            Ok(
                (FeeQuote {
                    base_fee,
                    priority_fee,
                    max_fee_per_gas: (base_fee + priority_fee) as u128,
                }),
            )
        } else {
            Err(BatchError::AmountOverflow)
        }
    }

    /// Derives the quote from the network's base fee: the priority fee is the
    /// given increment, and the cap is their sum.
    pub fn estimate(base_fee: u128, priority_fee: u128) -> (r: Result<FeeQuote, BatchError>)
        ensures
            r == Self::quote_for(base_fee, priority_fee),
            r matches Ok(q) ==> q.wf(),
    {
        match base_fee.checked_add(priority_fee) {
            Some(max_fee_per_gas) => Ok(FeeQuote { base_fee, priority_fee, max_fee_per_gas }),
            None => Err(BatchError::AmountOverflow),
        }
    }
}

} // verus!
