//! The figures that are reported while a batch runs and when it ends.

use vstd::prelude::*;
use crate::constant::ETH_TRANSFER;

verus! {

/// Counts over the results recorded so far. While a batch runs they are its
/// running count; once it is finished they are its final summary.
#[derive(Clone, Copy, Debug, PartialEq, Eq, Structural)]
pub struct BatchSummary {
    /// How many recipients the batch has.
    pub recipients: usize,
    /// How many transfers were included.
    pub succeeded: usize,
    /// How many recipients have a failure recorded.
    pub failed: usize,
    /// The sum of the effective fees of the transfers that were included, in
    /// wei per unit of gas.
    pub fees_paid: u128,
}

impl BatchSummary {
    /// The wei spent on fees: each transfer that was included used the gas of
    /// a plain transfer at its effective fee.
    pub open spec fn fee_total(&self) -> int {
        self.fees_paid * ETH_TRANSFER
    }

    /// The wei spent on fees, where the sum fits in 128 bits.
    pub fn fee_spent(&self) -> (r: Option<u128>)
        ensures
            r matches Some(wei) ==> wei == self.fee_total(),
            r is None <==> self.fee_total() > u128::MAX,
    {
        self.fees_paid.checked_mul(ETH_TRANSFER as u128)
    }
}

} // verus!
