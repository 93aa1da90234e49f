//! Unit scales and the fixed cost of a plain transfer. All amounts in this
//! library are whole numbers of wei.

use vstd::prelude::*;

verus! {

/// Wei in one gwei.
pub const GWEI: u128 = 1_000_000_000;

/// Wei in one ether.
pub const WEI: u128 = 1_000_000_000_000_000_000;

/// Gas that a plain value transfer consumes.
pub const ETH_TRANSFER: u64 = 21_000;

} // verus!
