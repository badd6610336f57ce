//! Payment for the execution of cross-chain messages.

use vstd::prelude::*;
use crate::error::XcmError;
use crate::weights::Weight;

verus! {

/// A trader that accepts any payment and charges nothing.
#[derive(Clone, Copy, Debug)]
pub struct FreeForAll;

impl FreeForAll {
    /// A new trader.
    pub fn new() -> FreeForAll {
        FreeForAll
    }

    /// Buys `weight` with `payment`: everything that was offered is handed
    /// back, whatever the weight.
    pub fn buy_weight<Payment>(&mut self, weight: Weight, payment: Payment) -> (unused: Result<
        Payment,
        XcmError,
    >)
        ensures
            unused == Ok::<Payment, XcmError>(payment),
    {
        Ok(payment)
    }
}

} // verus!
