//! The weights of the operations on the tree of tokens that own tokens.

use vstd::prelude::*;
use crate::weights::{rocks_db, saturating_add, saturating_mul, RuntimeDbWeight, Weight};

verus! {

/// The weight functions of the operations on the tree of tokens.
pub trait WeightInfo {
    /// Finding the parent of a token.
    fn find_parent() -> Weight;
}

/// The weights measured on the reference hardware, for a runtime whose
/// database takes `READ` for a read and `WRITE` for a write.
pub struct SubstrateWeight<const READ: u64, const WRITE: u64>;

fn find_parent_with(db: RuntimeDbWeight) -> (weight: Weight)
    ensures
        weight == (Weight {
            ref_time: saturating_add(7_013_000, saturating_mul(db.read, 2)),
            proof_size: 0,
        }),
{
    Weight::from_parts(7_013_000, 0).saturating_add(db.reads(2))
}

impl<const READ: u64, const WRITE: u64> WeightInfo for SubstrateWeight<READ, WRITE> {
    fn find_parent() -> (weight: Weight)
        ensures
            weight == (Weight {
                ref_time: saturating_add(7_013_000, saturating_mul(READ, 2)),
                proof_size: 0,
            }),
    {
        find_parent_with(RuntimeDbWeight { read: READ, write: WRITE })
    }
}

impl WeightInfo for () {
    fn find_parent() -> (weight: Weight)
        ensures
            weight == (Weight { ref_time: 57_013_000, proof_size: 0 }),
    {
        find_parent_with(rocks_db())
    }
}

} // verus!
