//! The weights of the operations that all kinds of collections share.

use vstd::prelude::*;
use crate::weights::{
    rocks_db,
    rocks_db_weight,
    saturating_add,
    saturating_mul,
    RuntimeDbWeight,
    Weight,
};

verus! {

/// The computation time of setting `b` collection properties, with the given
/// database weights: a base, a share for each property, one read and one
/// write.
pub open spec fn set_collection_properties_ref_time(b: u32, db: RuntimeDbWeight) -> u64 {
    saturating_add(
        saturating_add(
            saturating_add(28_643_440, saturating_mul(18_277_422, b as u64)),
            saturating_mul(db.read, 1),
        ),
        saturating_mul(db.write, 1),
    )
}

/// The weight functions of the operations on collections.
pub trait WeightInfo {
    /// Setting `b` properties of a collection.
    fn set_collection_properties(b: u32) -> Weight;

    /// Looking an account up in the access list.
    fn check_accesslist() -> Weight;

    /// Loading what a property writer needs to know of a collection.
    fn property_writer_load_collection_info() -> Weight;
}

/// The weights measured on the reference hardware, for a runtime whose
/// database takes `READ` for a read and `WRITE` for a write.
pub struct SubstrateWeight<const READ: u64, const WRITE: u64>;

fn set_collection_properties_with(b: u32, db: RuntimeDbWeight) -> (weight: Weight)
    ensures
        weight == (Weight {
            ref_time: set_collection_properties_ref_time(b, db),
            proof_size: 44457,
        }),
{
    Weight::from_parts(28_643_440, 44457).saturating_add(
        Weight::from_parts(18_277_422, 0).saturating_mul(b as u64),
    ).saturating_add(db.reads(1)).saturating_add(db.writes(1))
}

fn check_accesslist_with(db: RuntimeDbWeight) -> (weight: Weight)
    ensures
        weight == (Weight {
            ref_time: saturating_add(4_460_000, saturating_mul(db.read, 1)),
            proof_size: 3535,
        }),
{
    Weight::from_parts(4_460_000, 3535).saturating_add(db.reads(1))
}

fn property_writer_load_collection_info_with(db: RuntimeDbWeight) -> (weight: Weight)
    ensures
        weight == (Weight {
            ref_time: saturating_add(6_350_000, saturating_mul(db.read, 2)),
            proof_size: 20191,
        }),
{
    Weight::from_parts(6_350_000, 20191).saturating_add(db.reads(2))
}

impl<const READ: u64, const WRITE: u64> WeightInfo for SubstrateWeight<READ, WRITE> {
    fn set_collection_properties(b: u32) -> (weight: Weight)
        ensures
            weight == (Weight {
                ref_time: set_collection_properties_ref_time(
                    b,
                    RuntimeDbWeight { read: READ, write: WRITE },
                ),
                proof_size: 44457,
            }),
    {
        set_collection_properties_with(b, RuntimeDbWeight { read: READ, write: WRITE })
    }

    fn check_accesslist() -> (weight: Weight)
        ensures
            weight == (Weight {
                ref_time: saturating_add(4_460_000, saturating_mul(READ, 1)),
                proof_size: 3535,
            }),
    {
        check_accesslist_with(RuntimeDbWeight { read: READ, write: WRITE })
    }

    fn property_writer_load_collection_info() -> (weight: Weight)
        ensures
            weight == (Weight {
                ref_time: saturating_add(6_350_000, saturating_mul(READ, 2)),
                proof_size: 20191,
            }),
    {
        property_writer_load_collection_info_with(RuntimeDbWeight { read: READ, write: WRITE })
    }
}

impl WeightInfo for () {
    fn set_collection_properties(b: u32) -> (weight: Weight)
        ensures
            weight == (Weight {
                ref_time: set_collection_properties_ref_time(b, rocks_db_weight()),
                proof_size: 44457,
            }),
    {
        set_collection_properties_with(b, rocks_db())
    }

    fn check_accesslist() -> (weight: Weight)
        ensures
            weight == (Weight { ref_time: 29_460_000, proof_size: 3535 }),
    {
        check_accesslist_with(rocks_db())
    }

    fn property_writer_load_collection_info() -> (weight: Weight)
        ensures
            weight == (Weight { ref_time: 56_350_000, proof_size: 20191 }),
    {
        property_writer_load_collection_info_with(rocks_db())
    }
}

} // verus!
