use foreign_assets::error::XcmError;
use foreign_assets::trader::FreeForAll;
use foreign_assets::weights::common::{SubstrateWeight, WeightInfo};
use foreign_assets::weights::structure::{
    SubstrateWeight as StructureWeight, WeightInfo as StructureWeightInfo,
};
use foreign_assets::weights::{rocks_db, RuntimeDbWeight, Weight};

#[test]
fn weights_add_and_multiply_with_saturation() {
    let a = Weight::from_parts(10, 20);
    assert_eq!((a.ref_time(), a.proof_size()), (10, 20));
    let sum = a.saturating_add(Weight::from_parts(1, u64::MAX));
    assert_eq!(sum, Weight::from_parts(11, u64::MAX));
    assert_eq!(a.saturating_mul(3), Weight::from_parts(30, 60));
    assert_eq!(a.saturating_mul(u64::MAX), Weight::from_parts(u64::MAX, u64::MAX));
    assert_eq!(a.saturating_mul(0), Weight::from_parts(0, 0));
}

#[test]
fn database_weights() {
    let db = RuntimeDbWeight { read: 3, write: 5 };
    assert_eq!(db.reads(4), Weight::from_parts(12, 0));
    assert_eq!(db.writes(4), Weight::from_parts(20, 0));
    assert_eq!(db.reads(u64::MAX), Weight::from_parts(u64::MAX, 0));
    assert_eq!(rocks_db(), RuntimeDbWeight { read: 25_000_000, write: 100_000_000 });
}

#[test]
fn the_weights_of_the_common_operations() {
    assert_eq!(
        <() as WeightInfo>::set_collection_properties(0),
        Weight::from_parts(28_643_440 + 125_000_000, 44457)
    );
    assert_eq!(
        <() as WeightInfo>::set_collection_properties(64),
        Weight::from_parts(28_643_440 + 64 * 18_277_422 + 125_000_000, 44457)
    );
    assert_eq!(<() as WeightInfo>::check_accesslist(), Weight::from_parts(29_460_000, 3535));
    assert_eq!(
        <() as WeightInfo>::property_writer_load_collection_info(),
        Weight::from_parts(56_350_000, 20191)
    );
    assert_eq!(
        SubstrateWeight::<25_000_000, 100_000_000>::set_collection_properties(2),
        <() as WeightInfo>::set_collection_properties(2)
    );
    assert_eq!(
        SubstrateWeight::<{ u64::MAX }, 1>::set_collection_properties(1),
        Weight::from_parts(u64::MAX, 44457)
    );
    assert_eq!(SubstrateWeight::<{ u64::MAX }, 1>::check_accesslist(), Weight::from_parts(u64::MAX, 3535));
    assert_eq!(
        SubstrateWeight::<25_000_000, 100_000_000>::property_writer_load_collection_info(),
        Weight::from_parts(56_350_000, 20191)
    );
}

#[test]
fn the_weight_of_finding_a_parent() {
    assert_eq!(<() as StructureWeightInfo>::find_parent(), Weight::from_parts(57_013_000, 0));
    assert_eq!(
        StructureWeight::<25_000_000, 100_000_000>::find_parent(),
        Weight::from_parts(57_013_000, 0)
    );
    assert_eq!(StructureWeight::<{ u64::MAX }, 1>::find_parent(), Weight::from_parts(u64::MAX, 0));
}

#[test]
fn the_free_trader_hands_the_payment_back() {
    let mut trader = FreeForAll::new();
    let bought: Result<Vec<u8>, XcmError> =
        trader.buy_weight(Weight::from_parts(1_000_000, 64), vec![1, 2, 3]);
    assert_eq!(bought, Ok(vec![1, 2, 3]));
    assert_eq!(trader.buy_weight(Weight::from_parts(u64::MAX, u64::MAX), 0u8), Ok(0u8));
}
