use foreign_assets::currency::CurrencyIdConvert;
use foreign_assets::ids::CollectionId;
use foreign_assets::location::{Junction, Location};
use foreign_assets::pallet::Pallet;

fn currency_chain() -> Location {
    Location::new(1, vec![Junction::Parachain(2037)]).unwrap()
}

#[test]
fn the_native_collection_is_named_by_the_own_location() {
    let pallet: Pallet<u64> = Pallet::new(77, currency_chain());
    assert_eq!(CurrencyIdConvert::convert(&pallet, CollectionId(0)), Some(currency_chain()));
}

#[test]
fn a_foreign_collection_is_named_by_its_reserve_location() {
    let mut pallet: Pallet<u64> = Pallet::new(77, currency_chain());
    let reserve = Location::new(1, vec![Junction::Parachain(1000)]).unwrap();
    assert_eq!(pallet.register(reserve.clone(), CollectionId(5)), Ok(()));
    assert_eq!(CurrencyIdConvert::convert(&pallet, CollectionId(5)), Some(reserve));
}

#[test]
fn a_local_collection_is_named_by_its_number() {
    let pallet: Pallet<u64> = Pallet::new(77, currency_chain());
    assert_eq!(
        CurrencyIdConvert::convert(&pallet, CollectionId(6)),
        Some(Location::new(1, vec![Junction::Parachain(2037), Junction::GeneralIndex(6)]).unwrap())
    );
}

#[test]
fn a_full_own_location_names_no_local_collection() {
    let full = Location::new(0, vec![Junction::OnlyChild; 8]).unwrap();
    let pallet: Pallet<u64> = Pallet::new(77, full.clone());
    assert_eq!(CurrencyIdConvert::convert(&pallet, CollectionId(6)), None);
    assert_eq!(CurrencyIdConvert::convert(&pallet, CollectionId(0)), Some(full));
}

#[test]
fn the_location_of_a_local_collection_resolves_back_to_it() {
    let pallet: Pallet<u64> = Pallet::new(77, currency_chain());
    let location = CurrencyIdConvert::convert(&pallet, CollectionId(6)).unwrap();
    assert_eq!(
        pallet.local_asset_location_to_collection(&location),
        Some(foreign_assets::locality::CollectionLocality::Local(CollectionId(6)))
    );
}
