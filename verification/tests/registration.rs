use foreign_assets::bridge::{
    reserve_asset_instance_property_key, reserve_location_property_key, ItemProperty,
};
use foreign_assets::collection::CollectionMode;
use foreign_assets::error::Error;
use foreign_assets::ids::CollectionId;
use foreign_assets::location::{Junction, Location};
use foreign_assets::pallet::Pallet;
use foreign_assets::property::PropertyPermission;
use foreign_assets::registration::{
    collection_data, foreign_collection_description_units, CollectionData, Event,
    ForeignCollectionMode, KeyPermission,
};
use parity_scale_codec::Encode;
use staging_xcm::v3::Junction as X;
use staging_xcm::v3::{Junctions, MultiLocation};

fn registration_chain() -> Location {
    Location::new(1, vec![Junction::Parachain(2037)]).unwrap()
}

fn registration_reserve() -> Location {
    Location::new(1, vec![Junction::Parachain(1000), Junction::PalletInstance(50)]).unwrap()
}

fn utf16(text: &str) -> Vec<u16> {
    text.encode_utf16().collect()
}

#[test]
fn the_property_keys_are_the_fixed_names() {
    assert_eq!(reserve_location_property_key(), b"reserve-location".to_vec());
    assert_eq!(reserve_asset_instance_property_key(), b"reserve-asset-instance".to_vec());
}

#[test]
fn the_description_is_the_fixed_text_in_utf16() {
    assert_eq!(foreign_collection_description_units(), utf16("Foreign Assets Collection"));
}

#[test]
fn the_mode_of_a_foreign_collection_carries_over() {
    assert_eq!(CollectionMode::from(ForeignCollectionMode::NFT), CollectionMode::NFT);
    assert_eq!(
        CollectionMode::from(ForeignCollectionMode::Fungible(12)),
        CollectionMode::Fungible(12)
    );
}

#[test]
fn registration_asks_for_a_collection_owned_by_the_bridge() {
    let pallet: Pallet<u64> = Pallet::new(77, registration_chain());
    let request = pallet
        .force_register_foreign_asset(
            &registration_reserve(),
            utf16("Wrapped"),
            b"WRP".to_vec(),
            ForeignCollectionMode::Fungible(10),
        )
        .unwrap();
    assert_eq!(*request.owner, 77);
    assert_eq!(request.payer, None);
    assert!(request.is_special_collection);
    assert_eq!(
        request.data,
        CollectionData {
            mode: CollectionMode::Fungible(10),
            name: utf16("Wrapped"),
            description: utf16("Foreign Assets Collection"),
            token_prefix: b"WRP".to_vec(),
            properties: vec![ItemProperty {
                key: b"reserve-location".to_vec(),
                value: MultiLocation::new(1, Junctions::X2(X::Parachain(1000), X::PalletInstance(50)))
                    .encode(),
            }],
            token_property_permissions: vec![KeyPermission {
                key: b"reserve-asset-instance".to_vec(),
                permission: PropertyPermission {
                    mutable: false,
                    collection_admin: true,
                    token_owner: false,
                },
            }],
        }
    );
}

#[test]
fn the_collection_carries_the_encoded_location() {
    let data = collection_data(vec![1, 2, 3], utf16("N"), b"P".to_vec(), ForeignCollectionMode::NFT);
    assert_eq!(data.mode, CollectionMode::NFT);
    assert_eq!(data.name, utf16("N"));
    assert_eq!(data.token_prefix, b"P".to_vec());
    assert_eq!(data.description, utf16("Foreign Assets Collection"));
    assert_eq!(
        data.properties,
        vec![ItemProperty { key: b"reserve-location".to_vec(), value: vec![1, 2, 3] }]
    );
    assert_eq!(data.token_property_permissions.len(), 1);
}

#[test]
fn completing_the_registration_binds_and_reports() {
    let mut pallet: Pallet<u64> = Pallet::new(77, registration_chain());
    let event = pallet.complete_registration(registration_reserve(), CollectionId(9)).unwrap();
    assert_eq!(
        event,
        Event::ForeignAssetRegistered { asset_id: CollectionId(9), reserve_location: registration_reserve() }
    );
    assert_eq!(pallet.foreign_reserve_location_to_collection(&registration_reserve()), Some(CollectionId(9)));
    assert_eq!(pallet.collection_to_foreign_reserve_location(CollectionId(9)), Some(&registration_reserve()));
}

#[test]
fn registering_the_same_location_twice_fails_the_second_time() {
    let mut pallet: Pallet<u64> = Pallet::new(77, registration_chain());
    assert!(pallet
        .force_register_foreign_asset(
            &registration_reserve(),
            utf16("A"),
            b"A".to_vec(),
            ForeignCollectionMode::NFT
        )
        .is_ok());
    assert!(pallet.complete_registration(registration_reserve(), CollectionId(9)).is_ok());
    let second = pallet.force_register_foreign_asset(
        &registration_reserve(),
        utf16("B"),
        b"B".to_vec(),
        ForeignCollectionMode::NFT,
    );
    assert_eq!(second.err(), Some(Error::ForeignAssetAlreadyRegistered));
    assert_eq!(
        pallet.complete_registration(registration_reserve(), CollectionId(10)),
        Err(Error::ForeignAssetAlreadyRegistered)
    );
    assert_eq!(pallet.foreign_reserve_location_to_collection(&registration_reserve()), Some(CollectionId(9)));
    assert_eq!(pallet.collection_to_foreign_reserve_location(CollectionId(9)), Some(&registration_reserve()));
    assert_eq!(pallet.collection_to_foreign_reserve_location(CollectionId(10)), None);
}

#[test]
fn a_collection_that_is_bound_already_is_not_bound_again() {
    let mut pallet: Pallet<u64> = Pallet::new(77, registration_chain());
    assert!(pallet.complete_registration(registration_reserve(), CollectionId(9)).is_ok());
    let other = Location::new(1, vec![Junction::Parachain(3000)]).unwrap();
    assert_eq!(
        pallet.complete_registration(other.clone(), CollectionId(9)),
        Err(Error::ForeignAssetAlreadyRegistered)
    );
    assert_eq!(pallet.foreign_reserve_location_to_collection(&other), None);
    assert_eq!(pallet.collection_to_foreign_reserve_location(CollectionId(9)), Some(&registration_reserve()));
}
