use foreign_assets::asset::AssetInstance;
use foreign_assets::error::Error;
use foreign_assets::ids::{CollectionId, TokenId};
use foreign_assets::location::{Junction, Location};
use foreign_assets::registry::Registry;

fn registry_sibling(para: u32) -> Location {
    Location::new(1, vec![Junction::Parachain(para)]).unwrap()
}

#[test]
fn new_registry_is_empty() {
    let registry = Registry::new();
    assert_eq!(registry.collection_of(&registry_sibling(1000)), None);
    assert_eq!(registry.location_of(CollectionId(1)), None);
    assert_eq!(registry.token_of(CollectionId(1), &AssetInstance::Index(1)), None);
    assert_eq!(registry.instance_of(CollectionId(1), TokenId(1)), None);
    assert!(!registry.is_foreign(CollectionId(1)));
}

#[test]
fn registering_a_location_twice_fails_and_changes_nothing() {
    let mut registry = Registry::new();
    assert_eq!(registry.register(registry_sibling(1000), CollectionId(7)), Ok(()));
    assert_eq!(
        registry.register(registry_sibling(1000), CollectionId(8)),
        Err(Error::ForeignAssetAlreadyRegistered)
    );
    assert_eq!(registry.collection_of(&registry_sibling(1000)), Some(CollectionId(7)));
    assert_eq!(registry.location_of(CollectionId(7)), Some(&registry_sibling(1000)));
    assert_eq!(registry.location_of(CollectionId(8)), None);
}

#[test]
fn registering_a_collection_twice_fails_and_changes_nothing() {
    let mut registry = Registry::new();
    assert_eq!(registry.register(registry_sibling(1000), CollectionId(7)), Ok(()));
    assert_eq!(
        registry.register(registry_sibling(2000), CollectionId(7)),
        Err(Error::ForeignAssetAlreadyRegistered)
    );
    assert_eq!(registry.collection_of(&registry_sibling(2000)), None);
    assert_eq!(registry.location_of(CollectionId(7)), Some(&registry_sibling(1000)));
}

#[test]
fn lookups_undo_each_other() {
    let mut registry = Registry::new();
    for (para, collection) in [(1000u32, 3u32), (2000, 1), (3000, 2)] {
        assert_eq!(registry.register(registry_sibling(para), CollectionId(collection)), Ok(()));
    }
    for (para, collection) in [(1000u32, 3u32), (2000, 1), (3000, 2)] {
        let found = registry.collection_of(&registry_sibling(para)).unwrap();
        assert_eq!(found, CollectionId(collection));
        assert_eq!(registry.location_of(found), Some(&registry_sibling(para)));
        let location = registry.location_of(CollectionId(collection)).unwrap().clone();
        assert_eq!(registry.collection_of(&location), Some(CollectionId(collection)));
    }
    assert!(registry.is_foreign(CollectionId(3)));
    assert!(!registry.is_foreign(CollectionId(4)));
}

#[test]
fn locations_differ_by_parents_and_by_junctions() {
    let mut registry = Registry::new();
    let down = Location::new(0, vec![Junction::Parachain(1000)]).unwrap();
    assert_eq!(registry.register(registry_sibling(1000), CollectionId(1)), Ok(()));
    assert_eq!(registry.register(down.clone(), CollectionId(2)), Ok(()));
    assert_eq!(registry.collection_of(&registry_sibling(1000)), Some(CollectionId(1)));
    assert_eq!(registry.collection_of(&down), Some(CollectionId(2)));
    let longer =
        Location::new(1, vec![Junction::Parachain(1000), Junction::PalletInstance(5)]).unwrap();
    assert_eq!(registry.collection_of(&longer), None);
}

#[test]
fn instances_are_indexed_both_ways_within_a_collection() {
    let mut registry = Registry::new();
    let instance = AssetInstance::Array4([1, 2, 3, 4]);
    assert!(registry.index_instance(CollectionId(5), instance, TokenId(1)));
    assert_eq!(registry.token_of(CollectionId(5), &instance), Some(TokenId(1)));
    assert_eq!(registry.instance_of(CollectionId(5), TokenId(1)), Some(instance));
    assert_eq!(registry.token_of(CollectionId(6), &instance), None);
    assert_eq!(registry.instance_of(CollectionId(6), TokenId(1)), None);
    assert!(registry.index_instance(CollectionId(6), instance, TokenId(1)));
    assert_eq!(registry.token_of(CollectionId(6), &instance), Some(TokenId(1)));
}

#[test]
fn an_indexed_instance_or_token_is_never_rebound() {
    let mut registry = Registry::new();
    let first = AssetInstance::Index(10);
    let second = AssetInstance::Index(11);
    assert!(registry.index_instance(CollectionId(5), first, TokenId(1)));
    assert!(!registry.index_instance(CollectionId(5), first, TokenId(2)));
    assert!(!registry.index_instance(CollectionId(5), second, TokenId(1)));
    assert_eq!(registry.token_of(CollectionId(5), &first), Some(TokenId(1)));
    assert_eq!(registry.token_of(CollectionId(5), &second), None);
    assert_eq!(registry.instance_of(CollectionId(5), TokenId(1)), Some(first));
    assert_eq!(registry.instance_of(CollectionId(5), TokenId(2)), None);
    assert!(registry.index_instance(CollectionId(5), second, TokenId(2)));
    assert_eq!(registry.instance_of(CollectionId(5), TokenId(2)), Some(second));
}
