//! The location under which other chains know a collection of this chain.

use vstd::prelude::*;
use crate::ids::CollectionId;
use crate::location::{Junction, Location, LocationView, MAX_JUNCTIONS};
use crate::pallet::{native_fungible_collection, native_fungible_collection_id, Pallet, PalletView};

verus! {

/// Converts collections to the locations that name them.
pub struct CurrencyIdConvert;

impl<AccountId> PalletView<AccountId> {
    /// The location that names `collection`: that of this chain for the
    /// native currency, the reserve location for a foreign collection, and
    /// for any other the location of this chain followed by the collection's
    /// number as a general index, where that still fits.
    pub open spec fn collection_location(self, collection: CollectionId) -> Option<LocationView> {
        if collection == native_fungible_collection_id() {
            Some(self.self_location)
        } else {
            match self.registry.location_of(collection) {
                Some(location) => Some(location),
                None => if self.self_location.interior.len() < MAX_JUNCTIONS {
                    Some(self.self_location.pushed(Junction::GeneralIndex(collection.0 as u128)))
                } else {
                    None
                },
            }
        }
    }
}

impl CurrencyIdConvert {
    /// The location that names `collection_id` for the bridge `pallet`.
    pub fn convert<AccountId>(pallet: &Pallet<AccountId>, collection_id: CollectionId) -> (found:
        Option<Location>)
        requires
            pallet.wf(),
        ensures
            match found {
                Some(location) => pallet@.collection_location(collection_id) == Some(location@),
                None => pallet@.collection_location(collection_id) is None,
            },
    {
        if collection_id == native_fungible_collection() {
            Some(pallet.self_location().clone())
        } else {
            match pallet.collection_to_foreign_reserve_location(collection_id) {
                Some(location) => Some(location.clone()),
                None => pallet.self_location().pushed_with_interior(
                    Junction::GeneralIndex(collection_id.0 as u128),
                ),
            }
        }
    }
}

} // verus!
