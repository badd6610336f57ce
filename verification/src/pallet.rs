//! The state of the bridge, and the resolution of assets to collections and
//! tokens.
//!
//! An asset whose location is registered as a reserve location is foreign.
//! Only where that lookup finds nothing is the location read as a local one:
//! as the native currency, or as the number of a collection of this chain.
//! The order matters. A number that names a foreign collection must never
//! resolve to that collection as if it were local.

use vstd::prelude::*;
use crate::asset::{AssetId, AssetIdView, AssetInstance};
use crate::error::{Error, XcmError};
use crate::ids::{CollectionId, TokenId};
use crate::locality::CollectionLocality;
use crate::location::{Junction, Location, LocationView};
use crate::registry::{Registry, RegistryView};

verus! {

/// The collection that stands for the native currency of this chain.
pub open spec fn native_fungible_collection_id() -> CollectionId {
    CollectionId(0)
}

/// The collection that stands for the native currency of this chain.
#[verifier::when_used_as_spec(native_fungible_collection_id)]
pub fn native_fungible_collection() -> (id: CollectionId)
    ensures
        id == native_fungible_collection_id(),
{
    CollectionId(0)
}

/// What the bridge is: its account, the location of its own chain, and the
/// registry.
pub struct PalletView<AccountId> {
    /// The account that holds tokens in custody while their owner is abroad.
    pub pallet_account: AccountId,
    /// The location of this chain, as other chains name it.
    pub self_location: LocationView,
    pub registry: RegistryView,
}

impl<AccountId> PalletView<AccountId> {
    /// The local collection that `location` names, if it names one: the
    /// native currency for `here` and for the chain's own location, and for
    /// the chain's own location followed by one general index the collection
    /// of that number, unless the number does not fit a collection
    /// identifier or the collection is foreign.
    pub open spec fn local_asset_location_to_collection(self, location: LocationView) -> Option<
        CollectionLocality,
    > {
        if location == LocationView::here() || location == self.self_location {
            Some(CollectionLocality::Local(native_fungible_collection_id()))
        } else if location.parents == self.self_location.parents {
            match location.match_and_split(self.self_location.interior) {
                Some(Junction::GeneralIndex(index)) => {
                    if index <= u32::MAX && self.registry.location_of(CollectionId(index as u32))
                        is None {
                        Some(CollectionLocality::Local(CollectionId(index as u32)))
                    } else {
                        None
                    }
                },
                _ => None,
            }
        } else {
            None
        }
    }

    /// The collection that the asset `asset_id` belongs to: the foreign
    /// collection of its location where that is registered, else the local
    /// one that the location names.
    pub open spec fn asset_to_collection(self, asset_id: AssetIdView) -> Result<
        CollectionLocality,
        XcmError,
    > {
        match asset_id {
            AssetIdView::Abstract(_) => Err(XcmError::AssetNotHandled),
            AssetIdView::Concrete(location) => match self.registry.collection_of(location) {
                Some(collection) => Ok(CollectionLocality::Foreign(collection)),
                None => match self.local_asset_location_to_collection(location) {
                    Some(locality) => Ok(locality),
                    None => Err(XcmError::AssetIdConversionFailed),
                },
            },
        }
    }

    /// The token that `instance` names in the collection of `locality`. In a
    /// local collection only an index names a token. In a foreign collection
    /// the registry decides, and the instance is never read as a number.
    pub open spec fn asset_instance_to_token_id(
        self,
        locality: CollectionLocality,
        instance: AssetInstance,
    ) -> Option<TokenId> {
        match locality {
            CollectionLocality::Local(_) => local_asset_instance_to_token_id(instance),
            CollectionLocality::Foreign(collection) => self.registry.token_of(collection, instance),
        }
    }
}

/// The token of a local collection that `instance` names: that of its index,
/// where it is an index that fits a token identifier.
pub open spec fn local_asset_instance_to_token_id(instance: AssetInstance) -> Option<TokenId> {
    match instance {
        AssetInstance::Index(index) => if index <= u32::MAX {
            Some(TokenId(index as u32))
        } else {
            None
        },
        _ => None,
    }
}

/// The bridge between the assets of the cross-chain protocol and the
/// collections and tokens of this chain.
pub struct Pallet<AccountId> {
    pallet_account: AccountId,
    self_location: Location,
    registry: Registry,
}

impl<AccountId> View for Pallet<AccountId> {
    type V = PalletView<AccountId>;

    closed spec fn view(&self) -> PalletView<AccountId> {
        PalletView {
            pallet_account: self.pallet_account,
            self_location: self.self_location@,
            registry: self.registry@,
        }
    }
}

impl<AccountId> Pallet<AccountId> {
    /// The registry holds no entry twice.
    pub closed spec fn wf(&self) -> bool {
        self.registry.wf()
    }

    /// The tables of the registry of a well-formed bridge agree with each
    /// other.
    pub proof fn lemma_registry_wf(&self)
        requires
            self.wf(),
        ensures
            self@.registry.wf(),
    {
        self.registry.lemma_view_wf();
    }

    /// A bridge with the given account and location, and an empty registry.
    pub fn new(pallet_account: AccountId, self_location: Location) -> (pallet: Pallet<AccountId>)
        ensures
            pallet.wf(),
            pallet@ == (PalletView {
                pallet_account,
                self_location: self_location@,
                registry: RegistryView::empty(),
            }),
    {
        Pallet { pallet_account, self_location, registry: Registry::new() }
    }

    /// The account that owns the foreign collections and holds tokens in
    /// custody.
    pub fn pallet_account(&self) -> (account: &AccountId)
        ensures
            *account == self@.pallet_account,
    {
        &self.pallet_account
    }

    /// The location of this chain.
    pub fn self_location(&self) -> (location: &Location)
        ensures
            location@ == self@.self_location,
    {
        &self.self_location
    }

    /// The collection bound to the reserve location `location`, if any.
    pub fn foreign_reserve_location_to_collection(&self, location: &Location) -> (found: Option<
        CollectionId,
    >)
        requires
            self.wf(),
        ensures
            found == self@.registry.collection_of(location@),
    {
        self.registry.collection_of(location)
    }

    /// The reserve location bound to `collection`, if any.
    pub fn collection_to_foreign_reserve_location(&self, collection: CollectionId) -> (found:
        Option<&Location>)
        requires
            self.wf(),
        ensures
            match found {
                Some(location) => self@.registry.location_of(collection) == Some(location@),
                None => self@.registry.location_of(collection) is None,
            },
    {
        self.registry.location_of(collection)
    }

    /// The token that stands for `instance` in the foreign collection
    /// `collection`, if any.
    pub fn foreign_reserve_asset_instance_to_token_id(
        &self,
        collection: CollectionId,
        instance: &AssetInstance,
    ) -> (found: Option<TokenId>)
        requires
            self.wf(),
        ensures
            found == self@.registry.token_of(collection, *instance),
    {
        self.registry.token_of(collection, instance)
    }

    /// The instance that `token` of the foreign collection `collection`
    /// stands for, if any.
    pub fn token_id_to_foreign_reserve_asset_instance(
        &self,
        collection: CollectionId,
        token: TokenId,
    ) -> (found: Option<AssetInstance>)
        requires
            self.wf(),
        ensures
            found == self@.registry.instance_of(collection, token),
    {
        self.registry.instance_of(collection, token)
    }

    /// Binds `location` and `collection` to each other in the registry.
    /// Fails, and changes nothing, where either of them is bound already.
    pub fn register(&mut self, location: Location, collection: CollectionId) -> (done: Result<
        (),
        Error,
    >)
        requires
            old(self).wf(),
        ensures
            final(self).wf(),
            final(self)@.pallet_account == old(self)@.pallet_account,
            final(self)@.self_location == old(self)@.self_location,
            old(self)@.registry.can_register(location@, collection) ==> done == Ok::<(), Error>(())
                && final(self)@.registry == old(self)@.registry.register(location@, collection),
            !old(self)@.registry.can_register(location@, collection) ==> done == Err::<(), Error>(
                Error::ForeignAssetAlreadyRegistered,
            ) && final(self)@.registry == old(self)@.registry,
    {
        self.registry.register(location, collection)
    }

    /// Binds `instance` and `token` to each other in `collection`. Returns
    /// `false`, and changes nothing, where either of them is bound in that
    /// collection already.
    pub fn index_instance(
        &mut self,
        collection: CollectionId,
        instance: AssetInstance,
        token: TokenId,
    ) -> (entered: bool)
        requires
            old(self).wf(),
        ensures
            final(self).wf(),
            final(self)@.pallet_account == old(self)@.pallet_account,
            final(self)@.self_location == old(self)@.self_location,
            entered == old(self)@.registry.can_index(collection, instance, token),
            entered ==> final(self)@.registry == old(self)@.registry.index_instance(
                collection,
                instance,
                token,
            ),
            !entered ==> final(self)@.registry == old(self)@.registry,
    {
        self.registry.index_instance(collection, instance, token)
    }

    /// Reads `asset_location` as the location of a local collection.
    pub fn local_asset_location_to_collection(&self, asset_location: &Location) -> (found: Option<
        CollectionLocality,
    >)
        requires
            self.wf(),
        ensures
            found == self@.local_asset_location_to_collection(asset_location@),
    {
        if asset_location.is_here() || asset_location.equals(&self.self_location) {
            Some(CollectionLocality::Local(native_fungible_collection()))
        } else if asset_location.parents() == self.self_location.parents() {
            match asset_location.match_and_split(&self.self_location) {
                Some(Junction::GeneralIndex(index)) => {
                    if index > 0xffff_ffff {
                        return None;
                    }
                    let collection = CollectionId(index as u32);
                    if self.registry.is_foreign(collection) {
                        None
                    } else {
                        Some(CollectionLocality::Local(collection))
                    }
                },
                _ => None,
            }
        } else {
            None
        }
    }

    /// Resolves an asset identifier to its collection, foreign before local.
    pub fn asset_to_collection(&self, asset_id: &AssetId) -> (found: Result<
        CollectionLocality,
        XcmError,
    >)
        requires
            self.wf(),
        ensures
            found == self@.asset_to_collection(asset_id@),
    {
        match asset_id {
            AssetId::Abstract(_) => Err(XcmError::AssetNotHandled),
            AssetId::Concrete(location) => match self.registry.collection_of(location) {
                Some(collection) => Ok(CollectionLocality::Foreign(collection)),
                None => match self.local_asset_location_to_collection(location) {
                    Some(locality) => Ok(locality),
                    None => Err(XcmError::AssetIdConversionFailed),
                },
            },
        }
    }

    /// Reads `asset_instance` as the token of a local collection.
    pub fn local_asset_instance_to_token_id(asset_instance: &AssetInstance) -> (found: Option<
        TokenId,
    >)
        ensures
            found == local_asset_instance_to_token_id(*asset_instance),
    {
        match asset_instance {
            AssetInstance::Index(index) => {
                if *index > 0xffff_ffff {
                    None
                } else {
                    Some(TokenId(*index as u32))
                }
            },
            _ => None,
        }
    }

    /// The token that `asset_instance` names in the collection of
    /// `collection_locality`.
    pub fn asset_instance_to_token_id(
        &self,
        collection_locality: CollectionLocality,
        asset_instance: &AssetInstance,
    ) -> (found: Option<TokenId>)
        requires
            self.wf(),
        ensures
            found == self@.asset_instance_to_token_id(collection_locality, *asset_instance),
    {
        match collection_locality {
            CollectionLocality::Local(_) => Self::local_asset_instance_to_token_id(asset_instance),
            CollectionLocality::Foreign(collection) => self.registry.token_of(
                collection,
                asset_instance,
            ),
        }
    }
}

} // verus!
