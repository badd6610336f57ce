//! Registration of a foreign asset: a new collection is made for a reserve
//! location, and the two are bound to each other in the registry.
//!
//! The collection is made by the chain's own machinery, so registration runs
//! in two steps. The first step refuses a location that is registered
//! already, and otherwise says which collection is to be made. The second
//! step takes the identifier of the collection that was made, enters the
//! binding and gives the event to emit.

use vstd::prelude::*;
use crate::bridge::{
    reserve_asset_instance_key,
    reserve_asset_instance_property_key,
    reserve_location_key,
    reserve_location_property_key,
    ItemProperty,
    ItemPropertyView,
};
use crate::collection::CollectionMode;
use crate::error::Error;
use crate::ids::CollectionId;
use crate::location::{Location, LocationView};
use crate::pallet::{Pallet, PalletView};
use crate::property::PropertyPermission;

verus! {

/// The kinds of collection that can stand for a foreign asset.
#[derive(Clone, Copy, Debug, PartialEq, Eq, Structural)]
pub enum ForeignCollectionMode {
    /// Non fungible tokens.
    NFT,
    /// Fungible tokens, with their number of decimal points.
    Fungible(u8),
}

/// The mode of the collection that stands for a foreign asset of the given
/// kind.
pub open spec fn collection_mode_of(value: ForeignCollectionMode) -> CollectionMode {
    match value {
        ForeignCollectionMode::NFT => CollectionMode::NFT,
        ForeignCollectionMode::Fungible(decimals) => CollectionMode::Fungible(decimals),
    }
}

impl From<ForeignCollectionMode> for CollectionMode {
    fn from(value: ForeignCollectionMode) -> (mode: CollectionMode) {
        match value {
            ForeignCollectionMode::NFT => CollectionMode::NFT,
            ForeignCollectionMode::Fungible(decimals) => CollectionMode::Fungible(decimals),
        }
    }
}

impl vstd::std_specs::convert::FromSpecImpl<ForeignCollectionMode> for CollectionMode {
    open spec fn obeys_from_spec() -> bool {
        true
    }

    open spec fn from_spec(value: ForeignCollectionMode) -> CollectionMode {
        collection_mode_of(value)
    }
}

/// What a permission on a property key is.
pub struct KeyPermissionView {
    pub key: Seq<u8>,
    pub permission: PropertyPermission,
}

/// Who may change the token property of the given key.
#[derive(Debug, PartialEq, Eq)]
pub struct KeyPermission {
    pub key: Vec<u8>,
    pub permission: PropertyPermission,
}

impl View for KeyPermission {
    type V = KeyPermissionView;

    open spec fn view(&self) -> KeyPermissionView {
        KeyPermissionView { key: self.key@, permission: self.permission }
    }
}

/// What the description of a new collection is.
pub struct CollectionDataView {
    pub mode: CollectionMode,
    pub name: Seq<u16>,
    pub description: Seq<u16>,
    pub token_prefix: Seq<u8>,
    pub properties: Seq<ItemPropertyView>,
    pub token_property_permissions: Seq<KeyPermissionView>,
}

/// The description of a new collection. Every setting that is not listed
/// here is left at the chain's default.
#[derive(Debug, PartialEq, Eq)]
pub struct CollectionData {
    pub mode: CollectionMode,
    /// The name, in UTF-16 code units.
    pub name: Vec<u16>,
    /// The description, in UTF-16 code units.
    pub description: Vec<u16>,
    pub token_prefix: Vec<u8>,
    /// The properties of the collection itself.
    pub properties: Vec<ItemProperty>,
    /// Who may change which property of the collection's tokens.
    pub token_property_permissions: Vec<KeyPermission>,
}

impl View for CollectionData {
    type V = CollectionDataView;

    open spec fn view(&self) -> CollectionDataView {
        CollectionDataView {
            mode: self.mode,
            name: self.name@,
            description: self.description@,
            token_prefix: self.token_prefix@,
            properties: self.properties@.map_values(|p: ItemProperty| p@),
            token_property_permissions: self.token_property_permissions@.map_values(
                |p: KeyPermission| p@,
            ),
        }
    }
}

/// What a request for a new collection is.
pub struct CreateCollectionView<AccountId> {
    pub owner: AccountId,
    pub payer: Option<AccountId>,
    pub is_special_collection: bool,
    pub data: CollectionDataView,
}

/// A request for a new collection: who owns it, who pays for it, if anyone
/// does, whether it is exempt from the rules for collections that users
/// make, and its description.
#[derive(Debug)]
pub struct CreateCollection<'a, AccountId> {
    pub owner: &'a AccountId,
    pub payer: Option<&'a AccountId>,
    pub is_special_collection: bool,
    pub data: CollectionData,
}

impl<'a, AccountId> View for CreateCollection<'a, AccountId> {
    type V = CreateCollectionView<AccountId>;

    open spec fn view(&self) -> CreateCollectionView<AccountId> {
        CreateCollectionView {
            owner: *self.owner,
            payer: match self.payer {
                Some(payer) => Some(*payer),
                None => None,
            },
            is_special_collection: self.is_special_collection,
            data: self.data@,
        }
    }
}

/// What an event is.
pub enum EventView {
    ForeignAssetRegistered { asset_id: CollectionId, reserve_location: LocationView },
}

/// What the bridge reports to the outside.
#[derive(Debug, PartialEq, Eq)]
pub enum Event {
    /// The foreign asset was registered: the collection that stands for it,
    /// and its reserve location.
    ForeignAssetRegistered { asset_id: CollectionId, reserve_location: Location },
}

impl View for Event {
    type V = EventView;

    open spec fn view(&self) -> EventView {
        match self {
            Event::ForeignAssetRegistered {
                asset_id,
                reserve_location,
            } => EventView::ForeignAssetRegistered {
                asset_id: *asset_id,
                reserve_location: reserve_location@,
            },
        }
    }
}

/// The UTF-16 code units of a text whose characters take one unit each.
pub open spec fn utf16(text: Seq<char>) -> Seq<u16> {
    text.map_values(|c: char| c as u16)
}

/// The description that every collection of a foreign asset carries, in
/// UTF-16 code units.
pub open spec fn foreign_collection_description() -> Seq<u16> {
    utf16("Foreign Assets Collection"@)
}

/// The permission on the token property that holds the asset instance: it
/// is fixed, the administrators of the collection set it, and the owner of
/// the token cannot touch it.
pub open spec fn reserve_asset_instance_permission() -> PropertyPermission {
    PropertyPermission { mutable: false, collection_admin: true, token_owner: false }
}

/// The description of the collection of a foreign asset whose reserve
/// location has the encoding `encoded_location`: the collection carries
/// that encoding as a property, and the property of its tokens that holds
/// the asset instance is under the fixed permission.
pub open spec fn foreign_collection_data(
    encoded_location: Seq<u8>,
    name: Seq<u16>,
    token_prefix: Seq<u8>,
    mode: ForeignCollectionMode,
) -> CollectionDataView {
    CollectionDataView {
        mode: collection_mode_of(mode),
        name,
        description: foreign_collection_description(),
        token_prefix,
        properties: seq![ItemPropertyView { key: reserve_location_key(), value: encoded_location }],
        token_property_permissions: seq![
            KeyPermissionView {
                key: reserve_asset_instance_key(),
                permission: reserve_asset_instance_permission(),
            },
        ],
    }
}

impl<AccountId> PalletView<AccountId> {
    /// The request for the collection of a foreign asset with the reserve
    /// location `reserve_location`. The bridge owns the collection and
    /// nobody pays for it. The collection carries the encoding of the
    /// location as a property.
    pub open spec fn foreign_collection_request(
        self,
        reserve_location: LocationView,
        name: Seq<u16>,
        token_prefix: Seq<u8>,
        mode: ForeignCollectionMode,
    ) -> CreateCollectionView<AccountId> {
        CreateCollectionView {
            owner: self.pallet_account,
            payer: None,
            is_special_collection: true,
            data: foreign_collection_data(
                reserve_location.encoding(),
                name,
                token_prefix,
                mode,
            ),
        }
    }
}

/// The description of the collections of foreign assets.
pub fn foreign_collection_description_units() -> (units: Vec<u16>)
    ensures
        units@ == foreign_collection_description(),
{
    let units: Vec<u16> = vec![
        70u16,
        111u16,
        114u16,
        101u16,
        105u16,
        103u16,
        110u16,
        32u16,
        65u16,
        115u16,
        115u16,
        101u16,
        116u16,
        115u16,
        32u16,
        67u16,
        111u16,
        108u16,
        108u16,
        101u16,
        99u16,
        116u16,
        105u16,
        111u16,
        110u16,
    ];
    proof {
        reveal_strlit("Foreign Assets Collection");
        assert(units@ =~= foreign_collection_description());
    }
    units
}

/// The description of the collection of a foreign asset, from the encoding
/// of its reserve location.
pub fn collection_data(
    encoded_location: Vec<u8>,
    name: Vec<u16>,
    token_prefix: Vec<u8>,
    mode: ForeignCollectionMode,
) -> (data: CollectionData)
    ensures
        data@ == foreign_collection_data(encoded_location@, name@, token_prefix@, mode),
{
    let properties: Vec<ItemProperty> = vec![
        ItemProperty { key: reserve_location_property_key(), value: encoded_location },
    ];
    let token_property_permissions: Vec<KeyPermission> = vec![
        KeyPermission {
            key: reserve_asset_instance_property_key(),
            permission: PropertyPermission {
                mutable: false,
                collection_admin: true,
                token_owner: false,
            },
        },
    ];
    let data = CollectionData {
        mode: CollectionMode::from(mode),
        name,
        description: foreign_collection_description_units(),
        token_prefix,
        properties,
        token_property_permissions,
    };
    proof {
        let expected = foreign_collection_data(encoded_location@, name@, token_prefix@, mode);
        assert(data@.properties =~= expected.properties);
        assert(data@.token_property_permissions =~= expected.token_property_permissions);
    }
    data
}

impl<AccountId> Pallet<AccountId> {
    /// The first step of the registration of a foreign asset with the
    /// reserve location `reserve_location`. Fails where the location is
    /// registered already. The caller has checked that the origin of the
    /// call may register.
    pub fn force_register_foreign_asset<'a>(
        &'a self,
        reserve_location: &Location,
        name: Vec<u16>,
        token_prefix: Vec<u8>,
        mode: ForeignCollectionMode,
    ) -> (planned: Result<CreateCollection<'a, AccountId>, Error>)
        requires
            self.wf(),
        ensures
            match planned {
                Ok(request) => self@.registry.collection_of(reserve_location@) is None && request@
                    == self@.foreign_collection_request(
                    reserve_location@,
                    name@,
                    token_prefix@,
                    mode,
                ),
                Err(error) => self@.registry.collection_of(reserve_location@) is Some && error
                    == Error::ForeignAssetAlreadyRegistered,
            },
    {
        if self.foreign_reserve_location_to_collection(reserve_location).is_some() {
            return Err(Error::ForeignAssetAlreadyRegistered);
        }
        let request = CreateCollection {
            owner: self.pallet_account(),
            payer: None,
            is_special_collection: true,
            data: collection_data(reserve_location.encode(), name, token_prefix, mode),
        };
        Ok(request)
    }

    /// The second step of the registration: `collection_id` is the
    /// collection that was made for `reserve_location`. Binds the two to
    /// each other and gives the event to emit. Fails, and changes nothing,
    /// where the location or the collection is bound already.
    pub fn complete_registration(
        &mut self,
        reserve_location: Location,
        collection_id: CollectionId,
    ) -> (done: Result<Event, Error>)
        requires
            old(self).wf(),
        ensures
            final(self).wf(),
            final(self)@.pallet_account == old(self)@.pallet_account,
            final(self)@.self_location == old(self)@.self_location,
            match done {
                Ok(event) => old(self)@.registry.can_register(reserve_location@, collection_id)
                    && event@ == (EventView::ForeignAssetRegistered {
                    asset_id: collection_id,
                    reserve_location: reserve_location@,
                }) && final(self)@.registry == old(self)@.registry.register(
                    reserve_location@,
                    collection_id,
                ),
                Err(error) => !old(self)@.registry.can_register(reserve_location@, collection_id)
                    && error == Error::ForeignAssetAlreadyRegistered && final(self)@.registry
                    == old(self)@.registry,
            },
    {
        let location = reserve_location.clone();
        match self.register(reserve_location, collection_id) {
            Ok(()) => Ok(
                Event::ForeignAssetRegistered { asset_id: collection_id, reserve_location: location },
            ),
            Err(error) => Err(error),
        }
    }
}

} // verus!
