//! A collection as remote calls report it, and as it was first stored.

use vstd::prelude::*;
use crate::bounded::{key_bytes, value_bytes, PropertyKey, PropertyValue};
use crate::collection::{
    AccessMode,
    CollectionLimits,
    CollectionMode,
    CollectionPermissions,
    CollectionPermissionsView,
    MetaUpdatePermission,
    RpcCollectionFlags,
    SchemaVersion,
    SponsorshipState,
};
use crate::property::PropertyPermission;

verus! {

/// What a property is: the bytes of its key and of its value.
pub struct PropertyView {
    pub key: Seq<u8>,
    pub value: Seq<u8>,
}

/// A property: a key and a value.
pub struct Property {
    /// Property key.
    pub key: PropertyKey,
    /// Property value.
    pub value: PropertyValue,
}

impl View for Property {
    type V = PropertyView;

    open spec fn view(&self) -> PropertyView {
        PropertyView { key: key_bytes(self.key), value: value_bytes(self.value) }
    }
}

impl Property {
    /// The key and the value of the property.
    pub fn into(self) -> (pair: (PropertyKey, PropertyValue))
        ensures
            pair == (self.key, self.value),
    {
        (self.key, self.value)
    }
}

/// What the permission on a property key is.
pub struct PropertyKeyPermissionView {
    pub key: Seq<u8>,
    pub permission: PropertyPermission,
}

/// Who may change the property of a key.
pub struct PropertyKeyPermission {
    /// Key.
    pub key: PropertyKey,
    /// Permission.
    pub permission: PropertyPermission,
}

impl View for PropertyKeyPermission {
    type V = PropertyKeyPermissionView;

    open spec fn view(&self) -> PropertyKeyPermissionView {
        PropertyKeyPermissionView { key: key_bytes(self.key), permission: self.permission }
    }
}

impl PropertyKeyPermission {
    /// The key and the permission.
    pub fn into(self) -> (pair: (PropertyKey, PropertyPermission))
        ensures
            pair == (self.key, self.permission),
    {
        (self.key, self.permission)
    }
}

/// A collection as its first version stored it.
pub struct CollectionVersion1<AccountId> {
    /// Collection owner account.
    pub owner: AccountId,
    /// Collection mode.
    pub mode: CollectionMode,
    /// Access mode.
    pub access: AccessMode,
    /// Collection name, in UTF-16 code units.
    pub name: Vec<u16>,
    /// Collection description, in UTF-16 code units.
    pub description: Vec<u16>,
    /// Token prefix.
    pub token_prefix: Vec<u8>,
    pub mint_mode: bool,
    pub offchain_schema: Vec<u8>,
    pub schema_version: SchemaVersion,
    /// The state of sponsorship of the collection.
    pub sponsorship: SponsorshipState<AccountId>,
    /// Collection limits.
    pub limits: CollectionLimits,
    pub variable_on_chain_schema: Vec<u8>,
    pub const_on_chain_schema: Vec<u8>,
    pub meta_update_permission: MetaUpdatePermission,
}

/// What a reported collection is.
pub struct RpcCollectionView<AccountId> {
    pub owner: AccountId,
    pub mode: CollectionMode,
    pub name: Seq<u16>,
    pub description: Seq<u16>,
    pub token_prefix: Seq<u8>,
    pub sponsorship: SponsorshipState<AccountId>,
    pub limits: CollectionLimits,
    pub permissions: CollectionPermissionsView,
    pub token_property_permissions: Seq<PropertyKeyPermissionView>,
    pub properties: Seq<PropertyView>,
    pub read_only: bool,
    pub flags: RpcCollectionFlags,
}

/// Collection parameters, as remote calls report them.
pub struct RpcCollection<AccountId> {
    /// Collection owner account.
    pub owner: AccountId,
    /// Collection mode.
    pub mode: CollectionMode,
    /// Collection name.
    pub name: Vec<u16>,
    /// Collection description.
    pub description: Vec<u16>,
    /// Token prefix.
    pub token_prefix: Vec<u8>,
    /// The state of sponsorship of the collection.
    pub sponsorship: SponsorshipState<AccountId>,
    /// Collection limits.
    pub limits: CollectionLimits,
    /// Collection permissions.
    pub permissions: CollectionPermissions,
    /// Token property permissions.
    pub token_property_permissions: Vec<PropertyKeyPermission>,
    /// Collection properties.
    pub properties: Vec<Property>,
    /// Whether the collection is read only.
    pub read_only: bool,
    /// Extra collection flags.
    pub flags: RpcCollectionFlags,
}

impl<AccountId> View for RpcCollection<AccountId> {
    type V = RpcCollectionView<AccountId>;

    open spec fn view(&self) -> RpcCollectionView<AccountId> {
        RpcCollectionView {
            owner: self.owner,
            mode: self.mode,
            name: self.name@,
            description: self.description@,
            token_prefix: self.token_prefix@,
            sponsorship: self.sponsorship,
            limits: self.limits,
            permissions: self.permissions@,
            token_property_permissions: self.token_property_permissions@.map_values(
                |p: PropertyKeyPermission| p@,
            ),
            properties: self.properties@.map_values(|p: Property| p@),
            read_only: self.read_only,
            flags: self.flags,
        }
    }
}

/// The report of a collection of the first version: what the two versions
/// share is kept, the access and the mint mode become permissions, there
/// are no properties and no flags, and the collection can only be read.
pub open spec fn report_of_version1<AccountId>(
    value: CollectionVersion1<AccountId>,
) -> RpcCollectionView<AccountId> {
    RpcCollectionView {
        owner: value.owner,
        mode: value.mode,
        name: value.name@,
        description: value.description@,
        token_prefix: value.token_prefix@,
        sponsorship: value.sponsorship,
        limits: value.limits,
        permissions: CollectionPermissionsView {
            access: Some(value.access),
            mint_mode: Some(value.mint_mode),
            nesting: None,
        },
        token_property_permissions: Seq::empty(),
        properties: Seq::empty(),
        read_only: true,
        flags: RpcCollectionFlags { foreign: false, erc721metadata: false },
    }
}

impl<AccountId> From<CollectionVersion1<AccountId>> for RpcCollection<AccountId> {
    fn from(value: CollectionVersion1<AccountId>) -> (report: RpcCollection<AccountId>)
        ensures
            report@ == report_of_version1(value),
    {
        let CollectionVersion1 {
            name,
            description,
            owner,
            mode,
            access,
            token_prefix,
            mint_mode,
            sponsorship,
            limits,
            ..
        } = value;
        let report = RpcCollection {
            name,
            description,
            owner,
            mode,
            token_prefix,
            sponsorship,
            limits,
            permissions: CollectionPermissions {
                access: Some(access),
                mint_mode: Some(mint_mode),
                nesting: None,
            },
            token_property_permissions: Vec::new(),
            properties: Vec::new(),
            read_only: true,
            flags: RpcCollectionFlags { foreign: false, erc721metadata: false },
        };
        assert(report@.token_property_permissions =~= Seq::empty());
        assert(report@.properties =~= Seq::empty());
        report
    }
}

impl<AccountId> vstd::std_specs::convert::FromSpecImpl<CollectionVersion1<AccountId>> for RpcCollection<AccountId> {
    open spec fn obeys_from_spec() -> bool {
        false
    }

    open spec fn from_spec(value: CollectionVersion1<AccountId>) -> RpcCollection<AccountId> {
        arbitrary()
    }
}

} // verus!
