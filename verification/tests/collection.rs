use foreign_assets::collection::{
    AccessMode, CollectionFlags, CollectionLimits, CollectionMode, CollectionPermissions,
    CreateFungibleData, NestingPermissions, OverflowError, OwnerRestrictedSet, SchemaVersion,
    SponsoringRateLimit, SponsorshipState, ACCOUNT_TOKEN_OWNERSHIP_LIMIT, COLLECTION_TOKEN_LIMIT,
    CUSTOM_DATA_LIMIT, MAX_SPONSOR_TIMEOUT, MAX_TOKEN_OWNERSHIP,
};
use foreign_assets::ids::{ArithmeticError, CollectionId, TokenId};
use foreign_assets::rpc_collection::{CollectionVersion1, RpcCollection};
use foreign_assets::collection::{MetaUpdatePermission, RpcCollectionFlags};

#[test]
fn identifiers_come_from_numbers() {
    assert_eq!(CollectionId::from(7), CollectionId(7));
    assert_eq!(CollectionId::default(), CollectionId(0));
    assert_eq!(TokenId::default(), TokenId(0));
    assert!(CollectionId(1) < CollectionId(2));
}

#[test]
fn the_next_token_follows_unless_it_overflows() {
    assert_eq!(TokenId(0).try_next(), Ok(TokenId(1)));
    assert_eq!(TokenId(41).try_next(), Ok(TokenId(42)));
    assert_eq!(TokenId(u32::MAX - 1).try_next(), Ok(TokenId(u32::MAX)));
    assert_eq!(TokenId(u32::MAX).try_next(), Err(ArithmeticError::Overflow));
}

#[test]
fn modes_have_their_numbers() {
    assert_eq!(CollectionMode::NFT.id(), 1);
    assert_eq!(CollectionMode::Fungible(0).id(), 2);
    assert_eq!(CollectionMode::Fungible(30).id(), 2);
    assert_eq!(CollectionMode::ReFungible.id(), 3);
}

#[test]
fn defaults() {
    assert_eq!(AccessMode::default(), AccessMode::Normal);
    assert_eq!(SchemaVersion::default(), SchemaVersion::ImageURL);
    assert_eq!(SponsorshipState::<u64>::default(), SponsorshipState::Disabled);
    assert_eq!(CreateFungibleData::default(), CreateFungibleData { value: 0 });
    assert_eq!(
        CollectionFlags::default(),
        CollectionFlags { foreign: false, erc721metadata: false, external: false, reserved: 0 }
    );
    assert_eq!(OverflowError.message(), "overflow occured");
}

#[test]
fn sponsors() {
    let disabled: SponsorshipState<u64> = SponsorshipState::Disabled;
    let unconfirmed = SponsorshipState::Unconfirmed(5u64);
    let confirmed = SponsorshipState::Confirmed(6u64);
    assert_eq!(disabled.sponsor(), None);
    assert_eq!(unconfirmed.sponsor(), None);
    assert_eq!(confirmed.sponsor(), Some(&6));
    assert_eq!(disabled.pending_sponsor(), None);
    assert_eq!(unconfirmed.pending_sponsor(), Some(&5));
    assert_eq!(confirmed.pending_sponsor(), Some(&6));
    assert!(!disabled.confirmed());
    assert!(!unconfirmed.confirmed());
    assert!(confirmed.confirmed());
}

#[test]
fn the_default_limits_by_mode() {
    for mode in [CollectionMode::NFT, CollectionMode::Fungible(3), CollectionMode::ReFungible] {
        assert_eq!(
            CollectionLimits::with_default_limits(mode),
            CollectionLimits {
                account_token_ownership_limit: Some(1_000_000),
                sponsored_data_size: Some(2048),
                sponsored_data_rate_limit: Some(SponsoringRateLimit::SponsoringDisabled),
                token_limit: Some(u32::MAX),
                sponsor_transfer_timeout: Some(5),
                sponsor_approve_timeout: Some(5),
                owner_can_transfer: Some(false),
                owner_can_destroy: Some(true),
                transfers_enabled: Some(true),
            }
        );
    }
}

#[test]
fn limits_that_are_not_set_are_the_defaults_under_the_maximum() {
    let unset = CollectionLimits::default();
    assert_eq!(unset.account_token_ownership_limit(), MAX_TOKEN_OWNERSHIP);
    assert_eq!(ACCOUNT_TOKEN_OWNERSHIP_LIMIT, 1_000_000);
    assert_eq!(unset.account_token_ownership_limit(), 100_000);
    assert_eq!(unset.sponsored_data_size(), CUSTOM_DATA_LIMIT);
    assert_eq!(unset.token_limit(), COLLECTION_TOKEN_LIMIT);
    assert_eq!(unset.sponsor_transfer_timeout(7), 7);
    assert_eq!(unset.sponsor_transfer_timeout(u32::MAX), MAX_SPONSOR_TIMEOUT);
    assert_eq!(unset.sponsor_approve_timeout(), 5);
    assert!(!unset.owner_can_transfer());
    assert!(!unset.owner_can_transfer_instaled());
    assert!(unset.owner_can_destroy());
    assert!(unset.transfers_enabled());
    assert_eq!(unset.sponsored_data_rate_limit(), None);
}

#[test]
fn limits_that_are_set_are_capped() {
    let limits = CollectionLimits {
        account_token_ownership_limit: Some(100_001),
        sponsored_data_size: Some(2049),
        sponsored_data_rate_limit: Some(SponsoringRateLimit::Blocks(10_368_001)),
        token_limit: Some(17),
        sponsor_transfer_timeout: Some(10_368_001),
        sponsor_approve_timeout: Some(10_368_000),
        owner_can_transfer: Some(true),
        owner_can_destroy: Some(false),
        transfers_enabled: Some(false),
    };
    assert_eq!(limits.account_token_ownership_limit(), 100_000);
    assert_eq!(limits.sponsored_data_size(), 2048);
    assert_eq!(limits.token_limit(), 17);
    assert_eq!(limits.sponsor_transfer_timeout(1), 10_368_000);
    assert_eq!(limits.sponsor_approve_timeout(), 10_368_000);
    assert!(limits.owner_can_transfer());
    assert!(limits.owner_can_transfer_instaled());
    assert!(!limits.owner_can_destroy());
    assert!(!limits.transfers_enabled());
    assert_eq!(limits.sponsored_data_rate_limit(), Some(10_368_000));
    let lower = CollectionLimits {
        account_token_ownership_limit: Some(9),
        sponsored_data_size: Some(8),
        sponsored_data_rate_limit: Some(SponsoringRateLimit::Blocks(7)),
        owner_can_transfer: Some(false),
        ..limits
    };
    assert_eq!(lower.account_token_ownership_limit(), 9);
    assert_eq!(lower.sponsored_data_size(), 8);
    assert_eq!(lower.sponsored_data_rate_limit(), Some(7));
    assert!(!lower.owner_can_transfer());
    assert!(lower.owner_can_transfer_instaled());
    let disabled = CollectionLimits {
        sponsored_data_rate_limit: Some(SponsoringRateLimit::SponsoringDisabled),
        ..limits
    };
    assert_eq!(disabled.sponsored_data_rate_limit(), None);
}

#[test]
fn permissions_that_are_not_set_are_the_defaults() {
    let unset = CollectionPermissions::default();
    assert_eq!(unset.access(), AccessMode::Normal);
    assert!(!unset.mint_mode());
    assert_eq!(
        unset.nesting(),
        NestingPermissions { token_owner: false, collection_admin: false, restricted: None }
    );
    let mut restricted = OwnerRestrictedSet::new();
    assert_eq!(restricted.try_insert(CollectionId(4)), Ok(true));
    let set = CollectionPermissions {
        access: Some(AccessMode::AllowList),
        mint_mode: Some(true),
        nesting: Some(NestingPermissions {
            token_owner: true,
            collection_admin: false,
            restricted: Some(restricted.clone()),
        }),
    };
    assert_eq!(set.access(), AccessMode::AllowList);
    assert!(set.mint_mode());
    assert_eq!(
        set.nesting(),
        NestingPermissions {
            token_owner: true,
            collection_admin: false,
            restricted: Some(restricted),
        }
    );
}

#[test]
fn a_restricted_set_names_at_most_sixteen_collections() {
    let mut set = OwnerRestrictedSet::new();
    assert!(!set.contains(CollectionId(0)));
    for i in 0..16 {
        assert_eq!(set.try_insert(CollectionId(i)), Ok(true));
    }
    assert_eq!(set.try_insert(CollectionId(3)), Ok(false));
    assert_eq!(set.try_insert(CollectionId(16)), Err(CollectionId(16)));
    assert!(set.contains(CollectionId(15)));
    assert!(!set.contains(CollectionId(16)));
    assert_eq!(set.clone(), set);
}

#[test]
fn a_collection_of_the_first_version_is_reported_read_only() {
    let stored = CollectionVersion1 {
        owner: 5u64,
        mode: CollectionMode::Fungible(4),
        access: AccessMode::AllowList,
        name: vec![65, 66],
        description: vec![67],
        token_prefix: vec![68, 69],
        mint_mode: true,
        offchain_schema: vec![1],
        schema_version: SchemaVersion::Unique,
        sponsorship: SponsorshipState::Confirmed(6u64),
        limits: CollectionLimits { token_limit: Some(3), ..CollectionLimits::default() },
        variable_on_chain_schema: vec![2],
        const_on_chain_schema: vec![3],
        meta_update_permission: MetaUpdatePermission::Admin,
    };
    let report = RpcCollection::from(stored);
    assert_eq!(report.owner, 5);
    assert_eq!(report.mode, CollectionMode::Fungible(4));
    assert_eq!(report.name, vec![65, 66]);
    assert_eq!(report.description, vec![67]);
    assert_eq!(report.token_prefix, vec![68, 69]);
    assert_eq!(report.sponsorship, SponsorshipState::Confirmed(6));
    assert_eq!(report.limits.token_limit, Some(3));
    assert_eq!(
        report.permissions,
        CollectionPermissions {
            access: Some(AccessMode::AllowList),
            mint_mode: Some(true),
            nesting: None,
        }
    );
    assert!(report.token_property_permissions.is_empty());
    assert!(report.properties.is_empty());
    assert!(report.read_only);
    assert_eq!(report.flags, RpcCollectionFlags { foreign: false, erc721metadata: false });
}
