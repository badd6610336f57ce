//! What holds of the registry and of the resolution of assets, whatever is
//! registered.

use vstd::prelude::*;
use crate::asset::{AssetIdView, AssetInstance, AssetView, Fungibility};
use crate::bridge::{Dispatched, ItemCallView, ItemDataView, TransactionView};
use crate::error::{TransactFailure, XcmError};
use crate::ids::{CollectionId, TokenId};
use crate::locality::CollectionLocality;
use crate::location::{Junction, LocationView};
use crate::pallet::{native_fungible_collection_id, PalletView};
use crate::registry::RegistryView;

verus! {

/// Once a location is registered, registering it again is refused, whatever
/// the collection, and so is registering another location for its
/// collection. (A refused registration leaves the registry as it was: see
/// `Registry::register`.)
pub proof fn lemma_register_once(
    registry: RegistryView,
    location: LocationView,
    collection: CollectionId,
    other_location: LocationView,
    other_collection: CollectionId,
)
    requires
        registry.can_register(location, collection),
    ensures
        !registry.register(location, collection).can_register(location, other_collection),
        !registry.register(location, collection).can_register(other_location, collection),
{
}

/// Registration keeps the two tables in agreement, and binds the location
/// and the collection to each other.
pub proof fn lemma_register_keeps_bijection(
    registry: RegistryView,
    location: LocationView,
    collection: CollectionId,
)
    requires
        registry.wf(),
        registry.can_register(location, collection),
    ensures
        registry.register(location, collection).wf(),
        registry.register(location, collection).collection_of(location) == Some(collection),
        registry.register(location, collection).location_of(collection) == Some(location),
{
    let after = registry.register(location, collection);
    assert forall|l: LocationView| #[trigger]
        after.location_to_collection.dom().contains(
            l,
        ) implies after.collection_to_location.dom().contains(after.location_to_collection[l])
        && after.collection_to_location[after.location_to_collection[l]] == l by {
        if l != location {
            assert(registry.location_to_collection.dom().contains(l));
        }
    }
    assert forall|c: CollectionId| #[trigger]
        after.collection_to_location.dom().contains(
            c,
        ) implies after.location_to_collection.dom().contains(after.collection_to_location[c])
        && after.location_to_collection[after.collection_to_location[c]] == c by {
        if c != collection {
            assert(registry.collection_to_location.dom().contains(c));
        }
    }
}

/// Entering an instance keeps the two tables in agreement, and binds the
/// instance and the token to each other.
pub proof fn lemma_index_keeps_bijection(
    registry: RegistryView,
    collection: CollectionId,
    instance: AssetInstance,
    token: TokenId,
)
    requires
        registry.wf(),
        registry.can_index(collection, instance, token),
    ensures
        registry.index_instance(collection, instance, token).wf(),
        registry.index_instance(collection, instance, token).token_of(collection, instance) == Some(
            token,
        ),
        registry.index_instance(collection, instance, token).instance_of(collection, token) == Some(
            instance,
        ),
{
    let after = registry.index_instance(collection, instance, token);
    assert forall|c: CollectionId, i: AssetInstance| #[trigger]
        after.instance_to_token.dom().contains(
            (c, i),
        ) implies after.token_to_instance.dom().contains((c, after.instance_to_token[(c, i)]))
        && after.token_to_instance[(c, after.instance_to_token[(c, i)])] == i by {
        if (c, i) != (collection, instance) {
            assert(registry.instance_to_token.dom().contains((c, i)));
        }
    }
    assert forall|c: CollectionId, t: TokenId| #[trigger]
        after.token_to_instance.dom().contains(
            (c, t),
        ) implies after.instance_to_token.dom().contains((c, after.token_to_instance[(c, t)]))
        && after.instance_to_token[(c, after.token_to_instance[(c, t)])] == t by {
        if (c, t) != (collection, token) {
            assert(registry.token_to_instance.dom().contains((c, t)));
        }
    }
}

/// The two lookups of the registry undo each other: the location of the
/// collection of a registered location is that location, and the collection
/// of the location of a foreign collection is that collection.
pub proof fn lemma_lookups_inverse(
    registry: RegistryView,
    location: LocationView,
    collection: CollectionId,
)
    requires
        registry.wf(),
    ensures
        registry.collection_of(location) matches Some(c) ==> registry.location_of(c) == Some(
            location,
        ),
        registry.location_of(collection) matches Some(l) ==> registry.collection_of(l) == Some(
            collection,
        ),
{
    if registry.location_to_collection.dom().contains(location) {
        assert(registry.collection_to_location.dom().contains(
            registry.location_to_collection[location],
        ));
    }
    if registry.collection_to_location.dom().contains(collection) {
        assert(registry.location_to_collection.dom().contains(
            registry.collection_to_location[collection],
        ));
    }
}

/// The location that would name `collection` as a local collection: that of
/// this chain, followed by the collection's number as a general index.
pub open spec fn numeric_location(
    self_location: LocationView,
    collection: CollectionId,
) -> LocationView {
    self_location.pushed(Junction::GeneralIndex(collection.0 as u128))
}

/// A foreign collection cannot be reached as a local one. Where `collection`
/// is registered for the reserve location `reserve`:
/// the location that spells out its number never resolves to it as a local
/// collection, and fails to resolve at all unless it is itself registered;
/// an asset resolves to the foreign collection exactly where its location is
/// `reserve`; and the only collection that any location can resolve to as
/// local while it is foreign is the native one, by the two locations that
/// name the native currency.
pub proof fn lemma_foreign_never_local<AccountId>(
    pallet: PalletView<AccountId>,
    collection: CollectionId,
    reserve: LocationView,
    location: LocationView,
)
    requires
        pallet.registry.wf(),
        pallet.registry.location_of(collection) == Some(reserve),
    ensures
        pallet.asset_to_collection(
            AssetIdView::Concrete(numeric_location(pallet.self_location, collection)),
        ) != Ok::<CollectionLocality, XcmError>(CollectionLocality::Local(collection)),
        pallet.registry.collection_of(numeric_location(pallet.self_location, collection)) is None
            ==> pallet.asset_to_collection(
            AssetIdView::Concrete(numeric_location(pallet.self_location, collection)),
        ) == Err::<CollectionLocality, XcmError>(XcmError::AssetIdConversionFailed),
        pallet.asset_to_collection(AssetIdView::Concrete(location)) == Ok::<
            CollectionLocality,
            XcmError,
        >(CollectionLocality::Foreign(collection)) <==> location == reserve,
        pallet.asset_to_collection(AssetIdView::Concrete(location)) == Ok::<
            CollectionLocality,
            XcmError,
        >(CollectionLocality::Local(collection)) ==> collection == native_fungible_collection_id()
            && (location == LocationView::here() || location == pallet.self_location),
{
    let own = pallet.self_location;
    let numeric = numeric_location(own, collection);
    assert(numeric.interior.subrange(0, own.interior.len() as int) =~= own.interior);
    assert(numeric.match_and_split(own.interior) == Some(
        Junction::GeneralIndex(collection.0 as u128),
    ));
    assert(numeric != own) by {
        assert(numeric.interior.len() != own.interior.len());
    }
    assert(numeric != LocationView::here()) by {
        assert(numeric.interior.len() != LocationView::here().interior.len());
    }
    assert(CollectionId((collection.0 as u128) as u32) == collection);
    assert(pallet.local_asset_location_to_collection(numeric) is None);
    lemma_lookups_inverse(pallet.registry, location, collection);
    lemma_lookups_inverse(pallet.registry, reserve, collection);
}

/// The location `here` resolves to the native collection, unless it is
/// registered as a reserve location itself: a registered location is always
/// foreign.
pub proof fn lemma_here_is_native<AccountId>(pallet: PalletView<AccountId>)
    requires
        pallet.registry.collection_of(LocationView::here()) is None,
    ensures
        pallet.asset_to_collection(AssetIdView::Concrete(LocationView::here())) == Ok::<
            CollectionLocality,
            XcmError,
        >(CollectionLocality::Local(native_fungible_collection_id())),
{
}

/// The location of this chain resolves to the native collection, unless it
/// is registered as a reserve location itself.
pub proof fn lemma_self_location_is_native<AccountId>(pallet: PalletView<AccountId>)
    requires
        pallet.registry.collection_of(pallet.self_location) is None,
    ensures
        pallet.asset_to_collection(AssetIdView::Concrete(pallet.self_location)) == Ok::<
            CollectionLocality,
            XcmError,
        >(CollectionLocality::Local(native_fungible_collection_id())),
{
}

/// A general index that is too large for a collection identifier names no
/// local collection.
pub proof fn lemma_index_out_of_range<AccountId>(pallet: PalletView<AccountId>, index: u128)
    requires
        index > u32::MAX,
    ensures
        pallet.local_asset_location_to_collection(
            pallet.self_location.pushed(Junction::GeneralIndex(index)),
        ) is None,
{
    let own = pallet.self_location;
    let location = own.pushed(Junction::GeneralIndex(index));
    assert(location.interior.subrange(0, own.interior.len() as int) =~= own.interior);
    assert(location != own) by {
        assert(location.interior.len() != own.interior.len());
    }
    assert(location != LocationView::here()) by {
        assert(location.interior.len() != LocationView::here().interior.len());
    }
}

/// An instance of a foreign asset that was never deposited cannot be
/// withdrawn. Once its derivative token is entered, a withdrawal moves that
/// very token from its holder into the custody of the bridge.
pub proof fn lemma_withdraw_after_deposit<AccountId>(
    pallet: PalletView<AccountId>,
    collection: CollectionId,
    instance: AssetInstance,
    token: TokenId,
    from: AccountId,
)
    requires
        pallet.registry.can_index(collection, instance, token),
    ensures
        pallet.withdraw_asset_instance(CollectionLocality::Foreign(collection), instance, from)
            == Err::<TransactionView<AccountId>, XcmError>(XcmError::AssetNotFound),
        ({
            let after = PalletView {
                registry: pallet.registry.index_instance(collection, instance, token),
                ..pallet
            };
            &&& after.registry.token_of(collection, instance) == Some(token)
            &&& after.withdraw_asset_instance(CollectionLocality::Foreign(collection), instance, from)
                == Ok::<TransactionView<AccountId>, XcmError>(
                TransactionView {
                    call: ItemCallView::TransferItem {
                        depositor: from,
                        from,
                        to: pallet.pallet_account,
                        token,
                        amount: 1,
                        nesting_budget: 0,
                    },
                    failure: TransactFailure::NonFungibleWithdraw,
                    derivative: None,
                },
            )
        }),
{
}

/// What is entered stays as it is: a registration changes the collection of
/// no location that was registered before, nor the location of any
/// collection, and entering an instance changes the token of no instance
/// that was entered before, nor the instance of any token.
pub proof fn lemma_entries_are_permanent(
    registry: RegistryView,
    location: LocationView,
    collection: CollectionId,
    instance: AssetInstance,
    token: TokenId,
    other_location: LocationView,
    other_collection: CollectionId,
    other_instance: AssetInstance,
    other_token: TokenId,
)
    ensures
        registry.can_register(location, collection) && registry.collection_of(other_location)
            is Some ==> registry.register(location, collection).collection_of(other_location)
            == registry.collection_of(other_location),
        registry.can_register(location, collection) && registry.location_of(other_collection)
            is Some ==> registry.register(location, collection).location_of(other_collection)
            == registry.location_of(other_collection),
        registry.can_index(collection, instance, token) && registry.token_of(
            other_collection,
            other_instance,
        ) is Some ==> registry.index_instance(collection, instance, token).token_of(
            other_collection,
            other_instance,
        ) == registry.token_of(other_collection, other_instance),
        registry.can_index(collection, instance, token) && registry.instance_of(
            other_collection,
            other_token,
        ) is Some ==> registry.index_instance(collection, instance, token).instance_of(
            other_collection,
            other_token,
        ) == registry.instance_of(other_collection, other_token),
{
}

/// A transfer between two accounts of this chain neither makes nor destroys
/// anything: where it asks for a request at all, the request is a transfer,
/// and no token is to be entered.
pub proof fn lemma_transfer_only_moves<AccountId>(
    pallet: PalletView<AccountId>,
    what: AssetView,
    from: Option<AccountId>,
    to: Option<AccountId>,
    dispatched: Dispatched,
)
    ensures
        pallet.internal_transfer_asset(what, from, to, dispatched) matches Ok(transaction)
            ==> transaction.call is TransferItem && transaction.derivative is None,
{
}

/// The bridge never makes a token of a local collection. Where a deposit
/// asks for a new token, the asset is foreign, the token is to be entered
/// under the asset's own instance in the asset's own collection, and the
/// instance has no token yet.
pub proof fn lemma_only_foreign_derivatives<AccountId>(
    pallet: PalletView<AccountId>,
    what: AssetView,
    to: Option<AccountId>,
    dispatched: Dispatched,
)
    ensures
        pallet.deposit_asset(what, to, dispatched) matches Ok(transaction) ==> (
        transaction.call matches ItemCallView::CreateItem { data: ItemDataView::NFT { .. }, .. })
            == (transaction.derivative is Some),
        match pallet.deposit_asset(what, to, dispatched) {
            Ok(transaction) => match transaction.derivative {
                Some((collection, instance)) => {
                    &&& pallet.asset_to_collection(what.id) == Ok::<CollectionLocality, XcmError>(
                        CollectionLocality::Foreign(collection),
                    )
                    &&& what.fun == Fungibility::NonFungible(instance)
                    &&& pallet.registry.token_of(collection, instance) is None
                },
                None => true,
            },
            Err(_) => true,
        },
{
}

/// No request of the bridge lets the collection walk through tokens that own
/// tokens: the nesting budget of every request is zero.
pub proof fn lemma_no_nesting_budget<AccountId>(
    pallet: PalletView<AccountId>,
    what: AssetView,
    from: Option<AccountId>,
    to: Option<AccountId>,
    dispatched: Dispatched,
)
    ensures
        pallet.deposit_asset(what, to, dispatched) matches Ok(transaction) ==> budget_of(
            transaction.call,
        ) == 0,
        pallet.withdraw_asset(what, from, dispatched) matches Ok(transaction) ==> budget_of(
            transaction.call,
        ) == 0,
        pallet.internal_transfer_asset(what, from, to, dispatched) matches Ok(transaction)
            ==> budget_of(transaction.call) == 0,
{
}

/// The nesting budget that a request grants. A burn walks nowhere.
pub open spec fn budget_of<AccountId>(call: ItemCallView<AccountId>) -> u32 {
    match call {
        ItemCallView::CreateItem { nesting_budget, .. } => nesting_budget,
        ItemCallView::TransferItem { nesting_budget, .. } => nesting_budget,
        ItemCallView::BurnItem { .. } => 0,
    }
}

/// The location that names a collection resolves back to that collection:
/// to the foreign collection where the collection is foreign, and to the
/// local one where the collection is neither foreign nor the native one and
/// the location that spells out its number is not registered itself.
pub proof fn lemma_location_names_its_collection<AccountId>(
    pallet: PalletView<AccountId>,
    collection: CollectionId,
)
    requires
        pallet.registry.wf(),
        collection != native_fungible_collection_id(),
        pallet.self_location.interior.len() < crate::location::MAX_JUNCTIONS,
    ensures
        match pallet.registry.location_of(collection) {
            Some(reserve) => pallet.collection_location(collection) == Some(reserve)
                && pallet.asset_to_collection(AssetIdView::Concrete(reserve)) == Ok::<
                CollectionLocality,
                XcmError,
            >(CollectionLocality::Foreign(collection)),
            None => pallet.collection_location(collection) == Some(
                numeric_location(pallet.self_location, collection),
            ) && (pallet.registry.collection_of(numeric_location(pallet.self_location, collection))
                is None ==> pallet.asset_to_collection(
                AssetIdView::Concrete(numeric_location(pallet.self_location, collection)),
            ) == Ok::<CollectionLocality, XcmError>(CollectionLocality::Local(collection))),
        },
{
    let own = pallet.self_location;
    let numeric = numeric_location(own, collection);
    assert(numeric.interior.subrange(0, own.interior.len() as int) =~= own.interior);
    assert(numeric != own) by {
        assert(numeric.interior.len() != own.interior.len());
    }
    assert(numeric != LocationView::here()) by {
        assert(numeric.interior.len() != LocationView::here().interior.len());
    }
    assert(CollectionId((collection.0 as u128) as u32) == collection);
    if pallet.registry.location_of(collection) is Some {
        lemma_lookups_inverse(
            pallet.registry,
            pallet.registry.location_of(collection)->0,
            collection,
        );
    }
}

} // verus!
