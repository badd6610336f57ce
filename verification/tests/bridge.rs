use std::collections::HashMap;

use foreign_assets::asset::{Asset, AssetId, AssetInstance, Fungibility};
use foreign_assets::bridge::{
    derivative_item_data, Dispatched, ItemCall, ItemData, ItemProperty, Outcome,
};
use foreign_assets::error::{TransactFailure, XcmError};
use foreign_assets::ids::{CollectionId, TokenId};
use foreign_assets::locality::CollectionLocality;
use foreign_assets::location::{Junction, Location};
use foreign_assets::pallet::Pallet;

const BRIDGE: u64 = 77;
const ALICE: u64 = 1;
const BOB: u64 = 2;

fn own_location() -> Location {
    Location::new(1, vec![Junction::Parachain(2037)]).unwrap()
}

fn reserve() -> Location {
    Location::new(1, vec![Junction::Parachain(1000)]).unwrap()
}

fn bridge() -> Pallet<u64> {
    Pallet::new(BRIDGE, own_location())
}

fn native(amount: u128) -> Asset {
    Asset { id: AssetId::Concrete(Location::here()), fun: Fungibility::Fungible(amount) }
}

fn foreign(instance: AssetInstance) -> Asset {
    Asset { id: AssetId::Concrete(reserve()), fun: Fungibility::NonFungible(instance) }
}

/// One collection, as the chain would keep it: balances of the fungible
/// token and the owner of each other token.
struct Collection {
    balances: HashMap<u64, u128>,
    owners: HashMap<u32, u64>,
    next_token: u32,
}

impl Collection {
    fn new() -> Self {
        Collection { balances: HashMap::new(), owners: HashMap::new(), next_token: 1 }
    }

    fn balance(&self, who: u64) -> u128 {
        *self.balances.get(&who).unwrap_or(&0)
    }

    fn perform(&mut self, call: &ItemCall<u64>) -> Outcome {
        match call {
            ItemCall::CreateItem { to, data: ItemData::Fungible { value }, .. } => {
                *self.balances.entry(**to).or_insert(0) += *value;
                Outcome::Created(TokenId(0))
            }
            ItemCall::CreateItem { to, data: ItemData::NFT { .. }, .. } => {
                let token = self.next_token;
                self.next_token += 1;
                self.owners.insert(token, **to);
                Outcome::Created(TokenId(token))
            }
            ItemCall::TransferItem { from, to, token, amount, .. } => {
                if token.0 == 0 {
                    if self.balance(**from) < *amount {
                        return Outcome::Rejected;
                    }
                    *self.balances.entry(**from).or_insert(0) -= *amount;
                    *self.balances.entry(**to).or_insert(0) += *amount;
                    Outcome::Done
                } else if self.owners.get(&token.0) == Some(*from) && *amount == 1 {
                    self.owners.insert(token.0, **to);
                    Outcome::Done
                } else {
                    Outcome::Rejected
                }
            }
            ItemCall::BurnItem { from, amount, .. } => {
                if self.balance(**from) < *amount {
                    return Outcome::Rejected;
                }
                *self.balances.entry(**from).or_insert(0) -= *amount;
                Outcome::Done
            }
        }
    }
}

fn deposit(
    pallet: &mut Pallet<u64>,
    collection: &mut Collection,
    what: &Asset,
    to: u64,
) -> Result<(), XcmError> {
    let (failure, derivative, outcome) = {
        let transaction = pallet.deposit_asset(what, Some(&to), Dispatched::Extensions)?;
        (transaction.failure, transaction.derivative, collection.perform(&transaction.call))
    };
    pallet.complete_deposit(failure, derivative, outcome)
}

fn withdraw(
    pallet: &Pallet<u64>,
    collection: &mut Collection,
    what: &Asset,
    from: u64,
) -> Result<Asset, XcmError> {
    let transaction = pallet.withdraw_asset(what, Some(&from), Dispatched::Extensions)?;
    let outcome = collection.perform(&transaction.call);
    Pallet::<u64>::complete_transfer(what, transaction.failure, outcome)
}

fn transfer(
    pallet: &Pallet<u64>,
    collection: &mut Collection,
    what: &Asset,
    from: u64,
    to: u64,
) -> Result<Asset, XcmError> {
    let transaction =
        pallet.internal_transfer_asset(what, Some(&from), Some(&to), Dispatched::Extensions)?;
    let outcome = collection.perform(&transaction.call);
    Pallet::<u64>::complete_transfer(what, transaction.failure, outcome)
}

#[test]
fn a_fungible_deposit_mints_to_the_destination_with_no_nesting_budget() {
    let pallet = bridge();
    let transaction = pallet.deposit_asset(&native(100), Some(&ALICE), Dispatched::Extensions).unwrap();
    match transaction.call {
        ItemCall::CreateItem { depositor, to, data, nesting_budget } => {
            assert_eq!(*depositor, BRIDGE);
            assert_eq!(*to, ALICE);
            assert_eq!(data, ItemData::Fungible { value: 100 });
            assert_eq!(nesting_budget, 0);
        }
        other => panic!("unexpected call {:?}", other),
    }
    assert_eq!(transaction.failure, TransactFailure::FungibleDeposit);
    assert_eq!(transaction.derivative, None);
}

#[test]
fn a_fungible_withdrawal_burns_the_native_token() {
    let pallet = bridge();
    let transaction =
        pallet.withdraw_asset(&native(30), Some(&ALICE), Dispatched::Extensions).unwrap();
    match transaction.call {
        ItemCall::BurnItem { from, token, amount } => {
            assert_eq!(*from, ALICE);
            assert_eq!(token, TokenId(0));
            assert_eq!(amount, 30);
        }
        other => panic!("unexpected call {:?}", other),
    }
    assert_eq!(transaction.failure, TransactFailure::FungibleWithdraw);
}

#[test]
fn a_fungible_transfer_moves_the_amount_between_the_accounts() {
    let pallet = bridge();
    let transaction = pallet
        .internal_transfer_asset(&native(30), Some(&ALICE), Some(&BOB), Dispatched::Extensions)
        .unwrap();
    match transaction.call {
        ItemCall::TransferItem { depositor, from, to, token, amount, nesting_budget } => {
            assert_eq!((*depositor, *from, *to), (ALICE, ALICE, BOB));
            assert_eq!(token, TokenId(0));
            assert_eq!(amount, 30);
            assert_eq!(nesting_budget, 0);
        }
        other => panic!("unexpected call {:?}", other),
    }
    assert_eq!(transaction.failure, TransactFailure::FungibleTransfer);
}

#[test]
fn an_account_that_cannot_be_resolved_fails_first() {
    let pallet = bridge();
    let unknown = Asset { id: AssetId::Abstract([0; 32]), fun: Fungibility::Fungible(1) };
    assert_eq!(
        pallet.deposit_asset(&unknown, None, Dispatched::NoCollection).err(),
        Some(XcmError::AccountIdConversionFailed)
    );
    assert_eq!(
        pallet.withdraw_asset(&unknown, None, Dispatched::NoCollection).err(),
        Some(XcmError::AccountIdConversionFailed)
    );
    assert_eq!(
        pallet.internal_transfer_asset(&unknown, None, Some(&BOB), Dispatched::Extensions).err(),
        Some(XcmError::AccountIdConversionFailed)
    );
    assert_eq!(
        pallet.internal_transfer_asset(&unknown, Some(&ALICE), None, Dispatched::Extensions).err(),
        Some(XcmError::AccountIdConversionFailed)
    );
}

#[test]
fn failures_of_the_resolution_are_passed_on() {
    let pallet = bridge();
    let unhandled = Asset { id: AssetId::Abstract([0; 32]), fun: Fungibility::Fungible(1) };
    let unknown = Asset { id: AssetId::Concrete(reserve()), fun: Fungibility::Fungible(1) };
    assert_eq!(
        pallet.deposit_asset(&unhandled, Some(&ALICE), Dispatched::Extensions).err(),
        Some(XcmError::AssetNotHandled)
    );
    assert_eq!(
        pallet.deposit_asset(&unknown, Some(&ALICE), Dispatched::Extensions).err(),
        Some(XcmError::AssetIdConversionFailed)
    );
    assert_eq!(
        pallet.withdraw_asset(&unknown, Some(&ALICE), Dispatched::Extensions).err(),
        Some(XcmError::AssetIdConversionFailed)
    );
    assert_eq!(
        pallet
            .internal_transfer_asset(&unhandled, Some(&ALICE), Some(&BOB), Dispatched::Extensions)
            .err(),
        Some(XcmError::AssetNotHandled)
    );
}

#[test]
fn a_missing_collection_is_not_found() {
    let pallet = bridge();
    assert_eq!(
        pallet.deposit_asset(&native(1), Some(&ALICE), Dispatched::NoCollection).err(),
        Some(XcmError::AssetNotFound)
    );
    assert_eq!(
        pallet.withdraw_asset(&native(1), Some(&ALICE), Dispatched::NoCollection).err(),
        Some(XcmError::AssetNotFound)
    );
    assert_eq!(
        pallet
            .internal_transfer_asset(&native(1), Some(&ALICE), Some(&BOB), Dispatched::NoCollection)
            .err(),
        Some(XcmError::AssetNotFound)
    );
}

#[test]
fn a_collection_without_the_extension_is_refused() {
    let pallet = bridge();
    assert_eq!(
        pallet.deposit_asset(&native(1), Some(&ALICE), Dispatched::NoExtensions).err(),
        Some(XcmError::Unimplemented)
    );
    assert_eq!(
        pallet.withdraw_asset(&native(1), Some(&ALICE), Dispatched::NoExtensions).err(),
        Some(XcmError::NoPermission)
    );
    assert_eq!(
        pallet
            .internal_transfer_asset(&native(1), Some(&ALICE), Some(&BOB), Dispatched::NoExtensions)
            .err(),
        Some(XcmError::NoPermission)
    );
}

#[test]
fn a_local_instance_without_a_token_is_never_made() {
    let pallet = bridge();
    let local = Asset {
        id: AssetId::Concrete(
            Location::new(1, vec![Junction::Parachain(2037), Junction::GeneralIndex(4)]).unwrap(),
        ),
        fun: Fungibility::NonFungible(AssetInstance::Array4([1, 2, 3, 4])),
    };
    assert_eq!(
        pallet.deposit_asset(&local, Some(&ALICE), Dispatched::Extensions).err(),
        Some(XcmError::AssetNotFound)
    );
    assert_eq!(
        pallet.withdraw_asset(&local, Some(&ALICE), Dispatched::Extensions).err(),
        Some(XcmError::AssetNotFound)
    );
    assert_eq!(
        pallet
            .internal_transfer_asset(&local, Some(&ALICE), Some(&BOB), Dispatched::Extensions)
            .err(),
        Some(XcmError::AssetNotFound)
    );
}

#[test]
fn a_local_instance_with_an_index_is_moved_out_of_custody() {
    let pallet = bridge();
    let local = Asset {
        id: AssetId::Concrete(
            Location::new(1, vec![Junction::Parachain(2037), Junction::GeneralIndex(4)]).unwrap(),
        ),
        fun: Fungibility::NonFungible(AssetInstance::Index(9)),
    };
    let transaction = pallet.deposit_asset(&local, Some(&ALICE), Dispatched::Extensions).unwrap();
    match transaction.call {
        ItemCall::TransferItem { depositor, from, to, token, amount, nesting_budget } => {
            assert_eq!((*depositor, *from, *to), (BRIDGE, BRIDGE, ALICE));
            assert_eq!(token, TokenId(9));
            assert_eq!(amount, 1);
            assert_eq!(nesting_budget, 0);
        }
        other => panic!("unexpected call {:?}", other),
    }
    assert_eq!(transaction.failure, TransactFailure::NonFungibleDeposit);
    assert_eq!(transaction.derivative, None);
}

#[test]
fn the_derivative_token_carries_the_encoded_instance() {
    assert_eq!(
        derivative_item_data(vec![9, 8, 7]),
        ItemData::NFT {
            properties: vec![ItemProperty {
                key: b"reserve-asset-instance".to_vec(),
                value: vec![9, 8, 7],
            }],
        }
    );
}

#[test]
fn an_unseen_foreign_instance_gets_a_derivative_token() {
    let mut pallet = bridge();
    assert_eq!(pallet.register(reserve(), CollectionId(5)), Ok(()));
    let instance = AssetInstance::Index(300);
    let transaction =
        pallet.deposit_asset(&foreign(instance), Some(&ALICE), Dispatched::Extensions).unwrap();
    match &transaction.call {
        ItemCall::CreateItem { depositor, to, data, nesting_budget } => {
            assert_eq!((**depositor, **to), (BRIDGE, ALICE));
            assert_eq!(*nesting_budget, 0);
            assert_eq!(
                *data,
                ItemData::NFT {
                    properties: vec![ItemProperty {
                        key: b"reserve-asset-instance".to_vec(),
                        value: vec![1, 0xb1, 0x04],
                    }],
                }
            );
        }
        other => panic!("unexpected call {:?}", other),
    }
    assert_eq!(transaction.failure, TransactFailure::NonFungibleDeposit);
    assert_eq!(transaction.derivative, Some((CollectionId(5), instance)));
    let same = pallet.create_foreign_asset_instance(CollectionId(5), &instance, &ALICE);
    assert_eq!(same.derivative, transaction.derivative);
}

#[test]
fn deposit_then_withdraw_of_a_foreign_instance() {
    let mut pallet = bridge();
    let mut collection = Collection::new();
    assert_eq!(pallet.register(reserve(), CollectionId(5)), Ok(()));
    let instance = AssetInstance::Array8([1, 2, 3, 4, 5, 6, 7, 8]);
    let asset = foreign(instance);

    assert_eq!(withdraw(&pallet, &mut collection, &asset, ALICE), Err(XcmError::AssetNotFound));

    assert_eq!(deposit(&mut pallet, &mut collection, &asset, ALICE), Ok(()));
    let token = pallet.foreign_reserve_asset_instance_to_token_id(CollectionId(5), &instance);
    assert_eq!(token, Some(TokenId(1)));
    assert_eq!(
        pallet.token_id_to_foreign_reserve_asset_instance(CollectionId(5), TokenId(1)),
        Some(instance)
    );
    assert_eq!(collection.owners.get(&1), Some(&ALICE));

    assert_eq!(withdraw(&pallet, &mut collection, &asset, ALICE), Ok(asset.clone()));
    assert_eq!(collection.owners.get(&1), Some(&BRIDGE));

    // The token stays bound to the instance. A second withdrawal finds it,
    // and the collection rejects the transfer: the token is in custody.
    assert_eq!(
        withdraw(&pallet, &mut collection, &asset, ALICE),
        Err(XcmError::FailedToTransactAsset(TransactFailure::NonFungibleWithdraw))
    );
    assert_eq!(collection.owners.get(&1), Some(&BRIDGE));

    // A second deposit hands the same token out of custody.
    assert_eq!(deposit(&mut pallet, &mut collection, &asset, BOB), Ok(()));
    assert_eq!(collection.owners.get(&1), Some(&BOB));
    assert_eq!(
        pallet.foreign_reserve_asset_instance_to_token_id(CollectionId(5), &instance),
        Some(TokenId(1))
    );
    assert_eq!(collection.next_token, 2);
}

#[test]
fn an_instance_never_deposited_cannot_be_withdrawn() {
    let mut pallet = bridge();
    assert_eq!(pallet.register(reserve(), CollectionId(5)), Ok(()));
    let asset = foreign(AssetInstance::Undefined);
    assert_eq!(
        pallet.withdraw_asset(&asset, Some(&ALICE), Dispatched::Extensions).err(),
        Some(XcmError::AssetNotFound)
    );
    assert_eq!(
        pallet.withdraw_asset_instance(
            CollectionLocality::Foreign(CollectionId(5)),
            &AssetInstance::Undefined,
            &ALICE
        )
        .err(),
        Some(XcmError::AssetNotFound)
    );
    assert_eq!(
        pallet
            .internal_transfer_asset(&asset, Some(&ALICE), Some(&BOB), Dispatched::Extensions)
            .err(),
        Some(XcmError::AssetNotFound)
    );
}

#[test]
fn deposit_transfer_and_withdraw_of_the_native_currency() {
    let mut pallet = bridge();
    let mut collection = Collection::new();
    assert_eq!(deposit(&mut pallet, &mut collection, &native(100), ALICE), Ok(()));
    assert_eq!(collection.balance(ALICE), 100);
    assert_eq!(transfer(&pallet, &mut collection, &native(50), ALICE, BOB), Ok(native(50)));
    assert_eq!((collection.balance(ALICE), collection.balance(BOB)), (50, 50));
    assert_eq!(withdraw(&pallet, &mut collection, &native(50), ALICE), Ok(native(50)));
    assert_eq!(collection.balance(ALICE), 0);
    assert_eq!(
        withdraw(&pallet, &mut collection, &native(60), BOB),
        Err(XcmError::FailedToTransactAsset(TransactFailure::FungibleWithdraw))
    );
    assert_eq!(collection.balance(BOB), 50);
}

#[test]
fn a_transfer_of_a_foreign_instance_moves_its_token() {
    let mut pallet = bridge();
    let mut collection = Collection::new();
    assert_eq!(pallet.register(reserve(), CollectionId(5)), Ok(()));
    let asset = foreign(AssetInstance::Array4([4, 3, 2, 1]));
    assert_eq!(deposit(&mut pallet, &mut collection, &asset, ALICE), Ok(()));
    assert_eq!(transfer(&pallet, &mut collection, &asset, ALICE, BOB), Ok(asset.clone()));
    assert_eq!(collection.owners.get(&1), Some(&BOB));
    assert_eq!(
        transfer(&pallet, &mut collection, &asset, ALICE, BOB),
        Err(XcmError::FailedToTransactAsset(TransactFailure::NonFungibleTransfer))
    );
}

#[test]
fn a_rejected_request_fails_with_the_failure_of_its_step() {
    let mut pallet = bridge();
    for failure in [
        TransactFailure::FungibleDeposit,
        TransactFailure::NonFungibleDeposit,
        TransactFailure::FungibleWithdraw,
        TransactFailure::NonFungibleWithdraw,
        TransactFailure::FungibleTransfer,
        TransactFailure::NonFungibleTransfer,
    ] {
        assert_eq!(
            pallet.complete_deposit(failure, None, Outcome::Rejected),
            Err(XcmError::FailedToTransactAsset(failure))
        );
        assert_eq!(
            Pallet::<u64>::complete_transfer(&native(1), failure, Outcome::Rejected),
            Err(XcmError::FailedToTransactAsset(failure))
        );
        assert_eq!(
            Pallet::<u64>::complete_transfer(&native(1), failure, Outcome::Done),
            Ok(native(1))
        );
    }
    assert_eq!(pallet.complete_deposit(TransactFailure::FungibleDeposit, None, Outcome::Done), Ok(()));
    assert_eq!(
        pallet.complete_deposit(
            TransactFailure::FungibleDeposit,
            None,
            Outcome::Created(TokenId(0))
        ),
        Ok(())
    );
}

#[test]
fn a_derivative_that_is_not_new_fails_the_deposit() {
    let mut pallet = bridge();
    let failure = TransactFailure::NonFungibleDeposit;
    let first = AssetInstance::Index(1);
    let second = AssetInstance::Index(2);
    let entry = Some((CollectionId(5), first));
    assert_eq!(
        pallet.complete_deposit(failure, entry, Outcome::Rejected),
        Err(XcmError::FailedToTransactAsset(failure))
    );
    assert_eq!(
        pallet.complete_deposit(failure, entry, Outcome::Done),
        Err(XcmError::FailedToTransactAsset(failure))
    );
    assert_eq!(pallet.foreign_reserve_asset_instance_to_token_id(CollectionId(5), &first), None);
    assert_eq!(pallet.complete_deposit(failure, entry, Outcome::Created(TokenId(3))), Ok(()));
    assert_eq!(
        pallet.foreign_reserve_asset_instance_to_token_id(CollectionId(5), &first),
        Some(TokenId(3))
    );
    assert_eq!(
        pallet.complete_deposit(
            failure,
            Some((CollectionId(5), second)),
            Outcome::Created(TokenId(3))
        ),
        Err(XcmError::FailedToTransactAsset(failure))
    );
    assert_eq!(pallet.foreign_reserve_asset_instance_to_token_id(CollectionId(5), &second), None);
}

#[test]
fn nothing_is_checked_in_or_out() {
    let pallet = bridge();
    assert_eq!(pallet.can_check_in(&reserve(), &native(1)), Err(XcmError::Unimplemented));
    assert_eq!(pallet.can_check_out(&reserve(), &native(1)), Err(XcmError::Unimplemented));
    pallet.check_in(&reserve(), &native(1));
    pallet.check_out(&reserve(), &native(1));
    assert_eq!(*pallet.pallet_account(), BRIDGE);
    assert_eq!(pallet.self_location(), &own_location());
}

#[test]
fn each_failure_has_its_fixed_text() {
    assert_eq!(TransactFailure::FungibleDeposit.reason(), "fungible item deposit failed");
    assert_eq!(TransactFailure::NonFungibleDeposit.reason(), "non-fungible item deposit failed");
    assert_eq!(TransactFailure::FungibleWithdraw.reason(), "fungible item withdraw failed");
    assert_eq!(TransactFailure::NonFungibleWithdraw.reason(), "non-fungible item withdraw failed");
    assert_eq!(TransactFailure::FungibleTransfer.reason(), "fungible item transfer failed");
    assert_eq!(TransactFailure::NonFungibleTransfer.reason(), "non-fungible item transfer failed");
}
