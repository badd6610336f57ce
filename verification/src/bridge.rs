//! Deposit, withdrawal and transfer of assets.
//!
//! The tokens themselves live in collections that this crate does not own.
//! Each operation therefore runs in two steps. The first step decides, from
//! the asset, the accounts and what the dispatch of collections answered,
//! which single request is to be made to the collection, or why none is. The
//! caller makes that request. The second step takes what the collection
//! answered, enters a newly made token into the registry where there is one,
//! and gives the result of the operation. No step leaves anything half done:
//! a failure changes nothing.

use vstd::prelude::*;
use crate::asset::{Asset, AssetInstance, AssetView, Fungibility};
use crate::encoding::{asset_instance_encoding, encode_asset_instance};
use crate::error::{TransactFailure, XcmError};
use crate::ids::{CollectionId, TokenId};
use crate::locality::CollectionLocality;
use crate::location::Location;
use crate::pallet::{Pallet, PalletView};

verus! {

/// What the dispatch of collections answers for the collection of an asset.
#[derive(Clone, Copy, Debug, PartialEq, Eq, Structural)]
pub enum Dispatched {
    /// There is no such collection.
    NoCollection,
    /// The collection exists and does not take part in cross-chain transfers.
    NoExtensions,
    /// The collection exists and takes part in cross-chain transfers.
    Extensions,
}

/// The bytes of a text that holds only ASCII characters.
pub open spec fn ascii(text: Seq<char>) -> Seq<u8> {
    text.map_values(|c: char| c as u8)
}

/// The name of the collection property that holds the reserve location.
pub open spec fn reserve_location_key() -> Seq<u8> {
    ascii("reserve-location"@)
}

/// The name of the token property that holds the asset instance of a
/// derivative token.
pub open spec fn reserve_asset_instance_key() -> Seq<u8> {
    ascii("reserve-asset-instance"@)
}

/// What a property is: a key and a value, both bytes.
pub struct ItemPropertyView {
    pub key: Seq<u8>,
    pub value: Seq<u8>,
}

/// A property to set on a collection or on a token.
#[derive(Debug, PartialEq, Eq)]
pub struct ItemProperty {
    pub key: Vec<u8>,
    pub value: Vec<u8>,
}

impl View for ItemProperty {
    type V = ItemPropertyView;

    open spec fn view(&self) -> ItemPropertyView {
        ItemPropertyView { key: self.key@, value: self.value@ }
    }
}

/// What the description of a new item is.
pub enum ItemDataView {
    NFT { properties: Seq<ItemPropertyView> },
    Fungible { value: u128 },
}

/// What to make in a collection.
#[derive(Debug, PartialEq, Eq)]
pub enum ItemData {
    /// One token with the given properties.
    NFT { properties: Vec<ItemProperty> },
    /// The given number of units.
    Fungible { value: u128 },
}

impl View for ItemData {
    type V = ItemDataView;

    open spec fn view(&self) -> ItemDataView {
        match self {
            ItemData::NFT { properties } => ItemDataView::NFT {
                properties: properties@.map_values(|p: ItemProperty| p@),
            },
            ItemData::Fungible { value } => ItemDataView::Fungible { value: *value },
        }
    }
}

/// The description of the derivative token of an asset instance whose
/// encoding is `encoded`: a token whose one property holds that encoding.
pub open spec fn derivative_item(encoded: Seq<u8>) -> ItemDataView {
    ItemDataView::NFT {
        properties: seq![ItemPropertyView { key: reserve_asset_instance_key(), value: encoded }],
    }
}

/// What a request to a collection is.
pub enum ItemCallView<AccountId> {
    CreateItem { depositor: AccountId, to: AccountId, data: ItemDataView, nesting_budget: u32 },
    TransferItem {
        depositor: AccountId,
        from: AccountId,
        to: AccountId,
        token: TokenId,
        amount: u128,
        nesting_budget: u32,
    },
    BurnItem { from: AccountId, token: TokenId, amount: u128 },
}

/// A request to a collection. `nesting_budget` is the number of steps that
/// the collection may take through tokens that own tokens.
#[derive(Debug)]
pub enum ItemCall<'a, AccountId> {
    /// Make `data` for `to`, in the name of `depositor`.
    CreateItem {
        depositor: &'a AccountId,
        to: &'a AccountId,
        data: ItemData,
        nesting_budget: u32,
    },
    /// Move `amount` of `token` from `from` to `to`, in the name of
    /// `depositor`.
    TransferItem {
        depositor: &'a AccountId,
        from: &'a AccountId,
        to: &'a AccountId,
        token: TokenId,
        amount: u128,
        nesting_budget: u32,
    },
    /// Destroy `amount` of `token` of `from`.
    BurnItem { from: &'a AccountId, token: TokenId, amount: u128 },
}

impl<'a, AccountId> View for ItemCall<'a, AccountId> {
    type V = ItemCallView<AccountId>;

    open spec fn view(&self) -> ItemCallView<AccountId> {
        match self {
            ItemCall::CreateItem { depositor, to, data, nesting_budget } => ItemCallView::CreateItem {
                depositor: **depositor,
                to: **to,
                data: data@,
                nesting_budget: *nesting_budget,
            },
            ItemCall::TransferItem {
                depositor,
                from,
                to,
                token,
                amount,
                nesting_budget,
            } => ItemCallView::TransferItem {
                depositor: **depositor,
                from: **from,
                to: **to,
                token: *token,
                amount: *amount,
                nesting_budget: *nesting_budget,
            },
            ItemCall::BurnItem { from, token, amount } => ItemCallView::BurnItem {
                from: **from,
                token: *token,
                amount: *amount,
            },
        }
    }
}

/// What a step of an operation asks for.
pub struct TransactionView<AccountId> {
    pub call: ItemCallView<AccountId>,
    pub failure: TransactFailure,
    pub derivative: Option<(CollectionId, AssetInstance)>,
}

/// What the first step of an operation asks for: the request to make, the
/// failure to report where the collection rejects it, and, where the request
/// makes the derivative token of a foreign asset instance, the collection
/// and the instance under which the new token is to be entered.
#[derive(Debug)]
pub struct Transaction<'a, AccountId> {
    pub call: ItemCall<'a, AccountId>,
    pub failure: TransactFailure,
    pub derivative: Option<(CollectionId, AssetInstance)>,
}

impl<'a, AccountId> View for Transaction<'a, AccountId> {
    type V = TransactionView<AccountId>;

    open spec fn view(&self) -> TransactionView<AccountId> {
        TransactionView { call: self.call@, failure: self.failure, derivative: self.derivative }
    }
}

/// What a collection answered to a request.
#[derive(Clone, Copy, Debug, PartialEq, Eq, Structural)]
pub enum Outcome {
    /// The item was made, under this token.
    Created(TokenId),
    /// The transfer or the burn was made.
    Done,
    /// The collection rejected the request.
    Rejected,
}

/// Whether the first step `planned` gave what `expected` says.
pub open spec fn planned_as<AccountId>(
    planned: Result<Transaction<'_, AccountId>, XcmError>,
    expected: Result<TransactionView<AccountId>, XcmError>,
) -> bool {
    match planned {
        Ok(transaction) => expected == Ok::<TransactionView<AccountId>, XcmError>(transaction@),
        Err(error) => expected == Err::<TransactionView<AccountId>, XcmError>(error),
    }
}

impl<AccountId> PalletView<AccountId> {
    /// The request that makes the derivative token of `instance` in the
    /// foreign collection `collection`, for `to`.
    pub open spec fn create_foreign_asset_instance(
        self,
        collection: CollectionId,
        instance: AssetInstance,
        to: AccountId,
    ) -> TransactionView<AccountId> {
        TransactionView {
            call: ItemCallView::CreateItem {
                depositor: self.pallet_account,
                to,
                data: derivative_item(asset_instance_encoding(instance)),
                nesting_budget: 0,
            },
            failure: TransactFailure::NonFungibleDeposit,
            derivative: Some((collection, instance)),
        }
    }

    /// The deposit of one instance: the token that stands for it leaves
    /// custody; where there is none yet, a foreign instance gets its
    /// derivative token, and a local one is not found.
    pub open spec fn deposit_asset_instance(
        self,
        locality: CollectionLocality,
        instance: AssetInstance,
        to: AccountId,
    ) -> Result<TransactionView<AccountId>, XcmError> {
        match self.asset_instance_to_token_id(locality, instance) {
            Some(token) => Ok(
                TransactionView {
                    call: ItemCallView::TransferItem {
                        depositor: self.pallet_account,
                        from: self.pallet_account,
                        to,
                        token,
                        amount: 1,
                        nesting_budget: 0,
                    },
                    failure: TransactFailure::NonFungibleDeposit,
                    derivative: None,
                },
            ),
            None => match locality {
                CollectionLocality::Foreign(collection) => Ok(
                    self.create_foreign_asset_instance(collection, instance, to),
                ),
                CollectionLocality::Local(_) => Err(XcmError::AssetNotFound),
            },
        }
    }

    /// The withdrawal of one instance: the token that stands for it goes
    /// into custody; an instance without a token is not found.
    pub open spec fn withdraw_asset_instance(
        self,
        locality: CollectionLocality,
        instance: AssetInstance,
        from: AccountId,
    ) -> Result<TransactionView<AccountId>, XcmError> {
        match self.asset_instance_to_token_id(locality, instance) {
            Some(token) => Ok(
                TransactionView {
                    call: ItemCallView::TransferItem {
                        depositor: from,
                        from,
                        to: self.pallet_account,
                        token,
                        amount: 1,
                        nesting_budget: 0,
                    },
                    failure: TransactFailure::NonFungibleWithdraw,
                    derivative: None,
                },
            ),
            None => Err(XcmError::AssetNotFound),
        }
    }

    /// The first step of a deposit of `what` to the account `to`, which is
    /// `None` where the destination has no account.
    pub open spec fn deposit_asset(
        self,
        what: AssetView,
        to: Option<AccountId>,
        dispatched: Dispatched,
    ) -> Result<TransactionView<AccountId>, XcmError> {
        match to {
            None => Err(XcmError::AccountIdConversionFailed),
            Some(to) => match self.asset_to_collection(what.id) {
                Err(error) => Err(error),
                Ok(locality) => match dispatched {
                    Dispatched::NoCollection => Err(XcmError::AssetNotFound),
                    Dispatched::NoExtensions => Err(XcmError::Unimplemented),
                    Dispatched::Extensions => match what.fun {
                        Fungibility::Fungible(amount) => Ok(
                            TransactionView {
                                call: ItemCallView::CreateItem {
                                    depositor: self.pallet_account,
                                    to,
                                    data: ItemDataView::Fungible { value: amount },
                                    nesting_budget: 0,
                                },
                                failure: TransactFailure::FungibleDeposit,
                                derivative: None,
                            },
                        ),
                        Fungibility::NonFungible(instance) => self.deposit_asset_instance(
                            locality,
                            instance,
                            to,
                        ),
                    },
                },
            },
        }
    }

    /// The first step of a withdrawal of `what` from the account `from`,
    /// which is `None` where the source has no account.
    pub open spec fn withdraw_asset(
        self,
        what: AssetView,
        from: Option<AccountId>,
        dispatched: Dispatched,
    ) -> Result<TransactionView<AccountId>, XcmError> {
        match from {
            None => Err(XcmError::AccountIdConversionFailed),
            Some(from) => match self.asset_to_collection(what.id) {
                Err(error) => Err(error),
                Ok(locality) => match dispatched {
                    Dispatched::NoCollection => Err(XcmError::AssetNotFound),
                    Dispatched::NoExtensions => Err(XcmError::NoPermission),
                    Dispatched::Extensions => match what.fun {
                        Fungibility::Fungible(amount) => Ok(
                            TransactionView {
                                call: ItemCallView::BurnItem { from, token: TokenId(0), amount },
                                failure: TransactFailure::FungibleWithdraw,
                                derivative: None,
                            },
                        ),
                        Fungibility::NonFungible(instance) => self.withdraw_asset_instance(
                            locality,
                            instance,
                            from,
                        ),
                    },
                },
            },
        }
    }

    /// The first step of a transfer of `what` between two accounts of this
    /// chain, each `None` where its location has no account.
    pub open spec fn internal_transfer_asset(
        self,
        what: AssetView,
        from: Option<AccountId>,
        to: Option<AccountId>,
        dispatched: Dispatched,
    ) -> Result<TransactionView<AccountId>, XcmError> {
        if from is None || to is None {
            Err(XcmError::AccountIdConversionFailed)
        } else {
            match self.asset_to_collection(what.id) {
                Err(error) => Err(error),
                Ok(locality) => match dispatched {
                    Dispatched::NoCollection => Err(XcmError::AssetNotFound),
                    Dispatched::NoExtensions => Err(XcmError::NoPermission),
                    Dispatched::Extensions => match what.fun {
                        Fungibility::Fungible(amount) => Ok(
                            TransactionView {
                                call: ItemCallView::TransferItem {
                                    depositor: from->0,
                                    from: from->0,
                                    to: to->0,
                                    token: TokenId(0),
                                    amount,
                                    nesting_budget: 0,
                                },
                                failure: TransactFailure::FungibleTransfer,
                                derivative: None,
                            },
                        ),
                        Fungibility::NonFungible(instance) => match self.asset_instance_to_token_id(
                            locality,
                            instance,
                        ) {
                            Some(token) => Ok(
                                TransactionView {
                                    call: ItemCallView::TransferItem {
                                        depositor: from->0,
                                        from: from->0,
                                        to: to->0,
                                        token,
                                        amount: 1,
                                        nesting_budget: 0,
                                    },
                                    failure: TransactFailure::NonFungibleTransfer,
                                    derivative: None,
                                },
                            ),
                            None => Err(XcmError::AssetNotFound),
                        },
                    },
                },
            }
        }
    }

    /// Whether the second step of a deposit succeeds: the collection did not
    /// reject the request, and where a derivative token was to be made, the
    /// collection made one whose token and instance are both new to the
    /// registry.
    pub open spec fn deposit_settles(
        self,
        derivative: Option<(CollectionId, AssetInstance)>,
        outcome: Outcome,
    ) -> bool {
        match derivative {
            None => outcome != Outcome::Rejected,
            Some((collection, instance)) => outcome matches Outcome::Created(token)
                && self.registry.can_index(collection, instance, token),
        }
    }
}

/// The key of the collection property that holds the reserve location.
pub fn reserve_location_property_key() -> (key: Vec<u8>)
    ensures
        key@ == reserve_location_key(),
{
    let key: Vec<u8> = vec![
        0x72u8,
        0x65u8,
        0x73u8,
        0x65u8,
        0x72u8,
        0x76u8,
        0x65u8,
        0x2du8,
        0x6cu8,
        0x6fu8,
        0x63u8,
        0x61u8,
        0x74u8,
        0x69u8,
        0x6fu8,
        0x6eu8,
    ];
    proof {
        reveal_strlit("reserve-location");
        assert(key@ =~= reserve_location_key());
    }
    key
}

/// The key of the token property that holds the asset instance.
pub fn reserve_asset_instance_property_key() -> (key: Vec<u8>)
    ensures
        key@ == reserve_asset_instance_key(),
{
    let key: Vec<u8> = vec![
        0x72u8,
        0x65u8,
        0x73u8,
        0x65u8,
        0x72u8,
        0x76u8,
        0x65u8,
        0x2du8,
        0x61u8,
        0x73u8,
        0x73u8,
        0x65u8,
        0x74u8,
        0x2du8,
        0x69u8,
        0x6eu8,
        0x73u8,
        0x74u8,
        0x61u8,
        0x6eu8,
        0x63u8,
        0x65u8,
    ];
    proof {
        reveal_strlit("reserve-asset-instance");
        assert(key@ =~= reserve_asset_instance_key());
    }
    key
}

/// The description of the derivative token of an asset instance, from the
/// encoding of the instance.
pub fn derivative_item_data(encoded_instance: Vec<u8>) -> (data: ItemData)
    ensures
        data@ == derivative_item(encoded_instance@),
{
    let property = ItemProperty {
        key: reserve_asset_instance_property_key(),
        value: encoded_instance,
    };
    let properties: Vec<ItemProperty> = vec![property];
    let data = ItemData::NFT { properties };
    assert(data@->NFT_properties =~= derivative_item(encoded_instance@)->NFT_properties);
    data
}

impl<AccountId> Pallet<AccountId> {
    /// The request that makes the derivative token of `asset_instance` in
    /// the foreign collection `collection_id`, for `to`. The token carries
    /// the encoding of the instance as a property.
    pub fn create_foreign_asset_instance<'a>(
        &'a self,
        collection_id: CollectionId,
        asset_instance: &AssetInstance,
        to: &'a AccountId,
    ) -> (transaction: Transaction<'a, AccountId>)
        ensures
            transaction@ == self@.create_foreign_asset_instance(
                collection_id,
                *asset_instance,
                *to,
            ),
    {
        let encoded = encode_asset_instance(asset_instance);
        Transaction {
            call: ItemCall::CreateItem {
                depositor: self.pallet_account(),
                to,
                data: derivative_item_data(encoded),
                nesting_budget: 0,
            },
            failure: TransactFailure::NonFungibleDeposit,
            derivative: Some((collection_id, *asset_instance)),
        }
    }

    /// The first step of the deposit of one instance to the account `to`:
    /// a transfer out of custody, or the making of a derivative token.
    pub fn deposit_asset_instance<'a>(
        &'a self,
        collection_locality: CollectionLocality,
        asset_instance: &AssetInstance,
        to: &'a AccountId,
    ) -> (planned: Result<Transaction<'a, AccountId>, XcmError>)
        requires
            self.wf(),
        ensures
            planned_as(
                planned,
                self@.deposit_asset_instance(collection_locality, *asset_instance, *to),
            ),
    {
        match self.asset_instance_to_token_id(collection_locality, asset_instance) {
            Some(token) => Ok(
                Transaction {
                    call: ItemCall::TransferItem {
                        depositor: self.pallet_account(),
                        from: self.pallet_account(),
                        to,
                        token,
                        amount: 1,
                        nesting_budget: 0,
                    },
                    failure: TransactFailure::NonFungibleDeposit,
                    derivative: None,
                },
            ),
            None => match collection_locality {
                CollectionLocality::Foreign(collection) => Ok(
                    self.create_foreign_asset_instance(collection, asset_instance, to),
                ),
                CollectionLocality::Local(_) => Err(XcmError::AssetNotFound),
            },
        }
    }

    /// The first step of the withdrawal of one instance from the account
    /// `from`: a transfer into custody.
    pub fn withdraw_asset_instance<'a>(
        &'a self,
        collection_locality: CollectionLocality,
        asset_instance: &AssetInstance,
        from: &'a AccountId,
    ) -> (planned: Result<Transaction<'a, AccountId>, XcmError>)
        requires
            self.wf(),
        ensures
            planned_as(
                planned,
                self@.withdraw_asset_instance(collection_locality, *asset_instance, *from),
            ),
    {
        match self.asset_instance_to_token_id(collection_locality, asset_instance) {
            Some(token) => Ok(
                Transaction {
                    call: ItemCall::TransferItem {
                        depositor: from,
                        from,
                        to: self.pallet_account(),
                        token,
                        amount: 1,
                        nesting_budget: 0,
                    },
                    failure: TransactFailure::NonFungibleWithdraw,
                    derivative: None,
                },
            ),
            None => Err(XcmError::AssetNotFound),
        }
    }

    /// The first step of a deposit. `to` is the account of the destination,
    /// `None` where it has none. `dispatched` is what the dispatch of
    /// collections answers for the collection that `asset_to_collection`
    /// gives for `what.id`; it is not read where that fails.
    pub fn deposit_asset<'a>(
        &'a self,
        what: &Asset,
        to: Option<&'a AccountId>,
        dispatched: Dispatched,
    ) -> (planned: Result<Transaction<'a, AccountId>, XcmError>)
        requires
            self.wf(),
        ensures
            planned_as(
                planned,
                self@.deposit_asset(
                    what@,
                    match to {
                        Some(account) => Some(*account),
                        None => None,
                    },
                    dispatched,
                ),
            ),
    {
        let to = match to {
            Some(account) => account,
            None => {
                return Err(XcmError::AccountIdConversionFailed);
            },
        };
        let collection_locality = match self.asset_to_collection(&what.id) {
            Ok(locality) => locality,
            Err(error) => {
                return Err(error);
            },
        };
        match dispatched {
            Dispatched::NoCollection => {
                return Err(XcmError::AssetNotFound);
            },
            Dispatched::NoExtensions => {
                return Err(XcmError::Unimplemented);
            },
            Dispatched::Extensions => {},
        }
        match what.fun {
            Fungibility::Fungible(amount) => Ok(
                Transaction {
                    call: ItemCall::CreateItem {
                        depositor: self.pallet_account(),
                        to,
                        data: ItemData::Fungible { value: amount },
                        nesting_budget: 0,
                    },
                    failure: TransactFailure::FungibleDeposit,
                    derivative: None,
                },
            ),
            Fungibility::NonFungible(asset_instance) => self.deposit_asset_instance(
                collection_locality,
                &asset_instance,
                to,
            ),
        }
    }

    /// The first step of a withdrawal. `from` is the account of the source,
    /// `None` where it has none; `dispatched` is as for a deposit.
    pub fn withdraw_asset<'a>(
        &'a self,
        what: &Asset,
        from: Option<&'a AccountId>,
        dispatched: Dispatched,
    ) -> (planned: Result<Transaction<'a, AccountId>, XcmError>)
        requires
            self.wf(),
        ensures
            planned_as(
                planned,
                self@.withdraw_asset(
                    what@,
                    match from {
                        Some(account) => Some(*account),
                        None => None,
                    },
                    dispatched,
                ),
            ),
    {
        let from = match from {
            Some(account) => account,
            None => {
                return Err(XcmError::AccountIdConversionFailed);
            },
        };
        let collection_locality = match self.asset_to_collection(&what.id) {
            Ok(locality) => locality,
            Err(error) => {
                return Err(error);
            },
        };
        match dispatched {
            Dispatched::NoCollection => {
                return Err(XcmError::AssetNotFound);
            },
            Dispatched::NoExtensions => {
                return Err(XcmError::NoPermission);
            },
            Dispatched::Extensions => {},
        }
        match what.fun {
            Fungibility::Fungible(amount) => Ok(
                Transaction {
                    call: ItemCall::BurnItem { from, token: TokenId(0), amount },
                    failure: TransactFailure::FungibleWithdraw,
                    derivative: None,
                },
            ),
            Fungibility::NonFungible(asset_instance) => self.withdraw_asset_instance(
                collection_locality,
                &asset_instance,
                from,
            ),
        }
    }

    /// The first step of a transfer between two accounts of this chain.
    /// Nothing is made or destroyed on this path.
    pub fn internal_transfer_asset<'a>(
        &'a self,
        what: &Asset,
        from: Option<&'a AccountId>,
        to: Option<&'a AccountId>,
        dispatched: Dispatched,
    ) -> (planned: Result<Transaction<'a, AccountId>, XcmError>)
        requires
            self.wf(),
        ensures
            planned_as(
                planned,
                self@.internal_transfer_asset(
                    what@,
                    match from {
                        Some(account) => Some(*account),
                        None => None,
                    },
                    match to {
                        Some(account) => Some(*account),
                        None => None,
                    },
                    dispatched,
                ),
            ),
    {
        let from = match from {
            Some(account) => account,
            None => {
                return Err(XcmError::AccountIdConversionFailed);
            },
        };
        let to = match to {
            Some(account) => account,
            None => {
                return Err(XcmError::AccountIdConversionFailed);
            },
        };
        let collection_locality = match self.asset_to_collection(&what.id) {
            Ok(locality) => locality,
            Err(error) => {
                return Err(error);
            },
        };
        match dispatched {
            Dispatched::NoCollection => {
                return Err(XcmError::AssetNotFound);
            },
            Dispatched::NoExtensions => {
                return Err(XcmError::NoPermission);
            },
            Dispatched::Extensions => {},
        }
        let token;
        let amount;
        let failure;
        match what.fun {
            Fungibility::Fungible(fungible_amount) => {
                token = TokenId(0);
                amount = fungible_amount;
                failure = TransactFailure::FungibleTransfer;
            },
            Fungibility::NonFungible(asset_instance) => {
                token =
                match self.asset_instance_to_token_id(collection_locality, &asset_instance) {
                    Some(token) => token,
                    None => {
                        return Err(XcmError::AssetNotFound);
                    },
                };
                amount = 1;
                failure = TransactFailure::NonFungibleTransfer;
            },
        }
        Ok(
            Transaction {
                call: ItemCall::TransferItem {
                    depositor: from,
                    from,
                    to,
                    token,
                    amount,
                    nesting_budget: 0,
                },
                failure,
                derivative: None,
            },
        )
    }

    /// The second step of a deposit: `failure` and `derivative` are those of
    /// the first step, `outcome` is what the collection answered. Where a
    /// derivative token was made, it is entered into the registry under its
    /// instance. The deposit fails, and the registry stays as it was, where
    /// the collection rejected the request, and where the token that was to
    /// be entered is missing or not new.
    pub fn complete_deposit(
        &mut self,
        failure: TransactFailure,
        derivative: Option<(CollectionId, AssetInstance)>,
        outcome: Outcome,
    ) -> (done: Result<(), XcmError>)
        requires
            old(self).wf(),
        ensures
            final(self).wf(),
            final(self)@.pallet_account == old(self)@.pallet_account,
            final(self)@.self_location == old(self)@.self_location,
            old(self)@.deposit_settles(derivative, outcome) ==> done == Ok::<(), XcmError>(()),
            !old(self)@.deposit_settles(derivative, outcome) ==> done == Err::<(), XcmError>(
                XcmError::FailedToTransactAsset(failure),
            ),
            final(self)@.registry == (match (done, derivative, outcome) {
                (Ok(_), Some((collection, instance)), Outcome::Created(token)) => old(
                    self,
                )@.registry.index_instance(collection, instance, token),
                _ => old(self)@.registry,
            }),
    {
        match derivative {
            None => match outcome {
                Outcome::Rejected => Err(XcmError::FailedToTransactAsset(failure)),
                _ => Ok(()),
            },
            Some((collection, instance)) => match outcome {
                Outcome::Created(token) => {
                    if self.index_instance(collection, instance, token) {
                        Ok(())
                    } else {
                        Err(XcmError::FailedToTransactAsset(failure))
                    }
                },
                _ => Err(XcmError::FailedToTransactAsset(failure)),
            },
        }
    }

    /// The second step of a withdrawal or of a transfer: `failure` is that
    /// of the first step, `outcome` is what the collection answered. Where
    /// the collection did not reject the request, the asset itself is
    /// handed back as the confirmation.
    pub fn complete_transfer(what: &Asset, failure: TransactFailure, outcome: Outcome) -> (done:
        Result<Asset, XcmError>)
        ensures
            match done {
                Ok(asset) => outcome != Outcome::Rejected && asset@ == what@,
                Err(error) => outcome == Outcome::Rejected && error
                    == XcmError::FailedToTransactAsset(failure),
            },
    {
        match outcome {
            Outcome::Rejected => Err(XcmError::FailedToTransactAsset(failure)),
            _ => Ok(what.clone()),
        }
    }

    /// Assets are never checked in: the bridge holds reserves and
    /// derivatives, it does not teleport.
    pub fn can_check_in(&self, _origin: &Location, _what: &Asset) -> (allowed: Result<(), XcmError>)
        ensures
            allowed == Err::<(), XcmError>(XcmError::Unimplemented),
    {
        Err(XcmError::Unimplemented)
    }

    /// Does nothing.
    pub fn check_in(&self, _origin: &Location, _what: &Asset) {
    }

    /// Assets are never checked out.
    pub fn can_check_out(&self, _dest: &Location, _what: &Asset) -> (allowed: Result<(), XcmError>)
        ensures
            allowed == Err::<(), XcmError>(XcmError::Unimplemented),
    {
        Err(XcmError::Unimplemented)
    }

    /// Does nothing.
    pub fn check_out(&self, _dest: &Location, _what: &Asset) {
    }
}

} // verus!
