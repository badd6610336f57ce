//! The failures that the operations of this crate report.

use vstd::prelude::*;

verus! {

/// Why registering a foreign asset was refused.
#[derive(Clone, Copy, Debug, PartialEq, Eq, Structural)]
pub enum Error {
    /// The foreign asset is already registered.
    ForeignAssetAlreadyRegistered,
}

/// Which request to a collection was rejected by the collection itself.
#[derive(Clone, Copy, Debug, PartialEq, Eq, Structural)]
pub enum TransactFailure {
    FungibleDeposit,
    NonFungibleDeposit,
    FungibleWithdraw,
    NonFungibleWithdraw,
    FungibleTransfer,
    NonFungibleTransfer,
}

impl TransactFailure {
    /// The fixed text that names the failure.
    pub fn reason(&self) -> (text: &'static str)
        ensures
            text@ == self.reason_text(),
    {
        match self {
            TransactFailure::FungibleDeposit => "fungible item deposit failed",
            TransactFailure::NonFungibleDeposit => "non-fungible item deposit failed",
            TransactFailure::FungibleWithdraw => "fungible item withdraw failed",
            TransactFailure::NonFungibleWithdraw => "non-fungible item withdraw failed",
            TransactFailure::FungibleTransfer => "fungible item transfer failed",
            TransactFailure::NonFungibleTransfer => "non-fungible item transfer failed",
        }
    }

    /// The text of each failure.
    pub open spec fn reason_text(&self) -> Seq<char> {
        match self {
            TransactFailure::FungibleDeposit => "fungible item deposit failed"@,
            TransactFailure::NonFungibleDeposit => "non-fungible item deposit failed"@,
            TransactFailure::FungibleWithdraw => "fungible item withdraw failed"@,
            TransactFailure::NonFungibleWithdraw => "non-fungible item withdraw failed"@,
            TransactFailure::FungibleTransfer => "fungible item transfer failed"@,
            TransactFailure::NonFungibleTransfer => "non-fungible item transfer failed"@,
        }
    }
}

/// Why an asset could not be deposited, withdrawn or transferred.
#[derive(Clone, Copy, Debug, PartialEq, Eq, Structural)]
pub enum XcmError {
    /// The asset is not identified by a location.
    AssetNotHandled,
    /// The asset's location names neither a foreign nor a local collection.
    AssetIdConversionFailed,
    /// A location has no account on this chain.
    AccountIdConversionFailed,
    /// The collection or the item that the asset names does not exist.
    AssetNotFound,
    /// The collection does not take part in cross-chain transfers.
    NoPermission,
    /// The operation is not offered.
    Unimplemented,
    /// The collection rejected the request.
    FailedToTransactAsset(TransactFailure),
}

} // verus!
