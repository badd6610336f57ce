//! Assets as the cross-chain protocol names them.

use vstd::prelude::*;
use crate::location::{bytes_equal, Location, LocationView};

verus! {

/// An identifier of one instance of a non-fungible asset class.
#[derive(Clone, Copy, Debug, PartialEq, Eq)]
pub enum AssetInstance {
    /// Used where the class has only one instance.
    Undefined,
    /// A plain index.
    Index(u128),
    /// A 4-byte datum.
    Array4([u8; 4]),
    /// An 8-byte datum.
    Array8([u8; 8]),
    /// A 16-byte datum.
    Array16([u8; 16]),
    /// A 32-byte datum.
    Array32([u8; 32]),
}

impl AssetInstance {
    /// Whether both are the same variant with the same contents.
    pub fn equals(&self, other: &AssetInstance) -> (same: bool)
        ensures
            same == (*self == *other),
    {
        match (self, other) {
            (AssetInstance::Undefined, AssetInstance::Undefined) => true,
            (AssetInstance::Index(a), AssetInstance::Index(b)) => *a == *b,
            (AssetInstance::Array4(a), AssetInstance::Array4(b)) => bytes_equal(a, b),
            (AssetInstance::Array8(a), AssetInstance::Array8(b)) => bytes_equal(a, b),
            (AssetInstance::Array16(a), AssetInstance::Array16(b)) => bytes_equal(a, b),
            (AssetInstance::Array32(a), AssetInstance::Array32(b)) => bytes_equal(a, b),
            _ => false,
        }
    }
}

/// What an asset identifier is.
pub enum AssetIdView {
    Concrete(LocationView),
    Abstract([u8; 32]),
}

/// The class of an asset.
#[derive(Debug, PartialEq, Eq)]
pub enum AssetId {
    /// The asset is identified by the location of its reserve.
    Concrete(Location),
    /// The asset is identified by a name without a fixed meaning.
    Abstract([u8; 32]),
}

impl View for AssetId {
    type V = AssetIdView;

    open spec fn view(&self) -> AssetIdView {
        match self {
            AssetId::Concrete(location) => AssetIdView::Concrete(location@),
            AssetId::Abstract(name) => AssetIdView::Abstract(*name),
        }
    }
}

impl Clone for AssetId {
    fn clone(&self) -> (copy: AssetId)
        ensures
            copy@ == self@,
    {
        match self {
            AssetId::Concrete(location) => AssetId::Concrete(location.clone()),
            AssetId::Abstract(name) => AssetId::Abstract(*name),
        }
    }
}

/// How much of an asset class, or which instance of it.
#[derive(Clone, Copy, Debug, PartialEq, Eq)]
pub enum Fungibility {
    /// A number of units of a fungible asset.
    Fungible(u128),
    /// One instance of a non-fungible asset.
    NonFungible(AssetInstance),
}

/// What an asset is.
pub struct AssetView {
    pub id: AssetIdView,
    pub fun: Fungibility,
}

/// An asset: its class, and the amount or the instance.
#[derive(Debug, PartialEq, Eq)]
pub struct Asset {
    pub id: AssetId,
    pub fun: Fungibility,
}

impl View for Asset {
    type V = AssetView;

    open spec fn view(&self) -> AssetView {
        AssetView { id: self.id@, fun: self.fun }
    }
}

impl Clone for Asset {
    fn clone(&self) -> (copy: Asset)
        ensures
            copy@ == self@,
    {
        Asset { id: self.id.clone(), fun: self.fun }
    }
}

} // verus!
