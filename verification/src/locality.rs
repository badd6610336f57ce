//! Whether the collection behind an asset is local or foreign.

use vstd::prelude::*;
use crate::ids::CollectionId;

verus! {

/// The collection that an asset resolves to. A local collection has its
/// reserve on this chain, a foreign one is bound to a reserve location
/// elsewhere. This governs how an asset instance is turned into a token.
#[derive(Clone, Copy, Debug, PartialEq, Eq, Structural)]
pub enum CollectionLocality {
    Local(CollectionId),
    Foreign(CollectionId),
}

impl CollectionLocality {
    /// The collection, whichever side its reserve is on.
    pub open spec fn collection(self) -> CollectionId {
        match self {
            CollectionLocality::Local(id) => id,
            CollectionLocality::Foreign(id) => id,
        }
    }
}

impl core::ops::Deref for CollectionLocality {
    type Target = CollectionId;

    fn deref(&self) -> (id: &CollectionId)
        ensures
            *id == self.collection(),
    {
        match self {
            CollectionLocality::Local(id) => id,
            CollectionLocality::Foreign(id) => id,
        }
    }
}

} // verus!
