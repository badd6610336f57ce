//! Byte strings and maps of bounded size.
//!
//! The types are those of the `bounded_collections` crate. Their contents
//! cannot be seen from here, so each gets a name for what it holds, and the
//! functions below say in terms of these names what the crate's own
//! operations do. None of these statements is proved.

use vstd::prelude::*;
use bounded_collections::{BoundedBTreeMap, BoundedBTreeSet, BoundedVec, ConstU32};

verus! {

/// Maximal length of a property key.
pub const MAX_PROPERTY_KEY_LENGTH: u32 = 256;

/// Maximal length of a property value.
pub const MAX_PROPERTY_VALUE_LENGTH: u32 = 32768;

/// Maximal number of properties of one item.
pub const MAX_PROPERTIES_PER_ITEM: u32 = 64;

/// `bounded_collections::BoundedVec`: a vector that is never longer than
/// its bound.
#[verifier::external_type_specification]
#[verifier::external_body]
#[verifier::reject_recursive_types(T)]
#[verifier::reject_recursive_types(S)]
pub struct ExBoundedVec<T, S>(BoundedVec<T, S>);

/// `bounded_collections::ConstU32`: a bound, as a type.
#[verifier::external_type_specification]
#[verifier::external_body]
pub struct ExConstU32<const N: u32>(ConstU32<N>);

/// `bounded_collections::BoundedBTreeMap`: an ordered map that never has
/// more entries than its bound.
#[verifier::external_type_specification]
#[verifier::external_body]
#[verifier::reject_recursive_types(K)]
#[verifier::reject_recursive_types(V)]
#[verifier::reject_recursive_types(S)]
pub struct ExBoundedBTreeMap<K, V, S>(BoundedBTreeMap<K, V, S>);

/// A property key: at most `MAX_PROPERTY_KEY_LENGTH` bytes.
pub type PropertyKey = BoundedVec<u8, ConstU32<256>>;

/// A property value: at most `MAX_PROPERTY_VALUE_LENGTH` bytes.
pub type PropertyValue = BoundedVec<u8, ConstU32<32768>>;

/// A map from property keys to property values with at most
/// `MAX_PROPERTIES_PER_ITEM` entries.
pub type PropertyTable = BoundedBTreeMap<PropertyKey, PropertyValue, ConstU32<64>>;

/// The bytes of a property key.
pub uninterp spec fn key_bytes(key: PropertyKey) -> Seq<u8>;

/// The bytes of a property value.
pub uninterp spec fn value_bytes(value: PropertyValue) -> Seq<u8>;

/// The entries of a property table: the bytes of each value under the bytes
/// of its key.
pub uninterp spec fn table_entries(table: PropertyTable) -> Map<Seq<u8>, Seq<u8>>;

/// `BoundedVec::try_from` on a `Vec`: the vector is taken as it is where it
/// is no longer than the bound, and refused where it is longer.
#[verifier::external_body]
pub(crate) fn key_from_vec(bytes: Vec<u8>) -> (made: Option<PropertyKey>)
    ensures
        bytes@.len() <= MAX_PROPERTY_KEY_LENGTH ==> made is Some && key_bytes(made->0) == bytes@,
        bytes@.len() > MAX_PROPERTY_KEY_LENGTH ==> made is None,
{
    BoundedVec::try_from(bytes).ok()
}

/// `Vec::as_slice` through `BoundedVec::deref`: the bytes of the key, which
/// are never more than the bound.
#[verifier::external_body]
pub(crate) fn key_as_slice(key: &PropertyKey) -> (bytes: &[u8])
    ensures
        bytes@ == key_bytes(*key),
        bytes@.len() <= MAX_PROPERTY_KEY_LENGTH,
{
    key.as_slice()
}

/// `Vec::as_slice` through `BoundedVec::deref`: the bytes of the value,
/// which are never more than the bound.
#[verifier::external_body]
pub(crate) fn value_as_slice(value: &PropertyValue) -> (bytes: &[u8])
    ensures
        bytes@ == value_bytes(*value),
        bytes@.len() <= MAX_PROPERTY_VALUE_LENGTH,
{
    value.as_slice()
}

/// `BoundedBTreeMap::new`: a table without entries.
#[verifier::external_body]
pub(crate) fn table_new() -> (table: PropertyTable)
    ensures
        table_entries(table) == (Map::<Seq<u8>, Seq<u8>>::empty()),
{
    BoundedBTreeMap::new()
}

/// `BoundedBTreeMap::try_insert`: where the table has room, or holds the key
/// already, the value is entered under the key and the value that was there
/// before is handed back. Else nothing changes and the key and the value
/// come back.
#[verifier::external_body]
pub(crate) fn table_try_insert(table: &mut PropertyTable, key: PropertyKey, value: PropertyValue)
    -> (done: Result<Option<PropertyValue>, (PropertyKey, PropertyValue)>)
    ensures
        table_entries(*final(table)).dom().finite(),
        match done {
            Ok(previous) => {
                &&& table_entries(*old(table)).dom().len() < MAX_PROPERTIES_PER_ITEM
                    || table_entries(*old(table)).dom().contains(key_bytes(key))
                &&& table_entries(*final(table)) == table_entries(*old(table)).insert(
                    key_bytes(key),
                    value_bytes(value),
                )
                &&& match previous {
                    Some(before) => table_entries(*old(table)).dom().contains(key_bytes(key))
                        && value_bytes(before) == table_entries(*old(table))[key_bytes(key)],
                    None => !table_entries(*old(table)).dom().contains(key_bytes(key)),
                }
            },
            Err(refused) => {
                &&& table_entries(*old(table)).dom().len() >= MAX_PROPERTIES_PER_ITEM
                &&& !table_entries(*old(table)).dom().contains(key_bytes(key))
                &&& table_entries(*final(table)) == table_entries(*old(table))
                &&& refused == (key, value)
            },
        },
{
    table.try_insert(key, value)
}

/// `BoundedBTreeMap::remove`: the entry of the key leaves the table, and its
/// value is handed back, where there is one.
#[verifier::external_body]
pub(crate) fn table_remove(table: &mut PropertyTable, key: &PropertyKey) -> (removed: Option<
    PropertyValue,
>)
    ensures
        table_entries(*final(table)).dom().finite(),
        table_entries(*final(table)) == table_entries(*old(table)).remove(key_bytes(*key)),
        match removed {
            Some(value) => table_entries(*old(table)).dom().contains(key_bytes(*key))
                && value_bytes(value) == table_entries(*old(table))[key_bytes(*key)],
            None => !table_entries(*old(table)).dom().contains(key_bytes(*key)),
        },
{
    table.remove(key)
}

/// `BTreeMap::get` through `BoundedBTreeMap::deref`: the value under the
/// key, where there is one.
#[verifier::external_body]
pub(crate) fn table_get<'a>(table: &'a PropertyTable, key: &PropertyKey) -> (found: Option<
    &'a PropertyValue,
>)
    ensures
        match found {
            Some(value) => table_entries(*table).dom().contains(key_bytes(*key)) && value_bytes(
                *value,
            ) == table_entries(*table)[key_bytes(*key)],
            None => !table_entries(*table).dom().contains(key_bytes(*key)),
        },
{
    table.get(key)
}

/// `BTreeMap::contains_key` through `BoundedBTreeMap::deref`: whether the
/// table has an entry under the key.
#[verifier::external_body]
pub(crate) fn table_contains_key(table: &PropertyTable, key: &PropertyKey) -> (found: bool)
    ensures
        found == table_entries(*table).dom().contains(key_bytes(*key)),
{
    table.contains_key(key)
}

/// The entries of a property table in the order in which the table hands
/// them out: the bytes of each key with the bytes of its value.
pub uninterp spec fn table_sequence(table: PropertyTable) -> Seq<(Seq<u8>, Seq<u8>)>;

/// Whether `pairs` lists the entries of `entries`, each once, within the
/// bounds of a property table.
pub open spec fn lists_entries(pairs: Seq<(Seq<u8>, Seq<u8>)>, entries: Map<Seq<u8>, Seq<u8>>)
    -> bool {
    &&& pairs.len() == entries.dom().len()
    &&& pairs.len() <= MAX_PROPERTIES_PER_ITEM
    &&& forall|i: int|
        0 <= i < pairs.len() ==> entries.dom().contains((#[trigger] pairs[i]).0) && entries[pairs[i].0]
            == pairs[i].1 && pairs[i].0.len() <= MAX_PROPERTY_KEY_LENGTH && pairs[i].1.len()
            <= MAX_PROPERTY_VALUE_LENGTH
    &&& forall|i: int, j: int|
        0 <= i < j < pairs.len() ==> (#[trigger] pairs[i]).0 != (#[trigger] pairs[j]).0
}

/// The bytes of each key and of each value of `pairs`.
pub open spec fn pair_bytes(pairs: Seq<(Vec<u8>, Vec<u8>)>) -> Seq<(Seq<u8>, Seq<u8>)> {
    pairs.map_values(|pair: (Vec<u8>, Vec<u8>)| (pair.0@, pair.1@))
}

/// `BTreeMap::iter` through `BoundedBTreeMap::deref`, with each key and each
/// value copied into a `Vec`: the entries of the table, each once, in the
/// table's own order.
#[verifier::external_body]
pub(crate) fn table_pairs(table: &PropertyTable) -> (pairs: Vec<(Vec<u8>, Vec<u8>)>)
    ensures
        pair_bytes(pairs@) == table_sequence(*table),
        lists_entries(pair_bytes(pairs@), table_entries(*table)),
{
    table.iter().map(|(key, value)| (key.to_vec(), value.to_vec())).collect()
}

/// The most collections that a set of collections can name.
pub const MAX_RESTRICTED_COLLECTIONS: u32 = 16;

/// `bounded_collections::BoundedBTreeSet`: an ordered set that never has
/// more members than its bound.
#[verifier::external_type_specification]
#[verifier::external_body]
#[verifier::reject_recursive_types(T)]
#[verifier::reject_recursive_types(S)]
pub struct ExBoundedBTreeSet<T, S>(BoundedBTreeSet<T, S>);

/// A set of at most `MAX_RESTRICTED_COLLECTIONS` collections, each by its
/// number.
pub type CollectionSet = BoundedBTreeSet<u32, ConstU32<16>>;

/// The numbers that a set of collections holds.
pub uninterp spec fn set_members(set: CollectionSet) -> Set<u32>;

/// `BoundedBTreeSet::new`: a set without members.
#[verifier::external_body]
pub(crate) fn set_new() -> (set: CollectionSet)
    ensures
        set_members(set) == Set::<u32>::empty(),
        set_members(set).finite(),
{
    BoundedBTreeSet::new()
}

/// `BoundedBTreeSet::clone`: a set with the same members.
#[verifier::external_body]
pub(crate) fn set_clone(set: &CollectionSet) -> (copy: CollectionSet)
    ensures
        set_members(copy) == set_members(*set),
{
    set.clone()
}

/// `BoundedBTreeSet::try_insert`: where the set has room, or holds the item
/// already, the item is a member afterwards, and the result says whether it
/// is a new one. Else nothing changes and the item comes back.
#[verifier::external_body]
pub(crate) fn set_try_insert(set: &mut CollectionSet, item: u32) -> (done: Result<bool, u32>)
    ensures
        set_members(*final(set)).finite(),
        match done {
            Ok(added) => {
                &&& set_members(*old(set)).len() < MAX_RESTRICTED_COLLECTIONS || set_members(
                    *old(set),
                ).contains(item)
                &&& set_members(*final(set)) == set_members(*old(set)).insert(item)
                &&& added == !set_members(*old(set)).contains(item)
            },
            Err(refused) => {
                &&& set_members(*old(set)).len() >= MAX_RESTRICTED_COLLECTIONS
                &&& !set_members(*old(set)).contains(item)
                &&& set_members(*final(set)) == set_members(*old(set))
                &&& refused == item
            },
        },
{
    set.try_insert(item)
}

/// `BTreeSet::contains` through `BoundedBTreeSet::deref`: whether the item
/// is a member.
#[verifier::external_body]
pub(crate) fn set_contains(set: &CollectionSet, item: u32) -> (found: bool)
    ensures
        found == set_members(*set).contains(item),
{
    set.contains(&item)
}

} // verus!
