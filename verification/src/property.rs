//! Properties of collections and tokens: who may change them, and how their
//! keys are scoped.

use vstd::prelude::*;
use crate::bounded::{
    key_as_slice,
    key_bytes,
    key_from_vec,
    lists_entries,
    pair_bytes,
    table_contains_key,
    table_entries,
    table_get,
    table_new,
    table_pairs,
    table_remove,
    table_sequence,
    table_try_insert,
    value_as_slice,
    value_bytes,
    PropertyKey,
    PropertyTable,
    PropertyValue,
    MAX_PROPERTIES_PER_ITEM,
    MAX_PROPERTY_KEY_LENGTH,
};
use crate::encoding::{compact_encoded_size, compact_len};

verus! {

/// Maximum size of all properties of a collection.
pub const MAX_COLLECTION_PROPERTIES_SIZE: u32 = 40960;

/// Maximum size of all properties of a token.
pub const MAX_TOKEN_PROPERTIES_SIZE: u32 = 32768;

/// Who may change a property.
#[derive(Clone, Copy, Debug, PartialEq, Eq, Structural)]
pub struct PropertyPermission {
    /// Whether the property and this permission can be changed at all. Where
    /// it is `false`, nobody can change the property.
    pub mutable: bool,
    /// Whether the administrators of the collection can change the property.
    pub collection_admin: bool,
    /// Whether the owner of the token can change the property.
    pub token_owner: bool,
}

impl Default for PropertyPermission {
    fn default() -> (permission: PropertyPermission)
        ensures
            permission == (PropertyPermission {
                mutable: false,
                collection_admin: false,
                token_owner: false,
            }),
    {
        PropertyPermission { mutable: false, collection_admin: false, token_owner: false }
    }
}

impl PropertyPermission {
    /// A permission that can be changed later and that for now lets neither
    /// the administrators nor the token owner change the property.
    pub fn none() -> (permission: PropertyPermission)
        ensures
            permission == (PropertyPermission {
                mutable: true,
                collection_admin: false,
                token_owner: false,
            }),
    {
        PropertyPermission { mutable: true, collection_admin: false, token_owner: false }
    }
}

/// Why a property could not be set or removed.
#[derive(Clone, Copy, Debug, PartialEq, Eq, Structural)]
pub enum PropertiesError {
    /// The space allocated for properties has run out.
    NoSpaceForProperty,
    /// The number of properties has reached its limit.
    PropertyLimitReached,
    /// The property key contains a character that is not allowed.
    InvalidCharacterInPropertyKey,
    /// The property key is too long.
    PropertyKeyIsTooLong,
    /// The property key is empty.
    EmptyPropertyKey,
}

/// The scope of a property. A scoped property cannot be changed by users.
#[derive(Clone, Copy, Debug, PartialEq, Eq, Structural)]
pub enum PropertyScope {
    Unscoped,
    Rmrk,
}

impl PropertyScope {
    /// The bytes that the keys of the scope begin with.
    pub open spec fn spec_prefix(&self) -> Seq<u8> {
        match self {
            PropertyScope::Unscoped => Seq::empty(),
            PropertyScope::Rmrk => seq![0x72u8, 0x6du8, 0x72u8, 0x6bu8, 0x3au8],
        }
    }

    /// The bytes that the keys of the scope begin with.
    pub fn prefix(&self) -> (bytes: &'static [u8])
        ensures
            bytes@ == self.spec_prefix(),
    {
        match self {
            PropertyScope::Unscoped => {
                let bytes: &'static [u8] = &[];
                assert(bytes@ =~= Seq::<u8>::empty());
                bytes
            },
            PropertyScope::Rmrk => {
                let bytes: &'static [u8] = &[0x72u8, 0x6du8, 0x72u8, 0x6bu8, 0x3au8];
                assert(bytes@ =~= seq![0x72u8, 0x6du8, 0x72u8, 0x6bu8, 0x3au8]);
                bytes
            },
        }
    }
}

impl PropertyScope {
    /// The key under which a property of the scope is stored: the prefix of
    /// the scope, then the key. Fails where that is longer than a key can be.
    pub open spec fn spec_apply(self, key: Seq<u8>) -> Result<Seq<u8>, PropertiesError> {
        if self.spec_prefix().len() == 0 {
            Ok(key)
        } else if self.spec_prefix().len() + key.len() <= MAX_PROPERTY_KEY_LENGTH {
            Ok(self.spec_prefix() + key)
        } else {
            Err(PropertiesError::PropertyKeyIsTooLong)
        }
    }

    /// Applies the scope to a property key.
    pub fn apply(self, key: PropertyKey) -> (scoped: Result<PropertyKey, PropertiesError>)
        ensures
            match scoped {
                Ok(made) => self.spec_apply(key_bytes(key)) == Ok::<Seq<u8>, PropertiesError>(
                    key_bytes(made),
                ),
                Err(error) => self.spec_apply(key_bytes(key)) == Err::<Seq<u8>, PropertiesError>(
                    error,
                ),
            },
    {
        let prefix = self.prefix();
        if prefix.len() == 0 {
            return Ok(key);
        }
        let bytes = key_as_slice(&key);
        let mut joined: Vec<u8> = Vec::new();
        joined.extend_from_slice(prefix);
        joined.extend_from_slice(bytes);
        assert(joined@ =~= self.spec_prefix() + key_bytes(key));
        match key_from_vec(joined) {
            Some(made) => Ok(made),
            None => Err(PropertiesError::PropertyKeyIsTooLong),
        }
    }
}

/// Whether a byte may stand in a property key: a letter or a digit of
/// ASCII, `_`, `-` or `.`.
pub open spec fn is_key_byte(byte: u8) -> bool {
    ||| 0x30 <= byte <= 0x39
    ||| 0x41 <= byte <= 0x5a
    ||| 0x61 <= byte <= 0x7a
    ||| byte == 0x5f
    ||| byte == 0x2d
    ||| byte == 0x2e
}

/// Whether `key` can be the key of a property: it is not empty and holds
/// only bytes that may stand in a key.
pub open spec fn spec_check_property_key(key: Seq<u8>) -> Result<(), PropertiesError> {
    if key.len() == 0 {
        Err(PropertiesError::EmptyPropertyKey)
    } else if forall|i: int| 0 <= i < key.len() ==> is_key_byte(#[trigger] key[i]) {
        Ok(())
    } else {
        Err(PropertiesError::InvalidCharacterInPropertyKey)
    }
}

/// What setting the property `key` of `scope` to `value` does to the
/// entries `entries`: the key is checked and scoped, and the value is
/// entered where the table has room or holds the scoped key already.
pub open spec fn spec_scoped_set(
    entries: Map<Seq<u8>, Seq<u8>>,
    scope: PropertyScope,
    key: Seq<u8>,
    value: Seq<u8>,
) -> Result<Map<Seq<u8>, Seq<u8>>, PropertiesError> {
    match spec_check_property_key(key) {
        Err(error) => Err(error),
        Ok(_) => match scope.spec_apply(key) {
            Err(error) => Err(error),
            Ok(scoped) => if entries.dom().len() < MAX_PROPERTIES_PER_ITEM
                || entries.dom().contains(scoped) {
                Ok(entries.insert(scoped, value))
            } else {
                Err(PropertiesError::PropertyLimitReached)
            },
        },
    }
}

/// The value that setting the property `key` of `scope` replaces, if any.
pub open spec fn spec_replaced(
    entries: Map<Seq<u8>, Seq<u8>>,
    scope: PropertyScope,
    key: Seq<u8>,
) -> Option<Seq<u8>> {
    match scope.spec_apply(key) {
        Ok(scoped) => if entries.dom().contains(scoped) {
            Some(entries[scoped])
        } else {
            None
        },
        Err(_) => None,
    }
}

/// The bytes of the keys and of the values of `items`.
pub open spec fn item_bytes(items: Seq<(PropertyKey, PropertyValue)>) -> Seq<(Seq<u8>, Seq<u8>)> {
    items.map_values(|item: (PropertyKey, PropertyValue)| (key_bytes(item.0), value_bytes(item.1)))
}

/// What setting each property of `items` in turn gives: the result of the
/// first that fails, or success, and the entries as they then are.
pub open spec fn spec_scoped_set_all(
    entries: Map<Seq<u8>, Seq<u8>>,
    scope: PropertyScope,
    items: Seq<(Seq<u8>, Seq<u8>)>,
) -> (Result<(), PropertiesError>, Map<Seq<u8>, Seq<u8>>)
    decreases items.len(),
{
    if items.len() == 0 {
        (Ok(()), entries)
    } else {
        match spec_scoped_set(entries, scope, items[0].0, items[0].1) {
            Err(error) => (Err(error), entries),
            Ok(next) => spec_scoped_set_all(next, scope, items.subrange(1, items.len() as int)),
        }
    }
}

/// Whether the value that came back from a table is the one that the
/// entries held.
pub open spec fn same_value(found: Option<PropertyValue>, expected: Option<Seq<u8>>) -> bool {
    match found {
        Some(value) => expected == Some(value_bytes(value)),
        None => expected is None,
    }
}

/// What can have properties set.
pub trait TrySetProperty: Sized {
    /// What a property holds.
    type Value;

    /// Sets a property in a scope, and hands back the value that it
    /// replaces, if any.
    fn try_scoped_set(&mut self, scope: PropertyScope, key: PropertyKey, value: Self::Value)
        -> Result<Option<Self::Value>, PropertiesError>;

    /// Sets each property of `items` in turn, in a scope, and stops at the
    /// first that fails.
    fn try_scoped_set_from_iter(
        &mut self,
        scope: PropertyScope,
        items: Vec<(PropertyKey, Self::Value)>,
    ) -> Result<(), PropertiesError>;

    /// Sets a property outside any scope.
    fn try_set(&mut self, key: PropertyKey, value: Self::Value) -> Result<
        Option<Self::Value>,
        PropertiesError,
    >;

    /// Sets each property of `items` in turn, outside any scope.
    fn try_set_from_iter(&mut self, items: Vec<(PropertyKey, Self::Value)>) -> Result<
        (),
        PropertiesError,
    >;
}


/// The properties of one item, by key.
pub struct PropertiesMap {
    table: PropertyTable,
}

impl View for PropertiesMap {
    type V = Map<Seq<u8>, Seq<u8>>;

    closed spec fn view(&self) -> Map<Seq<u8>, Seq<u8>> {
        table_entries(self.table)
    }
}

impl PropertiesMap {
    /// A map without properties.
    pub fn new() -> (map: PropertiesMap)
        ensures
            map@ == (Map::<Seq<u8>, Seq<u8>>::empty()),
    {
        PropertiesMap { table: table_new() }
    }

    /// Checks that a key is not empty and holds only bytes that may stand
    /// in a key.
    pub fn check_property_key(key: &PropertyKey) -> (checked: Result<(), PropertiesError>)
        ensures
            checked == spec_check_property_key(key_bytes(*key)),
    {
        let bytes = key_as_slice(key);
        if bytes.len() == 0 {
            return Err(PropertiesError::EmptyPropertyKey);
        }
        let mut i: usize = 0;
        while i < bytes.len()
            invariant
                i <= bytes.len(),
                bytes@.len() > 0,
                bytes@ == key_bytes(*key),
                forall|k: int| 0 <= k < i ==> is_key_byte(#[trigger] bytes@[k]),
            decreases bytes.len() - i,
        {
            let byte = bytes[i];
            let alphanumeric = (0x30 <= byte && byte <= 0x39) || (0x41 <= byte && byte <= 0x5a) || (
            0x61 <= byte && byte <= 0x7a);
            if !alphanumeric && byte != 0x5f && byte != 0x2d && byte != 0x2e {
                proof {
                    let whole = key_bytes(*key);
                    assert(whole[i as int] == byte);
                    assert(!is_key_byte(whole[i as int]));
                }
                return Err(PropertiesError::InvalidCharacterInPropertyKey);
            }
            i = i + 1;
        }
        Ok(())
    }

    /// Removes the property `key`, and hands back its value where there was
    /// one. Fails, and removes nothing, where the key cannot be a key.
    pub fn remove(&mut self, key: &PropertyKey) -> (removed: Result<
        Option<PropertyValue>,
        PropertiesError,
    >)
        ensures
            match removed {
                Ok(value) => spec_check_property_key(key_bytes(*key)) is Ok && final(self)@ == old(
                    self,
                )@.remove(key_bytes(*key)) && same_value(
                    value,
                    if old(self)@.dom().contains(key_bytes(*key)) {
                        Some(old(self)@[key_bytes(*key)])
                    } else {
                        None
                    },
                ),
                Err(error) => spec_check_property_key(key_bytes(*key)) == Err::<
                    (),
                    PropertiesError,
                >(error) && final(self)@ == old(self)@,
            },
    {
        match Self::check_property_key(key) {
            Err(error) => Err(error),
            Ok(()) => {
                Ok(table_remove(&mut self.table, key))
            },
        }
    }

    /// The value of the property `key`, if there is one.
    pub fn get(&self, key: &PropertyKey) -> (found: Option<&PropertyValue>)
        ensures
            match found {
                Some(value) => self@.dom().contains(key_bytes(*key)) && value_bytes(*value)
                    == self@[key_bytes(*key)],
                None => !self@.dom().contains(key_bytes(*key)),
            },
    {
        table_get(&self.table, key)
    }

    /// Whether there is a property `key`.
    pub fn contains_key(&self, key: &PropertyKey) -> (found: bool)
        ensures
            found == self@.dom().contains(key_bytes(*key)),
    {
        table_contains_key(&self.table, key)
    }

    /// The properties in the order in which the map hands them out.
    pub closed spec fn ordered(&self) -> Seq<(Seq<u8>, Seq<u8>)> {
        table_sequence(self.table)
    }

    /// The keys and the values of the properties, in the order of the map.
    pub fn iter(&self) -> (pairs: Vec<(Vec<u8>, Vec<u8>)>)
        ensures
            pair_bytes(pairs@) == self.ordered(),
            lists_entries(self.ordered(), self@),
    {
        table_pairs(&self.table)
    }

    /// The values of the properties, in the order of the map.
    pub fn values(&self) -> (values: Vec<Vec<u8>>)
        ensures
            values@.map_values(|value: Vec<u8>| value@) == self.ordered().map_values(
                |pair: (Seq<u8>, Seq<u8>)| pair.1,
            ),
            lists_entries(self.ordered(), self@),
    {
        let pairs = table_pairs(&self.table);
        let ghost listed = pair_bytes(pairs@);
        let mut values: Vec<Vec<u8>> = Vec::new();
        for pair in it: pairs
            invariant
                pair_bytes(it.seq()) == listed,
                values@.len() == it.index(),
                forall|k: int| 0 <= k < it.index() ==> (#[trigger] values@[k])@ == listed[k].1,
        {
            assert(pair_bytes(it.seq())[it.index() as int] == (pair.0@, pair.1@));
            values.push(pair.1);
        }
        assert(values@.map_values(|value: Vec<u8>| value@) =~= self.ordered().map_values(
            |pair: (Seq<u8>, Seq<u8>)| pair.1,
        ));
        values
    }
}

impl TrySetProperty for PropertiesMap {
    type Value = PropertyValue;

    /// Sets the property `key` of `scope` to `value`, and hands back the
    /// value that it replaces, if any. Fails, and changes nothing, where the
    /// key cannot be a key, where the scoped key is too long, and where the
    /// map is full.
    fn try_scoped_set(&mut self, scope: PropertyScope, key: PropertyKey, value: PropertyValue)
        -> (done: Result<Option<PropertyValue>, PropertiesError>)
        ensures
            match done {
                Ok(previous) => spec_scoped_set(
                    old(self)@,
                    scope,
                    key_bytes(key),
                    value_bytes(value),
                ) == Ok::<Map<Seq<u8>, Seq<u8>>, PropertiesError>(final(self)@) && same_value(
                    previous,
                    spec_replaced(old(self)@, scope, key_bytes(key)),
                ),
                Err(error) => spec_scoped_set(
                    old(self)@,
                    scope,
                    key_bytes(key),
                    value_bytes(value),
                ) == Err::<Map<Seq<u8>, Seq<u8>>, PropertiesError>(error) && final(self)@ == old(
                    self,
                )@,
            },
    {
        match Self::check_property_key(&key) {
            Err(error) => {
                return Err(error);
            },
            Ok(()) => {},
        }
        let scoped = match scope.apply(key) {
            Err(error) => {
                return Err(error);
            },
            Ok(scoped) => scoped,
        };
        match table_try_insert(&mut self.table, scoped, value) {
            Ok(previous) => Ok(previous),
            Err(_) => Err(PropertiesError::PropertyLimitReached),
        }
    }

    /// Sets each property of `items` in turn, in `scope`, and stops at the
    /// first that fails. The properties set before it stay set.
    fn try_scoped_set_from_iter(
        &mut self,
        scope: PropertyScope,
        items: Vec<(PropertyKey, PropertyValue)>,
    ) -> (done: Result<(), PropertiesError>)
        ensures
            (done, final(self)@) == spec_scoped_set_all(old(self)@, scope, item_bytes(items@)),
    {
        let ghost all = item_bytes(items@);
        assert(all.subrange(0, all.len() as int) =~= all);
        for item in it: items
            invariant
                item_bytes(it.seq()) == all,
                spec_scoped_set_all(old(self)@, scope, all) == spec_scoped_set_all(
                    self@,
                    scope,
                    all.subrange(it.index() as int, all.len() as int),
                ),
        {
            let ghost rest = all.subrange(it.index() as int, all.len() as int);
            let ghost entries = self@;
            let (key, value) = item;
            assert(rest[0] == (key_bytes(key), value_bytes(value))) by {
                assert(item_bytes(it.seq())[it.index() as int] == (
                    key_bytes(it.seq()[it.index() as int].0),
                    value_bytes(it.seq()[it.index() as int].1),
                ));
            }
            assert(rest.subrange(1, rest.len() as int) =~= all.subrange(
                it.index() + 1,
                all.len() as int,
            ));
            match self.try_scoped_set(scope, key, value) {
                Err(error) => {
                    assert(spec_scoped_set_all(entries, scope, rest) == (
                        Err::<(), PropertiesError>(error),
                        entries,
                    ));
                    return Err(error);
                },
                Ok(_) => {},
            }
        }
        assert(all.subrange(all.len() as int, all.len() as int).len() == 0);
        Ok(())
    }

    /// Sets the property `key` to `value`, outside any scope.
    fn try_set(&mut self, key: PropertyKey, value: PropertyValue) -> (done: Result<
        Option<PropertyValue>,
        PropertiesError,
    >)
        ensures
            match done {
                Ok(previous) => spec_scoped_set(
                    old(self)@,
                    PropertyScope::Unscoped,
                    key_bytes(key),
                    value_bytes(value),
                ) == Ok::<Map<Seq<u8>, Seq<u8>>, PropertiesError>(final(self)@) && same_value(
                    previous,
                    spec_replaced(old(self)@, PropertyScope::Unscoped, key_bytes(key)),
                ),
                Err(error) => spec_scoped_set(
                    old(self)@,
                    PropertyScope::Unscoped,
                    key_bytes(key),
                    value_bytes(value),
                ) == Err::<Map<Seq<u8>, Seq<u8>>, PropertiesError>(error) && final(self)@ == old(
                    self,
                )@,
            },
    {
        self.try_scoped_set(PropertyScope::Unscoped, key, value)
    }

    /// Sets each property of `items` in turn, outside any scope.
    fn try_set_from_iter(&mut self, items: Vec<(PropertyKey, PropertyValue)>) -> (done: Result<
        (),
        PropertiesError,
    >)
        ensures
            (done, final(self)@) == spec_scoped_set_all(
                old(self)@,
                PropertyScope::Unscoped,
                item_bytes(items@),
            ),
    {
        self.try_scoped_set_from_iter(PropertyScope::Unscoped, items)
    }
}

/// The number of bytes that `length` bytes of data take when they are
/// stored under `scope`: the data, the prefix of the scope, and the compact
/// encoding of the length of both.
pub open spec fn spec_scoped_slice_size(scope: PropertyScope, length: nat) -> nat {
    (compact_len((length + scope.spec_prefix().len()) as u32) + length
        + scope.spec_prefix().len()) as nat
}

/// The number of bytes that `data` takes when it is stored under `scope`.
pub fn scoped_slice_size(scope: PropertyScope, data: &[u8]) -> (size: u32)
    requires
        data@.len() <= 0x7fff_ffff,
    ensures
        size == spec_scoped_slice_size(scope, data@.len()),
{
    let prefix = scope.prefix();
    let length: u32 = data.len() as u32 + prefix.len() as u32;
    compact_encoded_size(length) as u32 + length
}

/// The number of bytes that `data` takes when it is stored.
pub fn slice_size(data: &[u8]) -> (size: u32)
    requires
        data@.len() <= 0x7fff_ffff,
    ensures
        size == spec_scoped_slice_size(PropertyScope::Unscoped, data@.len()),
{
    scoped_slice_size(PropertyScope::Unscoped, data)
}

/// What a set of properties with a budget of space is: the properties and
/// the space that they are charged for.
pub struct PropertiesView {
    pub map: Map<Seq<u8>, Seq<u8>>,
    pub consumed_space: u32,
}

/// The number minus the other, or zero where the other is larger.
pub open spec fn saturating_sub(a: u32, b: nat) -> u32 {
    if a >= b {
        (a - b) as u32
    } else {
        0
    }
}

impl PropertiesView {
    /// The space that is charged once the property `key` of `scope` is set
    /// to `value`. A new property is charged for its scoped key and its
    /// value. A property that is replaced is released for its old value and
    /// charged for the new one.
    pub open spec fn consumed_after_set(self, scope: PropertyScope, key: Seq<u8>, value: Seq<u8>)
        -> int {
        match spec_replaced(self.map, scope, key) {
            Some(replaced) => saturating_sub(
                self.consumed_space,
                spec_scoped_slice_size(PropertyScope::Unscoped, replaced.len()),
            ) + spec_scoped_slice_size(PropertyScope::Unscoped, value.len()),
            None => self.consumed_space + spec_scoped_slice_size(scope, key.len())
                + spec_scoped_slice_size(PropertyScope::Unscoped, value.len()),
        }
    }

    /// What setting the property `key` of `scope` to `value` gives, where
    /// `limit` is the budget of space: it fails where the space that is
    /// charged already, the scoped key and the value are together over the
    /// budget, and else where the map refuses the property.
    pub open spec fn scoped_set(self, limit: u32, scope: PropertyScope, key: Seq<u8>, value: Seq<u8>)
        -> Result<PropertiesView, PropertiesError> {
        if self.consumed_space + spec_scoped_slice_size(PropertyScope::Unscoped, value.len())
            + spec_scoped_slice_size(scope, key.len()) > limit {
            Err(PropertiesError::NoSpaceForProperty)
        } else {
            match spec_scoped_set(self.map, scope, key, value) {
                Err(error) => Err(error),
                Ok(map) => Ok(
                    PropertiesView {
                        map,
                        consumed_space: self.consumed_after_set(scope, key, value) as u32,
                    },
                ),
            }
        }
    }

    /// What removing the property `key` gives: the property leaves the map,
    /// and the space of its key and its value is released.
    pub open spec fn remove(self, key: Seq<u8>) -> PropertiesView {
        if self.map.dom().contains(key) {
            PropertiesView {
                map: self.map.remove(key),
                consumed_space: saturating_sub(
                    self.consumed_space,
                    spec_scoped_slice_size(PropertyScope::Unscoped, key.len())
                        + spec_scoped_slice_size(PropertyScope::Unscoped, self.map[key].len()),
                ),
            }
        } else {
            self
        }
    }
}

/// The space that the properties `pairs` take together: for each the size
/// of its key and the size of its value.
pub open spec fn total_size(pairs: Seq<(Seq<u8>, Seq<u8>)>) -> nat
    decreases pairs.len(),
{
    if pairs.len() == 0 {
        0
    } else {
        total_size(pairs.drop_last()) + spec_scoped_slice_size(
            PropertyScope::Unscoped,
            pairs.last().0.len(),
        ) + spec_scoped_slice_size(PropertyScope::Unscoped, pairs.last().1.len())
    }
}

impl PropertiesView {
    /// What setting each property of `items` in turn gives, where `limit`
    /// is the budget of space: the result of the first that fails, or
    /// success, and the properties as they then are.
    pub open spec fn scoped_set_all(
        self,
        limit: u32,
        scope: PropertyScope,
        items: Seq<(Seq<u8>, Seq<u8>)>,
    ) -> (Result<(), PropertiesError>, PropertiesView)
        decreases items.len(),
    {
        if items.len() == 0 {
            (Ok(()), self)
        } else {
            match self.scoped_set(limit, scope, items[0].0, items[0].1) {
                Err(error) => (Err(error), self),
                Ok(next) => next.scoped_set_all(
                    limit,
                    scope,
                    items.subrange(1, items.len() as int),
                ),
            }
        }
    }
}

/// The properties of one item, with the space that they take. `S` is the
/// budget of space.
pub struct Properties<const S: u32> {
    map: PropertiesMap,
    consumed_space: u32,
    // May be not zero: it once held the budget of space.
    _reserved: u32,
}

impl<const S: u32> View for Properties<S> {
    type V = PropertiesView;

    closed spec fn view(&self) -> PropertiesView {
        PropertiesView { map: self.map@, consumed_space: self.consumed_space }
    }
}

impl<const S: u32> Default for Properties<S> {
    fn default() -> (properties: Properties<S>)
        ensures
            properties@ == (PropertiesView { map: Map::empty(), consumed_space: 0 }),
    {
        Properties::new()
    }
}

impl<const S: u32> Properties<S> {
    /// No property, and no space taken.
    pub fn new() -> (properties: Properties<S>)
        ensures
            properties@ == (PropertiesView { map: Map::empty(), consumed_space: 0 }),
    {
        Properties { map: PropertiesMap::new(), consumed_space: 0, _reserved: 0 }
    }

    /// The space that the properties are charged for.
    pub fn consumed_space(&self) -> (space: u32)
        ensures
            space == self@.consumed_space,
    {
        self.consumed_space
    }

    /// Removes the property `key` and releases the space of its key and its
    /// value. Fails, and changes nothing, where the key cannot be a key.
    pub fn remove(&mut self, key: &PropertyKey) -> (removed: Result<
        Option<PropertyValue>,
        PropertiesError,
    >)
        ensures
            match removed {
                Ok(value) => spec_check_property_key(key_bytes(*key)) is Ok && final(self)@ == old(
                    self,
                )@.remove(key_bytes(*key)) && same_value(
                    value,
                    if old(self)@.map.dom().contains(key_bytes(*key)) {
                        Some(old(self)@.map[key_bytes(*key)])
                    } else {
                        None
                    },
                ),
                Err(error) => spec_check_property_key(key_bytes(*key)) == Err::<
                    (),
                    PropertiesError,
                >(error) && final(self)@ == old(self)@,
            },
    {
        let value = match self.map.remove(key) {
            Err(error) => {
                return Err(error);
            },
            Ok(value) => value,
        };
        if let Some(ref value) = value {
            let kv_len = slice_size(key_as_slice(key)) + slice_size(value_as_slice(value));
            self.consumed_space = self.consumed_space.saturating_sub(kv_len);
        }
        assert(self@.map =~= old(self)@.remove(key_bytes(*key)).map);
        Ok(value)
    }

    /// The value of the property `key`, if there is one.
    pub fn get(&self, key: &PropertyKey) -> (found: Option<&PropertyValue>)
        ensures
            match found {
                Some(value) => self@.map.dom().contains(key_bytes(*key)) && value_bytes(*value)
                    == self@.map[key_bytes(*key)],
                None => !self@.map.dom().contains(key_bytes(*key)),
            },
    {
        self.map.get(key)
    }

    /// The properties in the order in which the map hands them out.
    pub closed spec fn ordered(&self) -> Seq<(Seq<u8>, Seq<u8>)> {
        self.map.ordered()
    }

    /// The keys and the values of the properties, in the order of the map.
    pub fn iter(&self) -> (pairs: Vec<(Vec<u8>, Vec<u8>)>)
        ensures
            pair_bytes(pairs@) == self.ordered(),
            lists_entries(self.ordered(), self@.map),
    {
        self.map.iter()
    }

    /// Sets the space that the properties are charged for to the space that
    /// they take. The properties stay as they are.
    pub fn recompute_consumed_space(&mut self)
        ensures
            final(self)@.map == old(self)@.map,
            final(self).ordered() == old(self).ordered(),
            final(self)@.consumed_space == total_size(old(self).ordered()),
    {
        let pairs = self.map.iter();
        let mut sum: u32 = 0;
        let mut i: usize = 0;
        while i < pairs.len()
            invariant
                i <= pairs.len(),
                lists_entries(pair_bytes(pairs@), self@.map),
                sum == total_size(pair_bytes(pairs@).subrange(0, i as int)),
                sum <= i * 33034,
            decreases pairs.len() - i,
        {
            let ghost listed = pair_bytes(pairs@);
            assert(listed[i as int] == (pairs@[i as int].0@, pairs@[i as int].1@));
            let size = slice_size(pairs[i].0.as_slice()) + slice_size(pairs[i].1.as_slice());
            proof {
                let head = listed.subrange(0, i as int + 1);
                assert(head.drop_last() =~= listed.subrange(0, i as int));
                assert(head.last() == listed[i as int]);
            }
            sum = sum + size;
            i = i + 1;
        }
        assert(pair_bytes(pairs@).subrange(0, pairs@.len() as int) =~= pair_bytes(pairs@));
        self.consumed_space = sum;
    }
}

impl<const S: u32> TrySetProperty for Properties<S> {
    type Value = PropertyValue;

    /// Sets the property `key` of `scope` to `value` within the budget of
    /// space, and hands back the value that it replaces, if any. Fails, and
    /// changes nothing, where the budget does not suffice and where the map
    /// refuses the property.
    fn try_scoped_set(&mut self, scope: PropertyScope, key: PropertyKey, value: PropertyValue)
        -> (done: Result<Option<PropertyValue>, PropertiesError>)
        ensures
            match done {
                Ok(previous) => old(self)@.scoped_set(S, scope, key_bytes(key), value_bytes(value))
                    == Ok::<PropertiesView, PropertiesError>(final(self)@) && same_value(
                    previous,
                    spec_replaced(old(self)@.map, scope, key_bytes(key)),
                ),
                Err(error) => old(self)@.scoped_set(S, scope, key_bytes(key), value_bytes(value))
                    == Err::<PropertiesView, PropertiesError>(error) && final(self)@ == old(self)@,
            },
    {
        let key_size = scoped_slice_size(scope, key_as_slice(&key));
        let value_size = slice_size(value_as_slice(&value));
        if self.consumed_space as u64 + value_size as u64 + key_size as u64 > S as u64 {
            return Err(PropertiesError::NoSpaceForProperty);
        }
        let old_value = match self.map.try_scoped_set(scope, key, value) {
            Err(error) => {
                return Err(error);
            },
            Ok(old_value) => old_value,
        };
        if let Some(ref old_value) = old_value {
            let old_value_size = slice_size(value_as_slice(old_value));
            self.consumed_space = self.consumed_space.saturating_sub(old_value_size) + value_size;
        } else {
            self.consumed_space = self.consumed_space + key_size + value_size;
        }
        Ok(old_value)
    }

    /// Sets each property of `items` in turn, in `scope`, and stops at the
    /// first that fails. The properties set before it stay set.
    fn try_scoped_set_from_iter(
        &mut self,
        scope: PropertyScope,
        items: Vec<(PropertyKey, PropertyValue)>,
    ) -> (done: Result<(), PropertiesError>)
        ensures
            (done, final(self)@) == old(self)@.scoped_set_all(S, scope, item_bytes(items@)),
    {
        let ghost all = item_bytes(items@);
        assert(all.subrange(0, all.len() as int) =~= all);
        for item in it: items
            invariant
                item_bytes(it.seq()) == all,
                old(self)@.scoped_set_all(S, scope, all) == self@.scoped_set_all(
                    S,
                    scope,
                    all.subrange(it.index() as int, all.len() as int),
                ),
        {
            let ghost rest = all.subrange(it.index() as int, all.len() as int);
            let ghost entries = self@;
            let (key, value) = item;
            assert(rest[0] == (key_bytes(key), value_bytes(value))) by {
                assert(item_bytes(it.seq())[it.index() as int] == (
                    key_bytes(it.seq()[it.index() as int].0),
                    value_bytes(it.seq()[it.index() as int].1),
                ));
            }
            assert(rest.subrange(1, rest.len() as int) =~= all.subrange(
                it.index() + 1,
                all.len() as int,
            ));
            match self.try_scoped_set(scope, key, value) {
                Err(error) => {
                    assert(entries.scoped_set_all(S, scope, rest) == (
                        Err::<(), PropertiesError>(error),
                        entries,
                    ));
                    return Err(error);
                },
                Ok(_) => {},
            }
        }
        assert(all.subrange(all.len() as int, all.len() as int).len() == 0);
        Ok(())
    }

    /// Sets the property `key` to `value`, outside any scope.
    fn try_set(&mut self, key: PropertyKey, value: PropertyValue) -> (done: Result<
        Option<PropertyValue>,
        PropertiesError,
    >)
        ensures
            match done {
                Ok(previous) => old(self)@.scoped_set(
                    S,
                    PropertyScope::Unscoped,
                    key_bytes(key),
                    value_bytes(value),
                ) == Ok::<PropertiesView, PropertiesError>(final(self)@) && same_value(
                    previous,
                    spec_replaced(old(self)@.map, PropertyScope::Unscoped, key_bytes(key)),
                ),
                Err(error) => old(self)@.scoped_set(
                    S,
                    PropertyScope::Unscoped,
                    key_bytes(key),
                    value_bytes(value),
                ) == Err::<PropertiesView, PropertiesError>(error) && final(self)@ == old(self)@,
            },
    {
        self.try_scoped_set(PropertyScope::Unscoped, key, value)
    }

    /// Sets each property of `items` in turn, outside any scope.
    fn try_set_from_iter(&mut self, items: Vec<(PropertyKey, PropertyValue)>) -> (done: Result<
        (),
        PropertiesError,
    >)
        ensures
            (done, final(self)@) == old(self)@.scoped_set_all(
                S,
                PropertyScope::Unscoped,
                item_bytes(items@),
            ),
    {
        self.try_scoped_set_from_iter(PropertyScope::Unscoped, items)
    }
}

} // verus!
