//! The tables that bind reserve locations to collections, and the instances
//! of foreign assets to the tokens that stand for them.
//!
//! Both bindings go both ways: a location has at most one collection and a
//! collection at most one location; within a collection an instance has at
//! most one token and a token at most one instance. Nothing is ever removed
//! or changed once it is entered.

use vstd::prelude::*;
use crate::asset::AssetInstance;
use crate::error::Error;
use crate::ids::{CollectionId, TokenId};
use crate::location::{Location, LocationView};

verus! {

/// What the registry holds: four tables, two for each binding.
pub struct RegistryView {
    /// The collection of each reserve location.
    pub location_to_collection: Map<LocationView, CollectionId>,
    /// The reserve location of each foreign collection.
    pub collection_to_location: Map<CollectionId, LocationView>,
    /// The token of each asset instance, by collection.
    pub instance_to_token: Map<(CollectionId, AssetInstance), TokenId>,
    /// The asset instance of each token, by collection.
    pub token_to_instance: Map<(CollectionId, TokenId), AssetInstance>,
}

impl RegistryView {
    /// The registry without any entry.
    pub open spec fn empty() -> RegistryView {
        RegistryView {
            location_to_collection: Map::empty(),
            collection_to_location: Map::empty(),
            instance_to_token: Map::empty(),
            token_to_instance: Map::empty(),
        }
    }

    /// Each pair of tables holds the same bindings, read in the two directions.
    pub open spec fn wf(self) -> bool {
        &&& forall|l: LocationView| #[trigger]
            self.location_to_collection.dom().contains(l)
                ==> self.collection_to_location.dom().contains(self.location_to_collection[l])
                && self.collection_to_location[self.location_to_collection[l]] == l
        &&& forall|c: CollectionId| #[trigger]
            self.collection_to_location.dom().contains(c)
                ==> self.location_to_collection.dom().contains(self.collection_to_location[c])
                && self.location_to_collection[self.collection_to_location[c]] == c
        &&& forall|c: CollectionId, i: AssetInstance| #[trigger]
            self.instance_to_token.dom().contains((c, i)) ==> self.token_to_instance.dom().contains(
                (c, self.instance_to_token[(c, i)]),
            ) && self.token_to_instance[(c, self.instance_to_token[(c, i)])] == i
        &&& forall|c: CollectionId, t: TokenId| #[trigger]
            self.token_to_instance.dom().contains((c, t)) ==> self.instance_to_token.dom().contains(
                (c, self.token_to_instance[(c, t)]),
            ) && self.instance_to_token[(c, self.token_to_instance[(c, t)])] == t
    }

    /// The collection bound to `location`, if any.
    pub open spec fn collection_of(self, location: LocationView) -> Option<CollectionId> {
        if self.location_to_collection.dom().contains(location) {
            Some(self.location_to_collection[location])
        } else {
            None
        }
    }

    /// The reserve location bound to `collection`, if any.
    pub open spec fn location_of(self, collection: CollectionId) -> Option<LocationView> {
        if self.collection_to_location.dom().contains(collection) {
            Some(self.collection_to_location[collection])
        } else {
            None
        }
    }

    /// The token that stands for `instance` in `collection`, if any.
    pub open spec fn token_of(self, collection: CollectionId, instance: AssetInstance) -> Option<
        TokenId,
    > {
        if self.instance_to_token.dom().contains((collection, instance)) {
            Some(self.instance_to_token[(collection, instance)])
        } else {
            None
        }
    }

    /// The instance that `token` of `collection` stands for, if any.
    pub open spec fn instance_of(self, collection: CollectionId, token: TokenId) -> Option<
        AssetInstance,
    > {
        if self.token_to_instance.dom().contains((collection, token)) {
            Some(self.token_to_instance[(collection, token)])
        } else {
            None
        }
    }

    /// Whether `location` and `collection` are both unbound.
    pub open spec fn can_register(self, location: LocationView, collection: CollectionId) -> bool {
        !self.location_to_collection.dom().contains(location)
            && !self.collection_to_location.dom().contains(collection)
    }

    /// The registry with `location` and `collection` bound to each other.
    pub open spec fn register(self, location: LocationView, collection: CollectionId)
        -> RegistryView {
        RegistryView {
            location_to_collection: self.location_to_collection.insert(location, collection),
            collection_to_location: self.collection_to_location.insert(collection, location),
            ..self
        }
    }

    /// Whether, in `collection`, `instance` and `token` are both unbound.
    pub open spec fn can_index(
        self,
        collection: CollectionId,
        instance: AssetInstance,
        token: TokenId,
    ) -> bool {
        !self.instance_to_token.dom().contains((collection, instance))
            && !self.token_to_instance.dom().contains((collection, token))
    }

    /// The registry with `instance` and `token` bound to each other in
    /// `collection`.
    pub open spec fn index_instance(
        self,
        collection: CollectionId,
        instance: AssetInstance,
        token: TokenId,
    ) -> RegistryView {
        RegistryView {
            instance_to_token: self.instance_to_token.insert((collection, instance), token),
            token_to_instance: self.token_to_instance.insert((collection, token), instance),
            ..self
        }
    }
}

/// A reserve location and the collection bound to it.
struct ReserveEntry {
    location: Location,
    collection: CollectionId,
}

/// An asset instance and the token bound to it, in one collection.
struct InstanceEntry {
    collection: CollectionId,
    instance: AssetInstance,
    token: TokenId,
}

spec fn has_location(s: Seq<ReserveEntry>, l: LocationView) -> bool {
    exists|i: int| 0 <= i < s.len() && (#[trigger] s[i]).location@ == l
}

spec fn has_collection(s: Seq<ReserveEntry>, c: CollectionId) -> bool {
    exists|i: int| 0 <= i < s.len() && (#[trigger] s[i]).collection == c
}

spec fn reserves_unique(s: Seq<ReserveEntry>) -> bool {
    forall|i: int, j: int|
        0 <= i < j < s.len() ==> (#[trigger] s[i]).location@ != (#[trigger] s[j]).location@
            && s[i].collection != s[j].collection
}

spec fn location_table(s: Seq<ReserveEntry>) -> Map<LocationView, CollectionId> {
    Map::new(
        |l: LocationView| has_location(s, l),
        |l: LocationView|
            s[choose|i: int| 0 <= i < s.len() && (#[trigger] s[i]).location@ == l].collection,
    )
}

spec fn collection_table(s: Seq<ReserveEntry>) -> Map<CollectionId, LocationView> {
    Map::new(
        |c: CollectionId| has_collection(s, c),
        |c: CollectionId|
            s[choose|i: int| 0 <= i < s.len() && (#[trigger] s[i]).collection == c].location@,
    )
}

spec fn has_instance(s: Seq<InstanceEntry>, c: CollectionId, x: AssetInstance) -> bool {
    exists|i: int| 0 <= i < s.len() && (#[trigger] s[i]).collection == c && s[i].instance == x
}

spec fn has_token(s: Seq<InstanceEntry>, c: CollectionId, t: TokenId) -> bool {
    exists|i: int| 0 <= i < s.len() && (#[trigger] s[i]).collection == c && s[i].token == t
}

spec fn instances_unique(s: Seq<InstanceEntry>) -> bool {
    forall|i: int, j: int|
        0 <= i < j < s.len() && (#[trigger] s[i]).collection == (#[trigger] s[j]).collection
            ==> s[i].instance != s[j].instance && s[i].token != s[j].token
}

spec fn instance_table(s: Seq<InstanceEntry>) -> Map<(CollectionId, AssetInstance), TokenId> {
    Map::new(
        |k: (CollectionId, AssetInstance)| has_instance(s, k.0, k.1),
        |k: (CollectionId, AssetInstance)|
            s[choose|i: int|
                0 <= i < s.len() && (#[trigger] s[i]).collection == k.0 && s[i].instance
                    == k.1].token,
    )
}

spec fn token_table(s: Seq<InstanceEntry>) -> Map<(CollectionId, TokenId), AssetInstance> {
    Map::new(
        |k: (CollectionId, TokenId)| has_token(s, k.0, k.1),
        |k: (CollectionId, TokenId)|
            s[choose|i: int|
                0 <= i < s.len() && (#[trigger] s[i]).collection == k.0 && s[i].token
                    == k.1].instance,
    )
}

/// The entry at `i` is what both tables hold for its location and collection.
proof fn lemma_reserve_at(s: Seq<ReserveEntry>, i: int)
    requires
        reserves_unique(s),
        0 <= i < s.len(),
    ensures
        location_table(s).dom().contains(s[i].location@),
        location_table(s)[s[i].location@] == s[i].collection,
        collection_table(s).dom().contains(s[i].collection),
        collection_table(s)[s[i].collection] == s[i].location@,
{
    let l = s[i].location@;
    let c = s[i].collection;
    assert(has_location(s, l));
    assert(has_collection(s, c));
    let j = choose|j: int| 0 <= j < s.len() && (#[trigger] s[j]).location@ == l;
    assert(j == i);
    let k = choose|k: int| 0 <= k < s.len() && (#[trigger] s[k]).collection == c;
    assert(k == i);
}

/// Adding an entry whose location and collection are new adds it to both
/// tables and changes nothing else.
proof fn lemma_reserve_push(s: Seq<ReserveEntry>, e: ReserveEntry)
    requires
        reserves_unique(s),
        !has_location(s, e.location@),
        !has_collection(s, e.collection),
    ensures
        reserves_unique(s.push(e)),
        location_table(s.push(e)) == location_table(s).insert(e.location@, e.collection),
        collection_table(s.push(e)) == collection_table(s).insert(e.collection, e.location@),
{
    let s2 = s.push(e);
    assert forall|i: int, j: int| 0 <= i < j < s2.len() implies (#[trigger] s2[i]).location@ != (
    #[trigger] s2[j]).location@ && s2[i].collection != s2[j].collection by {
        if j < s.len() {
            assert(s2[i] == s[i] && s2[j] == s[j]);
        } else {
            assert(s2[i] == s[i]);
            assert(s2[j] == e);
        }
    }
    let lt = location_table(s).insert(e.location@, e.collection);
    assert forall|l: LocationView| location_table(s2).dom().contains(l) == lt.dom().contains(
        l,
    ) by {
        if has_location(s2, l) {
            let i = choose|i: int| 0 <= i < s2.len() && (#[trigger] s2[i]).location@ == l;
            if i < s.len() {
                assert(s[i] == s2[i]);
                assert(has_location(s, l));
            }
        }
        if has_location(s, l) {
            let i = choose|i: int| 0 <= i < s.len() && (#[trigger] s[i]).location@ == l;
            assert(s2[i] == s[i]);
            assert(has_location(s2, l));
        }
        if l == e.location@ {
            assert(s2[s.len() as int] == e);
            assert(has_location(s2, l));
        }
    }
    assert forall|l: LocationView| location_table(s2).dom().contains(l) implies location_table(
        s2,
    )[l] == lt[l] by {
        let i = choose|i: int| 0 <= i < s2.len() && (#[trigger] s2[i]).location@ == l;
        lemma_reserve_at(s2, i);
        if i < s.len() {
            assert(s[i] == s2[i]);
            lemma_reserve_at(s, i);
        }
    }
    assert(location_table(s2) =~= lt);
    let ct = collection_table(s).insert(e.collection, e.location@);
    assert forall|c: CollectionId| collection_table(s2).dom().contains(c) == ct.dom().contains(
        c,
    ) by {
        if has_collection(s2, c) {
            let i = choose|i: int| 0 <= i < s2.len() && (#[trigger] s2[i]).collection == c;
            if i < s.len() {
                assert(s[i] == s2[i]);
                assert(has_collection(s, c));
            }
        }
        if has_collection(s, c) {
            let i = choose|i: int| 0 <= i < s.len() && (#[trigger] s[i]).collection == c;
            assert(s2[i] == s[i]);
            assert(has_collection(s2, c));
        }
        if c == e.collection {
            assert(s2[s.len() as int] == e);
            assert(has_collection(s2, c));
        }
    }
    assert forall|c: CollectionId| collection_table(s2).dom().contains(c) implies collection_table(
        s2,
    )[c] == ct[c] by {
        let i = choose|i: int| 0 <= i < s2.len() && (#[trigger] s2[i]).collection == c;
        lemma_reserve_at(s2, i);
        if i < s.len() {
            assert(s[i] == s2[i]);
            lemma_reserve_at(s, i);
        }
    }
    assert(collection_table(s2) =~= ct);
}

/// The entry at `i` is what both tables hold for its instance and token.
proof fn lemma_instance_at(s: Seq<InstanceEntry>, i: int)
    requires
        instances_unique(s),
        0 <= i < s.len(),
    ensures
        instance_table(s).dom().contains((s[i].collection, s[i].instance)),
        instance_table(s)[(s[i].collection, s[i].instance)] == s[i].token,
        token_table(s).dom().contains((s[i].collection, s[i].token)),
        token_table(s)[(s[i].collection, s[i].token)] == s[i].instance,
{
    let c = s[i].collection;
    let x = s[i].instance;
    let t = s[i].token;
    assert(has_instance(s, c, x));
    assert(has_token(s, c, t));
    let j = choose|j: int|
        0 <= j < s.len() && (#[trigger] s[j]).collection == c && s[j].instance == x;
    assert(j == i);
    let k = choose|k: int| 0 <= k < s.len() && (#[trigger] s[k]).collection == c && s[k].token == t;
    assert(k == i);
}

/// Adding an entry whose instance and token are new in its collection adds
/// it to both tables and changes nothing else.
proof fn lemma_instance_push(s: Seq<InstanceEntry>, e: InstanceEntry)
    requires
        instances_unique(s),
        !has_instance(s, e.collection, e.instance),
        !has_token(s, e.collection, e.token),
    ensures
        instances_unique(s.push(e)),
        instance_table(s.push(e)) == instance_table(s).insert((e.collection, e.instance), e.token),
        token_table(s.push(e)) == token_table(s).insert((e.collection, e.token), e.instance),
{
    let s2 = s.push(e);
    assert forall|i: int, j: int|
        0 <= i < j < s2.len() && (#[trigger] s2[i]).collection == (
        #[trigger] s2[j]).collection implies s2[i].instance != s2[j].instance && s2[i].token
        != s2[j].token by {
        if j < s.len() {
            assert(s2[i] == s[i] && s2[j] == s[j]);
        } else {
            assert(s2[i] == s[i]);
            assert(s2[j] == e);
        }
    }
    let it = instance_table(s).insert((e.collection, e.instance), e.token);
    assert forall|k: (CollectionId, AssetInstance)|
        instance_table(s2).dom().contains(k) == it.dom().contains(k) by {
        if has_instance(s2, k.0, k.1) {
            let i = choose|i: int|
                0 <= i < s2.len() && (#[trigger] s2[i]).collection == k.0 && s2[i].instance == k.1;
            if i < s.len() {
                assert(s[i] == s2[i]);
                assert(has_instance(s, k.0, k.1));
            }
        }
        if has_instance(s, k.0, k.1) {
            let i = choose|i: int|
                0 <= i < s.len() && (#[trigger] s[i]).collection == k.0 && s[i].instance == k.1;
            assert(s2[i] == s[i]);
            assert(has_instance(s2, k.0, k.1));
        }
        if k == (e.collection, e.instance) {
            assert(s2[s.len() as int] == e);
            assert(has_instance(s2, k.0, k.1));
        }
    }
    assert forall|k: (CollectionId, AssetInstance)|
        instance_table(s2).dom().contains(k) implies instance_table(s2)[k] == it[k] by {
        let i = choose|i: int|
            0 <= i < s2.len() && (#[trigger] s2[i]).collection == k.0 && s2[i].instance == k.1;
        lemma_instance_at(s2, i);
        if i < s.len() {
            assert(s[i] == s2[i]);
            lemma_instance_at(s, i);
        }
    }
    assert(instance_table(s2) =~= it);
    let tt = token_table(s).insert((e.collection, e.token), e.instance);
    assert forall|k: (CollectionId, TokenId)|
        token_table(s2).dom().contains(k) == tt.dom().contains(k) by {
        if has_token(s2, k.0, k.1) {
            let i = choose|i: int|
                0 <= i < s2.len() && (#[trigger] s2[i]).collection == k.0 && s2[i].token == k.1;
            if i < s.len() {
                assert(s[i] == s2[i]);
                assert(has_token(s, k.0, k.1));
            }
        }
        if has_token(s, k.0, k.1) {
            let i = choose|i: int|
                0 <= i < s.len() && (#[trigger] s[i]).collection == k.0 && s[i].token == k.1;
            assert(s2[i] == s[i]);
            assert(has_token(s2, k.0, k.1));
        }
        if k == (e.collection, e.token) {
            assert(s2[s.len() as int] == e);
            assert(has_token(s2, k.0, k.1));
        }
    }
    assert forall|k: (CollectionId, TokenId)|
        token_table(s2).dom().contains(k) implies token_table(s2)[k] == tt[k] by {
        let i = choose|i: int|
            0 <= i < s2.len() && (#[trigger] s2[i]).collection == k.0 && s2[i].token == k.1;
        lemma_instance_at(s2, i);
        if i < s.len() {
            assert(s[i] == s2[i]);
            lemma_instance_at(s, i);
        }
    }
    assert(token_table(s2) =~= tt);
}

/// The registry of reserve locations and of asset instances.
pub struct Registry {
    reserves: Vec<ReserveEntry>,
    instances: Vec<InstanceEntry>,
}

impl View for Registry {
    type V = RegistryView;

    closed spec fn view(&self) -> RegistryView {
        RegistryView {
            location_to_collection: location_table(self.reserves@),
            collection_to_location: collection_table(self.reserves@),
            instance_to_token: instance_table(self.instances@),
            token_to_instance: token_table(self.instances@),
        }
    }
}

impl Registry {
    /// No location, collection, instance or token is entered twice.
    pub closed spec fn wf(&self) -> bool {
        reserves_unique(self.reserves@) && instances_unique(self.instances@)
    }

    /// The tables of a well-formed registry agree with each other.
    pub proof fn lemma_view_wf(&self)
        requires
            self.wf(),
        ensures
            self@.wf(),
    {
        let r = self.reserves@;
        let n = self.instances@;
        assert forall|l: LocationView| #[trigger]
            self@.location_to_collection.dom().contains(
                l,
            ) implies self@.collection_to_location.dom().contains(self@.location_to_collection[l])
            && self@.collection_to_location[self@.location_to_collection[l]] == l by {
            let i = choose|i: int| 0 <= i < r.len() && (#[trigger] r[i]).location@ == l;
            lemma_reserve_at(r, i);
        }
        assert forall|c: CollectionId| #[trigger]
            self@.collection_to_location.dom().contains(
                c,
            ) implies self@.location_to_collection.dom().contains(self@.collection_to_location[c])
            && self@.location_to_collection[self@.collection_to_location[c]] == c by {
            let i = choose|i: int| 0 <= i < r.len() && (#[trigger] r[i]).collection == c;
            lemma_reserve_at(r, i);
        }
        assert forall|c: CollectionId, x: AssetInstance| #[trigger]
            self@.instance_to_token.dom().contains(
                (c, x),
            ) implies self@.token_to_instance.dom().contains((c, self@.instance_to_token[(c, x)]))
            && self@.token_to_instance[(c, self@.instance_to_token[(c, x)])] == x by {
            let i = choose|i: int|
                0 <= i < n.len() && (#[trigger] n[i]).collection == c && n[i].instance == x;
            lemma_instance_at(n, i);
        }
        assert forall|c: CollectionId, t: TokenId| #[trigger]
            self@.token_to_instance.dom().contains(
                (c, t),
            ) implies self@.instance_to_token.dom().contains((c, self@.token_to_instance[(c, t)]))
            && self@.instance_to_token[(c, self@.token_to_instance[(c, t)])] == t by {
            let i = choose|i: int|
                0 <= i < n.len() && (#[trigger] n[i]).collection == c && n[i].token == t;
            lemma_instance_at(n, i);
        }
    }

    /// A registry without any entry.
    pub fn new() -> (registry: Registry)
        ensures
            registry.wf(),
            registry@ == RegistryView::empty(),
    {
        let registry = Registry { reserves: Vec::new(), instances: Vec::new() };
        assert(registry@.location_to_collection =~= Map::empty());
        assert(registry@.collection_to_location =~= Map::empty());
        assert(registry@.instance_to_token =~= Map::empty());
        assert(registry@.token_to_instance =~= Map::empty());
        registry
    }

    /// The collection bound to `location`, if any.
    pub fn collection_of(&self, location: &Location) -> (found: Option<CollectionId>)
        requires
            self.wf(),
        ensures
            found == self@.collection_of(location@),
    {
        let mut i: usize = 0;
        while i < self.reserves.len()
            invariant
                i <= self.reserves.len(),
                self.wf(),
                forall|k: int| 0 <= k < i ==> (#[trigger] self.reserves@[k]).location@ != location@,
            decreases self.reserves.len() - i,
        {
            if self.reserves[i].location.equals(location) {
                proof {
                    lemma_reserve_at(self.reserves@, i as int);
                }
                return Some(self.reserves[i].collection);
            }
            i = i + 1;
        }
        assert(!has_location(self.reserves@, location@));
        None
    }

    /// The reserve location bound to `collection`, if any.
    pub fn location_of(&self, collection: CollectionId) -> (found: Option<&Location>)
        requires
            self.wf(),
        ensures
            match found {
                Some(location) => self@.location_of(collection) == Some(location@),
                None => self@.location_of(collection) is None,
            },
    {
        let mut i: usize = 0;
        while i < self.reserves.len()
            invariant
                i <= self.reserves.len(),
                self.wf(),
                forall|k: int| 0 <= k < i ==> (#[trigger] self.reserves@[k]).collection != collection,
            decreases self.reserves.len() - i,
        {
            if self.reserves[i].collection == collection {
                proof {
                    lemma_reserve_at(self.reserves@, i as int);
                }
                return Some(&self.reserves[i].location);
            }
            i = i + 1;
        }
        assert(!has_collection(self.reserves@, collection));
        None
    }

    /// Whether `collection` is bound to a reserve location.
    pub fn is_foreign(&self, collection: CollectionId) -> (foreign: bool)
        requires
            self.wf(),
        ensures
            foreign == self@.collection_to_location.dom().contains(collection),
    {
        self.location_of(collection).is_some()
    }

    /// Binds `location` and `collection` to each other. Fails, and changes
    /// nothing, where either of them is bound already.
    pub fn register(&mut self, location: Location, collection: CollectionId) -> (done: Result<
        (),
        Error,
    >)
        requires
            old(self).wf(),
        ensures
            final(self).wf(),
            old(self)@.can_register(location@, collection) ==> done == Ok::<(), Error>(())
                && final(self)@ == old(self)@.register(location@, collection),
            !old(self)@.can_register(location@, collection) ==> done == Err::<(), Error>(
                Error::ForeignAssetAlreadyRegistered,
            ) && final(self)@ == old(self)@,
    {
        if self.collection_of(&location).is_some() || self.is_foreign(collection) {
            return Err(Error::ForeignAssetAlreadyRegistered);
        }
        let entry = ReserveEntry { location, collection };
        proof {
            lemma_reserve_push(self.reserves@, entry);
        }
        self.reserves.push(entry);
        Ok(())
    }

    /// The token that stands for `instance` in `collection`, if any.
    pub fn token_of(&self, collection: CollectionId, instance: &AssetInstance) -> (found: Option<
        TokenId,
    >)
        requires
            self.wf(),
        ensures
            found == self@.token_of(collection, *instance),
    {
        let mut i: usize = 0;
        while i < self.instances.len()
            invariant
                i <= self.instances.len(),
                self.wf(),
                forall|k: int|
                    0 <= k < i ==> !((#[trigger] self.instances@[k]).collection == collection
                        && self.instances@[k].instance == *instance),
            decreases self.instances.len() - i,
        {
            if self.instances[i].collection == collection && self.instances[i].instance.equals(
                instance,
            ) {
                proof {
                    lemma_instance_at(self.instances@, i as int);
                }
                return Some(self.instances[i].token);
            }
            i = i + 1;
        }
        assert(!has_instance(self.instances@, collection, *instance));
        None
    }

    /// The instance that `token` of `collection` stands for, if any.
    pub fn instance_of(&self, collection: CollectionId, token: TokenId) -> (found: Option<
        AssetInstance,
    >)
        requires
            self.wf(),
        ensures
            found == self@.instance_of(collection, token),
    {
        let mut i: usize = 0;
        while i < self.instances.len()
            invariant
                i <= self.instances.len(),
                self.wf(),
                forall|k: int|
                    0 <= k < i ==> !((#[trigger] self.instances@[k]).collection == collection
                        && self.instances@[k].token == token),
            decreases self.instances.len() - i,
        {
            if self.instances[i].collection == collection && self.instances[i].token == token {
                proof {
                    lemma_instance_at(self.instances@, i as int);
                }
                return Some(self.instances[i].instance);
            }
            i = i + 1;
        }
        assert(!has_token(self.instances@, collection, token));
        None
    }

    /// Binds `instance` and `token` to each other in `collection`, in both
    /// tables at once. Returns `false`, and changes nothing, where either of
    /// them is bound in that collection already.
    pub fn index_instance(
        &mut self,
        collection: CollectionId,
        instance: AssetInstance,
        token: TokenId,
    ) -> (entered: bool)
        requires
            old(self).wf(),
        ensures
            final(self).wf(),
            entered == old(self)@.can_index(collection, instance, token),
            entered ==> final(self)@ == old(self)@.index_instance(collection, instance, token),
            !entered ==> final(self)@ == old(self)@,
    {
        if self.token_of(collection, &instance).is_some() || self.instance_of(
            collection,
            token,
        ).is_some() {
            return false;
        }
        let entry = InstanceEntry { collection, instance, token };
        proof {
            lemma_instance_push(self.instances@, entry);
        }
        self.instances.push(entry);
        true
    }
}

} // verus!
