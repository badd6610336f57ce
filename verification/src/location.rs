//! Hierarchical location descriptors.
//!
//! A location is a number of steps up to parent systems followed by a path of
//! junctions down into the system reached. Junctions are a closed set of
//! variants, and two locations are the same exactly when they have the same
//! parent count and the same junctions in the same order.
//!
//! The networks and the bodies that some junctions name are those of the
//! cross-chain protocol's own library. They are carried through and compared,
//! and nothing else is read of them.

use vstd::prelude::*;
use parity_scale_codec::Encode;
use staging_xcm::v3::Junction as XcmJunction;
use staging_xcm::v3::{BodyId, BodyPart, NetworkId};

verus! {

/// The most junctions that the interior of a location can hold.
pub const MAX_JUNCTIONS: usize = 8;

/// Compares two byte arrays of the same length.
pub fn bytes_equal<const N: usize>(a: &[u8; N], b: &[u8; N]) -> (same: bool)
    ensures
        same == (*a == *b),
{
    let mut i: usize = 0;
    while i < N
        invariant
            i <= N,
            forall|k: int| 0 <= k < i ==> a@[k] == b@[k],
        decreases N - i,
    {
        if a[i] != b[i] {
            return false;
        }
        i = i + 1;
    }
    assert(a@ =~= b@);
    assert(*a =~= *b);
    true
}

/// `staging_xcm::v3::NetworkId`: a global identifier of a consensus system.
#[verifier::external_type_specification]
#[verifier::external_body]
pub struct ExNetworkId(NetworkId);

/// `staging_xcm::v3::BodyId`: an identifier of a pluralistic body.
#[verifier::external_type_specification]
#[verifier::external_body]
pub struct ExBodyId(BodyId);

/// `staging_xcm::v3::BodyPart`: a part of a pluralistic body.
#[verifier::external_type_specification]
#[verifier::external_body]
pub struct ExBodyPart(BodyPart);

/// `PartialEq::eq` of `staging_xcm::v3::NetworkId`: whether both values are
/// the same variant with the same contents.
#[verifier::external_body]
fn same_network(a: &NetworkId, b: &NetworkId) -> (same: bool)
    ensures
        same == (*a == *b),
{
    a == b
}

/// `PartialEq::eq` of `staging_xcm::v3::BodyId`: whether both values are the
/// same variant with the same contents.
#[verifier::external_body]
fn same_body(a: &BodyId, b: &BodyId) -> (same: bool)
    ensures
        same == (*a == *b),
{
    a == b
}

/// `PartialEq::eq` of `staging_xcm::v3::BodyPart`: whether both values are
/// the same variant with the same contents.
#[verifier::external_body]
fn same_part(a: &BodyPart, b: &BodyPart) -> (same: bool)
    ensures
        same == (*a == *b),
{
    a == b
}

/// Compares two optional network identifiers.
pub fn network_equal(a: &Option<NetworkId>, b: &Option<NetworkId>) -> (same: bool)
    ensures
        same == (*a == *b),
{
    match (a, b) {
        (Some(x), Some(y)) => same_network(x, y),
        (None, None) => true,
        _ => false,
    }
}

/// One step of the path that leads from a system into its interior.
#[derive(Clone, Copy, Debug, PartialEq, Eq)]
#[allow(inconsistent_fields)]
pub enum Junction {
    /// An indexed parachain belonging to the context.
    Parachain(u32),
    /// A 32-byte account identifier.
    AccountId32 { network: Option<NetworkId>, id: [u8; 32] },
    /// An 8-byte account index.
    AccountIndex64 { network: Option<NetworkId>, index: u64 },
    /// A 20-byte account key.
    AccountKey20 { network: Option<NetworkId>, key: [u8; 20] },
    /// An instanced, indexed pallet of the context.
    PalletInstance(u8),
    /// A non-descript index within the context.
    GeneralIndex(u128),
    /// A non-descript datum of at most 32 bytes, with its length.
    GeneralKey { length: u8, data: [u8; 32] },
    /// The unambiguous child.
    OnlyChild,
    /// A pluralistic body existing within consensus.
    Plurality { id: BodyId, part: BodyPart },
    /// A global network capable of externalizing its own consensus.
    GlobalConsensus(NetworkId),
}

impl Junction {
    /// Whether both junctions are the same variant with the same contents.
    pub fn equals(&self, other: &Junction) -> (same: bool)
        ensures
            same == (*self == *other),
    {
        match (self, other) {
            (Junction::Parachain(a), Junction::Parachain(b)) => *a == *b,
            (
                Junction::AccountId32 { network: n1, id: i1 },
                Junction::AccountId32 { network: n2, id: i2 },
            ) => network_equal(n1, n2) && bytes_equal(i1, i2),
            (
                Junction::AccountIndex64 { network: n1, index: i1 },
                Junction::AccountIndex64 { network: n2, index: i2 },
            ) => network_equal(n1, n2) && *i1 == *i2,
            (
                Junction::AccountKey20 { network: n1, key: k1 },
                Junction::AccountKey20 { network: n2, key: k2 },
            ) => network_equal(n1, n2) && bytes_equal(k1, k2),
            (Junction::PalletInstance(a), Junction::PalletInstance(b)) => *a == *b,
            (Junction::GeneralIndex(a), Junction::GeneralIndex(b)) => *a == *b,
            (
                Junction::GeneralKey { length: l1, data: d1 },
                Junction::GeneralKey { length: l2, data: d2 },
            ) => *l1 == *l2 && bytes_equal(d1, d2),
            (Junction::OnlyChild, Junction::OnlyChild) => true,
            (
                Junction::Plurality { id: i1, part: p1 },
                Junction::Plurality { id: i2, part: p2 },
            ) => same_body(i1, i2) && same_part(p1, p2),
            (Junction::GlobalConsensus(a), Junction::GlobalConsensus(b)) => same_network(a, b),
            _ => false,
        }
    }
}

/// The bytes that stand for a junction on the wire.
pub uninterp spec fn junction_encoding(junction: Junction) -> Seq<u8>;

/// Encodes a junction with `parity_scale_codec::Encode::encode`, on the
/// `staging_xcm::v3::Junction` of the same variant and contents. The
/// contract only gives the result its name: the encoding is a function of
/// the junction alone.
#[verifier::external_body]
fn encode_junction(junction: &Junction) -> (bytes: Vec<u8>)
    ensures
        bytes@ == junction_encoding(*junction),
{
    let outside = match *junction {
        Junction::Parachain(id) => XcmJunction::Parachain(id),
        Junction::AccountId32 { network, id } => XcmJunction::AccountId32 { network, id },
        Junction::AccountIndex64 { network, index } => XcmJunction::AccountIndex64 { network, index },
        Junction::AccountKey20 { network, key } => XcmJunction::AccountKey20 { network, key },
        Junction::PalletInstance(index) => XcmJunction::PalletInstance(index),
        Junction::GeneralIndex(index) => XcmJunction::GeneralIndex(index),
        Junction::GeneralKey { length, data } => XcmJunction::GeneralKey { length, data },
        Junction::OnlyChild => XcmJunction::OnlyChild,
        Junction::Plurality { id, part } => XcmJunction::Plurality { id, part },
        Junction::GlobalConsensus(network) => XcmJunction::GlobalConsensus(network),
    };
    outside.encode()
}

/// The byte strings `parts`, one after the other.
pub open spec fn joined(parts: Seq<Seq<u8>>) -> Seq<u8>
    decreases parts.len(),
{
    if parts.len() == 0 {
        Seq::empty()
    } else {
        joined(parts.drop_last()) + parts.last()
    }
}

/// The bytes that stand for a location whose junctions have the encodings
/// `junctions`: the parent count, the number of junctions, and the encoding
/// of each junction in turn.
pub open spec fn framed(parents: u8, junctions: Seq<Seq<u8>>) -> Seq<u8> {
    seq![parents, junctions.len() as u8] + joined(junctions)
}

/// The bytes that stand for a location, from its parent count and the
/// encodings of its junctions.
pub fn frame_location(parents: u8, junctions: &Vec<Vec<u8>>) -> (bytes: Vec<u8>)
    requires
        junctions@.len() <= MAX_JUNCTIONS,
    ensures
        bytes@ == framed(parents, junctions@.map_values(|part: Vec<u8>| part@)),
{
    let ghost parts = junctions@.map_values(|part: Vec<u8>| part@);
    let mut bytes: Vec<u8> = Vec::new();
    bytes.push(parents);
    bytes.push(junctions.len() as u8);
    let mut i: usize = 0;
    while i < junctions.len()
        invariant
            i <= junctions.len(),
            junctions@.len() <= MAX_JUNCTIONS,
            parts == junctions@.map_values(|part: Vec<u8>| part@),
            bytes@ == seq![parents, junctions@.len() as u8] + joined(parts.subrange(0, i as int)),
        decreases junctions.len() - i,
    {
        bytes.extend_from_slice(junctions[i].as_slice());
        proof {
            let head = parts.subrange(0, i as int + 1);
            assert(head.drop_last() =~= parts.subrange(0, i as int));
            assert(head.last() == junctions@[i as int]@);
            assert(bytes@ =~= seq![parents, junctions@.len() as u8] + joined(head));
        }
        i = i + 1;
    }
    assert(parts.subrange(0, parts.len() as int) =~= parts);
    bytes
}

/// What a location is: a parent count and the junctions of its interior.
pub struct LocationView {
    pub parents: u8,
    pub interior: Seq<Junction>,
}

impl LocationView {
    /// The location of the interpreting system itself.
    pub open spec fn here() -> LocationView {
        LocationView { parents: 0, interior: Seq::empty() }
    }

    /// The junction that follows `prefix` in `self.interior`, where the
    /// interior is `prefix` and exactly one junction more.
    pub open spec fn match_and_split(self, prefix: Seq<Junction>) -> Option<Junction> {
        if self.interior.len() == prefix.len() + 1 && self.interior.subrange(
            0,
            prefix.len() as int,
        ) == prefix {
            Some(self.interior[prefix.len() as int])
        } else {
            None
        }
    }

    /// The bytes that stand for the location on the wire and in the
    /// properties of collections: the parent count, the number of
    /// junctions, and the encoding of each junction in turn.
    pub open spec fn encoding(self) -> Seq<u8> {
        framed(self.parents, self.interior.map_values(|junction: Junction| junction_encoding(junction)))
    }

    /// This location with `junction` added at the end of its interior.
    pub open spec fn pushed(self, junction: Junction) -> LocationView {
        LocationView { parents: self.parents, interior: self.interior.push(junction) }
    }
}

/// A location: `parents` steps up, then the junctions of `interior` down.
/// The interior holds at most `MAX_JUNCTIONS` junctions.
#[derive(Debug, PartialEq, Eq)]
pub struct Location {
    parents: u8,
    interior: Vec<Junction>,
}

impl View for Location {
    type V = LocationView;

    closed spec fn view(&self) -> LocationView {
        LocationView { parents: self.parents, interior: self.interior@ }
    }
}

/// A copy of the junctions of `source`, in the same order.
fn copy_junctions(source: &Vec<Junction>) -> (copy: Vec<Junction>)
    ensures
        copy@ == source@,
{
    let mut copy: Vec<Junction> = Vec::new();
    let mut i: usize = 0;
    while i < source.len()
        invariant
            i <= source.len(),
            copy@ == source@.subrange(0, i as int),
        decreases source.len() - i,
    {
        copy.push(source[i]);
        i = i + 1;
    }
    assert(copy@ == source@);
    copy
}

impl Clone for Location {
    fn clone(&self) -> (copy: Location)
        ensures
            copy@ == self@,
    {
        proof {
            use_type_invariant(self);
        }
        Location { parents: self.parents, interior: copy_junctions(&self.interior) }
    }
}

impl Location {
    #[verifier::type_invariant]
    spec fn bounded(self) -> bool {
        self.interior@.len() <= MAX_JUNCTIONS
    }

    /// The number of junctions in the interior.
    pub fn len(&self) -> (count: usize)
        ensures
            count == self@.interior.len(),
            count <= MAX_JUNCTIONS,
    {
        proof {
            use_type_invariant(self);
        }
        self.interior.len()
    }

    /// A location with the given parent count and interior, or `None` where
    /// the interior is longer than `MAX_JUNCTIONS`.
    pub fn new(parents: u8, interior: Vec<Junction>) -> (made: Option<Location>)
        ensures
            interior@.len() <= MAX_JUNCTIONS ==> made is Some && made->0@ == (LocationView {
                parents,
                interior: interior@,
            }),
            interior@.len() > MAX_JUNCTIONS ==> made is None,
    {
        if interior.len() <= MAX_JUNCTIONS {
            Some(Location { parents, interior })
        } else {
            None
        }
    }

    /// The location of the interpreting system itself.
    pub fn here() -> (made: Location)
        ensures
            made@ == LocationView::here(),
    {
        Location { parents: 0, interior: Vec::new() }
    }

    /// The location `parents` steps up from the interpreting system.
    pub fn ancestor(parents: u8) -> (made: Location)
        ensures
            made@ == (LocationView { parents, interior: Seq::empty() }),
    {
        Location { parents, interior: Vec::new() }
    }

    /// The number of steps up that the location starts with.
    pub fn parents(&self) -> (count: u8)
        ensures
            count == self@.parents,
    {
        self.parents
    }

    /// The junctions of the interior, in order.
    pub fn interior(&self) -> (junctions: &Vec<Junction>)
        ensures
            junctions@ == self@.interior,
    {
        &self.interior
    }

    /// Whether the location is that of the interpreting system itself.
    pub fn is_here(&self) -> (here: bool)
        ensures
            here == (self@ == LocationView::here()),
    {
        let here = self.parents == 0 && self.interior.len() == 0;
        proof {
            if here {
                assert(self.interior@ =~= Seq::<Junction>::empty());
            }
        }
        here
    }

    /// Whether both locations have the same parent count and junctions.
    pub fn equals(&self, other: &Location) -> (same: bool)
        ensures
            same == (self@ == other@),
    {
        if self.parents != other.parents || self.interior.len() != other.interior.len() {
            return false;
        }
        let mut i: usize = 0;
        while i < self.interior.len()
            invariant
                i <= self.interior.len(),
                self.interior.len() == other.interior.len(),
                forall|k: int| 0 <= k < i ==> self.interior@[k] == other.interior@[k],
            decreases self.interior.len() - i,
        {
            if !self.interior[i].equals(&other.interior[i]) {
                return false;
            }
            i = i + 1;
        }
        assert(self.interior@ =~= other.interior@);
        true
    }

    /// Checks that the interior of `self` is the interior of `prefix` followed
    /// by exactly one junction, and returns that junction. The parent counts
    /// play no part.
    pub fn match_and_split(&self, prefix: &Location) -> (last: Option<Junction>)
        ensures
            last == self@.match_and_split(prefix@.interior),
    {
        let n = prefix.interior.len();
        proof {
            use_type_invariant(prefix);
        }
        if self.interior.len() != n + 1 {
            return None;
        }
        let mut i: usize = 0;
        while i < n
            invariant
                i <= n,
                n == prefix.interior.len(),
                self.interior.len() == n + 1,
                forall|k: int| 0 <= k < i ==> self.interior@[k] == prefix.interior@[k],
            decreases n - i,
        {
            if !self.interior[i].equals(&prefix.interior[i]) {
                proof {
                    let head = self.interior@.subrange(0, n as int);
                    assert(head[i as int] == self.interior@[i as int]);
                }
                return None;
            }
            i = i + 1;
        }
        assert(self.interior@.subrange(0, n as int) =~= prefix.interior@);
        Some(self.interior[n])
    }

    /// The bytes that stand for the location, as the cross-chain protocol
    /// encodes it.
    pub fn encode(&self) -> (bytes: Vec<u8>)
        ensures
            bytes@ == self@.encoding(),
    {
        proof {
            use_type_invariant(self);
        }
        let mut junctions: Vec<Vec<u8>> = Vec::new();
        let mut i: usize = 0;
        while i < self.interior.len()
            invariant
                i <= self.interior.len(),
                self.interior.len() <= MAX_JUNCTIONS,
                junctions@.len() == i,
                forall|k: int|
                    0 <= k < i ==> (#[trigger] junctions@[k])@ == junction_encoding(
                        self.interior@[k],
                    ),
            decreases self.interior.len() - i,
        {
            junctions.push(encode_junction(&self.interior[i]));
            i = i + 1;
        }
        assert(junctions@.map_values(|part: Vec<u8>| part@) =~= self.interior@.map_values(
            |junction: Junction| junction_encoding(junction),
        ));
        frame_location(self.parents, &junctions)
    }

    /// The location with `junction` added at the end of its interior, or
    /// `None` where the interior is full.
    pub fn pushed_with_interior(&self, junction: Junction) -> (made: Option<Location>)
        ensures
            self@.interior.len() < MAX_JUNCTIONS ==> made is Some && made->0@ == self@.pushed(
                junction,
            ),
            self@.interior.len() >= MAX_JUNCTIONS ==> made is None,
    {
        if self.interior.len() >= MAX_JUNCTIONS {
            return None;
        }
        let mut interior = copy_junctions(&self.interior);
        interior.push(junction);
        Some(Location { parents: self.parents, interior })
    }
}

} // verus!
