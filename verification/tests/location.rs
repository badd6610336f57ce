use foreign_assets::location::{
    bytes_equal, frame_location, network_equal, Junction, Location, MAX_JUNCTIONS,
};
use parity_scale_codec::Encode;
use staging_xcm::v3::Junction as X;
use staging_xcm::v3::{BodyId, BodyPart, Junctions, MultiLocation, NetworkId};

#[test]
fn byte_arrays_compare_by_content() {
    assert!(bytes_equal(&[1u8, 2, 3], &[1u8, 2, 3]));
    assert!(!bytes_equal(&[1u8, 2, 3], &[1u8, 2, 4]));
    assert!(bytes_equal::<0>(&[], &[]));
}

#[test]
fn optional_networks_compare_by_variant_and_content() {
    let hash = [0u8; 32];
    let mut other = hash;
    other[31] = 1;
    let all = [
        None,
        Some(NetworkId::Polkadot),
        Some(NetworkId::Kusama),
        Some(NetworkId::ByGenesis(hash)),
        Some(NetworkId::ByGenesis(other)),
        Some(NetworkId::ByFork { block_number: 5, block_hash: hash }),
        Some(NetworkId::ByFork { block_number: 6, block_hash: hash }),
        Some(NetworkId::Ethereum { chain_id: 1 }),
        Some(NetworkId::Ethereum { chain_id: 2 }),
    ];
    for (i, a) in all.iter().enumerate() {
        for (j, b) in all.iter().enumerate() {
            assert_eq!(network_equal(a, b), i == j);
        }
    }
}

#[test]
fn junctions_compare_by_variant_and_content() {
    let all = [
        Junction::Parachain(1),
        Junction::Parachain(2),
        Junction::AccountId32 { network: None, id: [7; 32] },
        Junction::AccountId32 { network: Some(NetworkId::Kusama), id: [7; 32] },
        Junction::AccountIndex64 { network: None, index: 1 },
        Junction::AccountKey20 { network: None, key: [1; 20] },
        Junction::PalletInstance(1),
        Junction::GeneralIndex(1),
        Junction::GeneralIndex(u128::MAX),
        Junction::GeneralKey { length: 1, data: [1; 32] },
        Junction::GeneralKey { length: 2, data: [1; 32] },
        Junction::OnlyChild,
        Junction::Plurality { id: BodyId::Unit, part: BodyPart::Voice },
        Junction::Plurality { id: BodyId::Unit, part: BodyPart::Members { count: 1 } },
        Junction::Plurality { id: BodyId::Treasury, part: BodyPart::Voice },
        Junction::Plurality { id: BodyId::Moniker(*b"abcd"), part: BodyPart::Voice },
        Junction::Plurality { id: BodyId::Moniker(*b"abce"), part: BodyPart::Voice },
        Junction::GlobalConsensus(NetworkId::Polkadot),
        Junction::GlobalConsensus(NetworkId::Kusama),
    ];
    for (i, a) in all.iter().enumerate() {
        for (j, b) in all.iter().enumerate() {
            assert_eq!(a.equals(b), i == j);
            assert_eq!(a.equals(b), a == b);
        }
    }
}

#[test]
fn a_location_holds_at_most_eight_junctions() {
    assert_eq!(MAX_JUNCTIONS, 8);
    let eight = vec![Junction::OnlyChild; 8];
    let nine = vec![Junction::OnlyChild; 9];
    let full = Location::new(0, eight.clone()).unwrap();
    assert_eq!(full.len(), 8);
    assert_eq!(full.interior(), &eight);
    assert_eq!(full.parents(), 0);
    assert!(Location::new(0, nine).is_none());
    assert!(full.pushed_with_interior(Junction::OnlyChild).is_none());
}

#[test]
fn pushing_adds_the_junction_at_the_end() {
    let base = Location::new(1, vec![Junction::Parachain(2037)]).unwrap();
    let pushed = base.pushed_with_interior(Junction::GeneralIndex(9)).unwrap();
    assert_eq!(
        pushed,
        Location::new(1, vec![Junction::Parachain(2037), Junction::GeneralIndex(9)]).unwrap()
    );
    assert_eq!(base.len(), 1);
}

#[test]
fn here_and_ancestors() {
    assert!(Location::here().is_here());
    assert!(Location::here().equals(&Location::ancestor(0)));
    assert!(!Location::ancestor(1).is_here());
    assert!(!Location::new(0, vec![Junction::OnlyChild]).unwrap().is_here());
    assert_eq!(Location::ancestor(3).parents(), 3);
    assert_eq!(Location::ancestor(3).len(), 0);
}

#[test]
fn locations_are_equal_when_parents_and_junctions_are() {
    let a = Location::new(1, vec![Junction::Parachain(1), Junction::PalletInstance(2)]).unwrap();
    let b = Location::new(1, vec![Junction::Parachain(1), Junction::PalletInstance(2)]).unwrap();
    let other_parents =
        Location::new(2, vec![Junction::Parachain(1), Junction::PalletInstance(2)]).unwrap();
    let other_order =
        Location::new(1, vec![Junction::PalletInstance(2), Junction::Parachain(1)]).unwrap();
    let shorter = Location::new(1, vec![Junction::Parachain(1)]).unwrap();
    assert!(a.equals(&b));
    assert!(a.clone().equals(&a));
    assert!(!a.equals(&other_parents));
    assert!(!a.equals(&other_order));
    assert!(!a.equals(&shorter));
    assert!(!shorter.equals(&a));
}

#[test]
fn match_and_split_gives_the_one_junction_after_the_prefix() {
    let m = Location::new(
        0,
        vec![Junction::Parachain(2), Junction::PalletInstance(3), Junction::OnlyChild],
    )
    .unwrap();
    let two = Location::new(0, vec![Junction::Parachain(2), Junction::PalletInstance(3)]).unwrap();
    let one = Location::new(0, vec![Junction::Parachain(2)]).unwrap();
    assert_eq!(m.match_and_split(&two), Some(Junction::OnlyChild));
    assert_eq!(m.match_and_split(&one), None);
    assert_eq!(m.match_and_split(&m), None);
    assert_eq!(one.match_and_split(&Location::here()), Some(Junction::Parachain(2)));
    assert_eq!(Location::here().match_and_split(&Location::here()), None);
    let other = Location::new(0, vec![Junction::Parachain(9), Junction::PalletInstance(3)]).unwrap();
    assert_eq!(m.match_and_split(&other), None);
}

#[test]
fn match_and_split_does_not_read_the_parents() {
    let m = Location::new(1, vec![Junction::Parachain(2), Junction::GeneralIndex(7)]).unwrap();
    let prefix = Location::new(0, vec![Junction::Parachain(2)]).unwrap();
    assert_eq!(m.match_and_split(&prefix), Some(Junction::GeneralIndex(7)));
}

#[test]
fn a_location_is_encoded_as_parents_count_and_junctions() {
    assert_eq!(Location::here().encode(), vec![0, 0]);
    assert_eq!(Location::ancestor(2).encode(), vec![2, 0]);
    let sibling = Location::new(1, vec![Junction::Parachain(2037)]).unwrap();
    assert_eq!(sibling.encode(), vec![1, 1, 0, 0xd5, 0x1f]);
    let numeric =
        Location::new(1, vec![Junction::Parachain(2037), Junction::GeneralIndex(5)]).unwrap();
    assert_eq!(numeric.encode(), vec![1, 2, 0, 0xd5, 0x1f, 5, 20]);
}

#[test]
fn the_encoding_of_a_location_is_that_of_the_protocol_library() {
    let account = [7u8; 32];
    let cases: Vec<(Location, MultiLocation)> = vec![
        (Location::here(), MultiLocation::new(0, Junctions::Here)),
        (Location::ancestor(255), MultiLocation::new(255, Junctions::Here)),
        (
            Location::new(1, vec![Junction::Parachain(1000), Junction::PalletInstance(50)])
                .unwrap(),
            MultiLocation::new(1, Junctions::X2(X::Parachain(1000), X::PalletInstance(50))),
        ),
        (
            Location::new(
                0,
                vec![
                    Junction::AccountId32 { network: Some(NetworkId::Kusama), id: account },
                    Junction::AccountIndex64 { network: None, index: 1 << 40 },
                    Junction::AccountKey20 {
                        network: Some(NetworkId::Ethereum { chain_id: 1 }),
                        key: [9; 20],
                    },
                ],
            )
            .unwrap(),
            MultiLocation::new(
                0,
                Junctions::X3(
                    X::AccountId32 { network: Some(NetworkId::Kusama), id: account },
                    X::AccountIndex64 { network: None, index: 1 << 40 },
                    X::AccountKey20 {
                        network: Some(NetworkId::Ethereum { chain_id: 1 }),
                        key: [9; 20],
                    },
                ),
            ),
        ),
        (
            Location::new(
                2,
                vec![
                    Junction::GlobalConsensus(NetworkId::ByGenesis(account)),
                    Junction::GeneralKey { length: 3, data: account },
                    Junction::OnlyChild,
                    Junction::Plurality {
                        id: BodyId::Index(7),
                        part: BodyPart::Fraction { nom: 1, denom: 3 },
                    },
                    Junction::GeneralIndex(u128::MAX),
                    Junction::GeneralIndex(0),
                    Junction::Parachain(u32::MAX),
                    Junction::PalletInstance(255),
                ],
            )
            .unwrap(),
            MultiLocation::new(
                2,
                Junctions::X8(
                    X::GlobalConsensus(NetworkId::ByGenesis(account)),
                    X::GeneralKey { length: 3, data: account },
                    X::OnlyChild,
                    X::Plurality {
                        id: BodyId::Index(7),
                        part: BodyPart::Fraction { nom: 1, denom: 3 },
                    },
                    X::GeneralIndex(u128::MAX),
                    X::GeneralIndex(0),
                    X::Parachain(u32::MAX),
                    X::PalletInstance(255),
                ),
            ),
        ),
    ];
    for (own, outside) in cases {
        assert_eq!(own.encode(), outside.encode());
    }
}

#[test]
fn a_location_is_framed_from_the_encodings_of_its_junctions() {
    assert_eq!(frame_location(0, &vec![]), vec![0, 0]);
    assert_eq!(frame_location(7, &vec![vec![]]), vec![7, 1]);
    assert_eq!(
        frame_location(1, &vec![vec![0, 0xd5, 0x1f], vec![5, 20]]),
        vec![1, 2, 0, 0xd5, 0x1f, 5, 20]
    );
    assert_eq!(frame_location(0, &vec![vec![9]; 8]), [vec![0, 8], vec![9; 8]].concat());
}
