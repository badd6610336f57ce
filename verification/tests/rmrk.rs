use foreign_assets::rmrk::{
    base, base_parts, find_theme, part, theme, theme_names, NftType, RmrkBaseInfo,
    RmrkEquippableList, RmrkFixedPart, RmrkPartType, RmrkSlotPart, RmrkTheme, RmrkThemeProperty,
    TokenRecord,
};

fn record(kind: Option<NftType>) -> TokenRecord {
    TokenRecord {
        nft_type: kind,
        external_part_id: Some(1),
        src: Some(b"ipfs://x".to_vec()),
        z_index: Some(2),
        equippable_list: Some(RmrkEquippableList::Custom(vec![3, 4])),
        theme_name: Some(b"dark".to_vec()),
    }
}

#[test]
fn a_base_is_reported_with_its_issuer() {
    assert_eq!(base::<u64>(None), None);
    assert_eq!(
        base(Some((5u64, b"svg".to_vec(), b"SYM".to_vec()))),
        Some(RmrkBaseInfo { issuer: 5, base_type: b"svg".to_vec(), symbol: b"SYM".to_vec() })
    );
}

#[test]
fn a_token_is_a_part_where_all_of_the_part_can_be_read() {
    assert_eq!(
        part(record(Some(NftType::FixedPart))),
        Some(RmrkPartType::FixedPart(RmrkFixedPart { id: 1, z: 2, src: b"ipfs://x".to_vec() }))
    );
    assert_eq!(
        part(record(Some(NftType::SlotPart))),
        Some(RmrkPartType::SlotPart(RmrkSlotPart {
            id: 1,
            equippable: RmrkEquippableList::Custom(vec![3, 4]),
            src: b"ipfs://x".to_vec(),
            z: 2,
        }))
    );
    assert_eq!(part(record(Some(NftType::Regular))), None);
    assert_eq!(part(record(Some(NftType::Theme))), None);
    assert_eq!(part(record(None)), None);
    assert_eq!(part(TokenRecord { src: None, ..record(Some(NftType::FixedPart)) }), None);
    assert_eq!(part(TokenRecord { z_index: None, ..record(Some(NftType::FixedPart)) }), None);
    assert_eq!(
        part(TokenRecord { external_part_id: None, ..record(Some(NftType::SlotPart)) }),
        None
    );
    assert_eq!(
        part(TokenRecord { equippable_list: None, ..record(Some(NftType::SlotPart)) }),
        None
    );
    assert!(part(TokenRecord { equippable_list: None, ..record(Some(NftType::FixedPart)) })
        .is_some());
}

#[test]
fn the_parts_of_a_base_come_in_the_order_of_its_tokens() {
    assert_eq!(base_parts(None), vec![]);
    assert_eq!(base_parts(Some(vec![])), vec![]);
    let records = vec![
        record(Some(NftType::Theme)),
        TokenRecord { external_part_id: Some(10), ..record(Some(NftType::SlotPart)) },
        record(None),
        TokenRecord { external_part_id: Some(11), ..record(Some(NftType::FixedPart)) },
        TokenRecord { src: None, ..record(Some(NftType::FixedPart)) },
    ];
    let parts = base_parts(Some(records));
    assert_eq!(parts.len(), 2);
    assert!(matches!(&parts[0], RmrkPartType::SlotPart(slot) if slot.id == 10));
    assert!(matches!(&parts[1], RmrkPartType::FixedPart(fixed) if fixed.id == 11));
}

#[test]
fn the_theme_names_of_a_base() {
    assert_eq!(theme_names(None), Vec::<Vec<u8>>::new());
    let records = vec![
        record(Some(NftType::FixedPart)),
        TokenRecord { theme_name: Some(b"light".to_vec()), ..record(Some(NftType::Theme)) },
        TokenRecord { theme_name: None, ..record(Some(NftType::Theme)) },
        record(Some(NftType::Theme)),
        record(None),
    ];
    assert_eq!(theme_names(Some(records)), vec![b"light".to_vec(), b"dark".to_vec()]);
}

#[test]
fn a_theme_is_found_by_its_name() {
    let records = Some(vec![
        record(Some(NftType::FixedPart)),
        TokenRecord { theme_name: Some(b"light".to_vec()), ..record(Some(NftType::Theme)) },
        record(Some(NftType::Theme)),
        record(Some(NftType::Theme)),
    ]);
    assert_eq!(find_theme(&records, &b"dark".to_vec()), Some(2));
    assert_eq!(find_theme(&records, &b"light".to_vec()), Some(1));
    assert_eq!(find_theme(&records, &b"darker".to_vec()), None);
    assert_eq!(find_theme(&records, &b"dar".to_vec()), None);
    assert_eq!(find_theme(&None, &b"dark".to_vec()), None);
    assert_eq!(find_theme(&Some(vec![record(Some(NftType::SlotPart))]), &b"dark".to_vec()), None);
}

#[test]
fn a_theme_is_reported_with_its_properties() {
    let properties = vec![RmrkThemeProperty { key: b"k".to_vec(), value: b"v".to_vec() }];
    assert_eq!(
        theme(b"dark".to_vec(), properties, true),
        RmrkTheme {
            name: b"dark".to_vec(),
            properties: vec![RmrkThemeProperty { key: b"k".to_vec(), value: b"v".to_vec() }],
            inherit: true,
        }
    );
}
