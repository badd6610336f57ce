//! Reports on the bases of composable tokens: their parts and their themes.
//!
//! A base is a collection whose tokens are parts and themes. The reports are
//! computed from what is stored about the collection and its tokens. What
//! cannot be read of a token leaves that token out of the report.

use vstd::prelude::*;

verus! {

/// What kind of thing a token of a base collection is.
#[derive(Clone, Copy, Debug, PartialEq, Eq, Structural)]
pub enum NftType {
    Regular,
    FixedPart,
    SlotPart,
    Theme,
}

/// The collections whose tokens fit a slot.
#[derive(Debug, PartialEq, Eq)]
pub enum RmrkEquippableList {
    All,
    Empty,
    Custom(Vec<u32>),
}

/// A part that is always there.
#[derive(Debug, PartialEq, Eq)]
pub struct RmrkFixedPart {
    pub id: u32,
    pub z: u32,
    pub src: Vec<u8>,
}

/// A part that other tokens can be equipped into.
#[derive(Debug, PartialEq, Eq)]
pub struct RmrkSlotPart {
    pub id: u32,
    pub equippable: RmrkEquippableList,
    pub src: Vec<u8>,
    pub z: u32,
}

/// A part of a base.
#[derive(Debug, PartialEq, Eq)]
pub enum RmrkPartType {
    FixedPart(RmrkFixedPart),
    SlotPart(RmrkSlotPart),
}

/// What a base is: its kind, its symbol and who issued it.
#[derive(Debug, PartialEq, Eq)]
pub struct RmrkBaseInfo<AccountId> {
    pub base_type: Vec<u8>,
    pub symbol: Vec<u8>,
    pub issuer: AccountId,
}

/// One property of a theme.
#[derive(Debug, PartialEq, Eq)]
pub struct RmrkThemeProperty {
    pub key: Vec<u8>,
    pub value: Vec<u8>,
}

/// A theme of a base.
#[derive(Debug, PartialEq, Eq)]
pub struct RmrkTheme {
    pub name: Vec<u8>,
    pub properties: Vec<RmrkThemeProperty>,
    pub inherit: bool,
}

/// What is stored about one token of a base collection. A field is `None`
/// where it is not stored or cannot be read.
#[derive(Debug, PartialEq, Eq)]
pub struct TokenRecord {
    pub nft_type: Option<NftType>,
    pub external_part_id: Option<u32>,
    pub src: Option<Vec<u8>>,
    pub z_index: Option<u32>,
    pub equippable_list: Option<RmrkEquippableList>,
    pub theme_name: Option<Vec<u8>>,
}

/// The part that a token is, if it is a part and all of the part can be
/// read.
pub open spec fn spec_part(record: TokenRecord) -> Option<RmrkPartType> {
    match record.nft_type {
        Some(NftType::FixedPart) => if record.external_part_id is Some && record.src is Some
            && record.z_index is Some {
            Some(
                RmrkPartType::FixedPart(
                    RmrkFixedPart {
                        id: record.external_part_id->0,
                        src: record.src->0,
                        z: record.z_index->0,
                    },
                ),
            )
        } else {
            None
        },
        Some(NftType::SlotPart) => if record.external_part_id is Some && record.src is Some
            && record.z_index is Some && record.equippable_list is Some {
            Some(
                RmrkPartType::SlotPart(
                    RmrkSlotPart {
                        id: record.external_part_id->0,
                        src: record.src->0,
                        z: record.z_index->0,
                        equippable: record.equippable_list->0,
                    },
                ),
            )
        } else {
            None
        },
        _ => None,
    }
}

/// The parts among the tokens `records`, in the order of the tokens.
pub open spec fn spec_base_parts(records: Seq<TokenRecord>) -> Seq<RmrkPartType>
    decreases records.len(),
{
    if records.len() == 0 {
        Seq::empty()
    } else {
        match spec_part(records.last()) {
            Some(part) => spec_base_parts(records.drop_last()).push(part),
            None => spec_base_parts(records.drop_last()),
        }
    }
}

/// The name of the theme that a token is, if it is a theme with a name.
pub open spec fn spec_theme_name(record: TokenRecord) -> Option<Vec<u8>> {
    match record.nft_type {
        Some(NftType::Theme) => record.theme_name,
        _ => None,
    }
}

/// The names of the themes among the tokens `records`, in the order of the
/// tokens.
pub open spec fn spec_theme_names(records: Seq<TokenRecord>) -> Seq<Vec<u8>>
    decreases records.len(),
{
    if records.len() == 0 {
        Seq::empty()
    } else {
        match spec_theme_name(records.last()) {
            Some(name) => spec_theme_names(records.drop_last()).push(name),
            None => spec_theme_names(records.drop_last()),
        }
    }
}

/// Whether the token is the theme of the name `name`.
pub open spec fn is_theme(record: TokenRecord, name: Seq<u8>) -> bool {
    spec_theme_name(record) matches Some(found) && found@ == name
}

/// The report on a base: nothing where there is no such base, else its
/// kind, its symbol and its issuer.
pub fn base<AccountId>(collection: Option<(AccountId, Vec<u8>, Vec<u8>)>) -> (info: Option<
    RmrkBaseInfo<AccountId>,
>)
    ensures
        info == (match collection {
            Some((owner, base_type, token_prefix)) => Some(
                RmrkBaseInfo { issuer: owner, base_type, symbol: token_prefix },
            ),
            None => None,
        }),
{
    match collection {
        Some((owner, base_type, token_prefix)) => Some(
            RmrkBaseInfo { issuer: owner, base_type, symbol: token_prefix },
        ),
        None => None,
    }
}

/// The part that a token is, if it is one.
pub fn part(record: TokenRecord) -> (found: Option<RmrkPartType>)
    ensures
        found == spec_part(record),
{
    match record.nft_type {
        Some(NftType::FixedPart) => match (record.external_part_id, record.src, record.z_index) {
            (Some(id), Some(src), Some(z)) => Some(
                RmrkPartType::FixedPart(RmrkFixedPart { id, src, z }),
            ),
            _ => None,
        },
        Some(NftType::SlotPart) => match (
            record.external_part_id,
            record.src,
            record.z_index,
            record.equippable_list,
        ) {
            (Some(id), Some(src), Some(z), Some(equippable)) => Some(
                RmrkPartType::SlotPart(RmrkSlotPart { id, src, z, equippable }),
            ),
            _ => None,
        },
        _ => None,
    }
}

/// All parts of a base, from the tokens of its collection: none where there
/// is no such base.
pub fn base_parts(collection: Option<Vec<TokenRecord>>) -> (parts: Vec<RmrkPartType>)
    ensures
        parts@ == (match collection {
            Some(records) => spec_base_parts(records@),
            None => Seq::empty(),
        }),
{
    let records = match collection {
        Some(records) => records,
        None => {
            return Vec::new();
        },
    };
    let ghost all = records@;
    let mut parts: Vec<RmrkPartType> = Vec::new();
    for record in it: records
        invariant
            it.seq() == all,
            parts@ == spec_base_parts(all.subrange(0, it.index() as int)),
    {
        proof {
            let head = all.subrange(0, it.index() + 1);
            assert(head.drop_last() =~= all.subrange(0, it.index() as int));
            assert(head.last() == record);
        }
        match part(record) {
            Some(found) => {
                parts.push(found);
            },
            None => {},
        }
    }
    assert(all.subrange(0, all.len() as int) =~= all);
    parts
}

/// The names of the themes of a base, from the tokens of its collection:
/// none where there is no such base.
pub fn theme_names(collection: Option<Vec<TokenRecord>>) -> (names: Vec<Vec<u8>>)
    ensures
        names@ == (match collection {
            Some(records) => spec_theme_names(records@),
            None => Seq::empty(),
        }),
{
    let records = match collection {
        Some(records) => records,
        None => {
            return Vec::new();
        },
    };
    let ghost all = records@;
    let mut names: Vec<Vec<u8>> = Vec::new();
    for record in it: records
        invariant
            it.seq() == all,
            names@ == spec_theme_names(all.subrange(0, it.index() as int)),
    {
        proof {
            let head = all.subrange(0, it.index() + 1);
            assert(head.drop_last() =~= all.subrange(0, it.index() as int));
            assert(head.last() == record);
        }
        match record.nft_type {
            Some(NftType::Theme) => match record.theme_name {
                Some(name) => {
                    names.push(name);
                },
                None => {},
            },
            _ => {},
        }
    }
    assert(all.subrange(0, all.len() as int) =~= all);
    names
}

/// Whether two byte strings are the same.
fn same_bytes(a: &Vec<u8>, b: &Vec<u8>) -> (same: bool)
    ensures
        same == (a@ == b@),
{
    if a.len() != b.len() {
        return false;
    }
    let mut i: usize = 0;
    while i < a.len()
        invariant
            i <= a.len(),
            a.len() == b.len(),
            forall|k: int| 0 <= k < i ==> a@[k] == b@[k],
        decreases a.len() - i,
    {
        if a[i] != b[i] {
            return false;
        }
        i = i + 1;
    }
    assert(a@ =~= b@);
    true
}

/// The place of the theme `theme_name` among the tokens of a base: that of
/// the first token that is a theme of that name, or nothing where there is
/// no such base or no such theme.
pub fn find_theme(collection: &Option<Vec<TokenRecord>>, theme_name: &Vec<u8>) -> (found: Option<
    usize,
>)
    ensures
        match found {
            Some(place) => collection matches Some(records) && place < records@.len() && is_theme(
                records@[place as int],
                theme_name@,
            ) && forall|k: int| 0 <= k < place ==> !is_theme(#[trigger] records@[k], theme_name@),
            None => collection matches Some(records) ==> forall|k: int|
                0 <= k < records@.len() ==> !is_theme(#[trigger] records@[k], theme_name@),
        },
{
    let records = match collection {
        Some(records) => records,
        None => {
            return None;
        },
    };
    let mut i: usize = 0;
    while i < records.len()
        invariant
            i <= records.len(),
            *collection == Some(*records),
            forall|k: int| 0 <= k < i ==> !is_theme(#[trigger] records@[k], theme_name@),
        decreases records.len() - i,
    {
        let is_it = match records[i].nft_type {
            Some(NftType::Theme) => match &records[i].theme_name {
                Some(name) => same_bytes(name, theme_name),
                None => false,
            },
            _ => false,
        };
        if is_it {
            return Some(i);
        }
        i = i + 1;
    }
    None
}

/// The report on a theme, from its name and from what is stored about the
/// token that is the theme.
pub fn theme(name: Vec<u8>, properties: Vec<RmrkThemeProperty>, inherit: bool) -> (report:
    RmrkTheme)
    ensures
        report == (RmrkTheme { name, properties, inherit }),
{
    RmrkTheme { name, properties, inherit }
}

} // verus!
