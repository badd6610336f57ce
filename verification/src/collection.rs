//! The settings of a collection: its mode, its sponsorship and its limits.
//!
//! Most limits are optional. A limit that is not set stands for the chain's
//! default, and no limit is ever effective beyond the chain's maximum.

use vstd::prelude::*;
use crate::bounded::{
    set_clone,
    set_contains,
    set_members,
    set_new,
    set_try_insert,
    CollectionSet,
    MAX_RESTRICTED_COLLECTIONS,
};
use crate::ids::{CollectionId, TokenId};

verus! {

/// Maximum of decimal points.
pub const MAX_DECIMAL_POINTS: u8 = 30;

/// Maximum pieces for a refungible token.
pub const MAX_REFUNGIBLE_PIECES: u128 = 1_000_000_000_000_000_000_000;

/// The longest timeout of a sponsorship, in blocks.
pub const MAX_SPONSOR_TIMEOUT: u32 = 10_368_000;

/// Maximum tokens for a user.
pub const MAX_TOKEN_OWNERSHIP: u32 = 100_000;

/// Maximum number of collections.
pub const COLLECTION_NUMBER_LIMIT: u32 = 100_000;

/// Maximum size of the custom data of a token.
pub const CUSTOM_DATA_LIMIT: u32 = 2048;

/// Maximum admins per collection.
pub const COLLECTION_ADMINS_LIMIT: u32 = 5;

/// Maximum tokens per collection.
pub const COLLECTION_TOKEN_LIMIT: u32 = 0xffff_ffff;

/// Default number of tokens per account.
pub const ACCOUNT_TOKEN_OWNERSHIP_LIMIT: u32 = 1_000_000;

/// Default timeout for transfer sponsoring of an NFT item.
pub const NFT_SPONSOR_TRANSFER_TIMEOUT: u32 = 5;

/// Default timeout for transfer sponsoring of a fungible item.
pub const FUNGIBLE_SPONSOR_TRANSFER_TIMEOUT: u32 = 5;

/// Default timeout for transfer sponsoring of a refungible item.
pub const REFUNGIBLE_SPONSOR_TRANSFER_TIMEOUT: u32 = 5;

/// Default timeout for sponsored approving.
pub const SPONSOR_APPROVE_TIMEOUT: u32 = 5;

/// The smaller of two numbers.
pub open spec fn min_u32(a: u32, b: u32) -> u32 {
    if a <= b {
        a
    } else {
        b
    }
}

/// The smaller of two numbers.
fn at_most(value: u32, limit: u32) -> (least: u32)
    ensures
        least == min_u32(value, limit),
{
    if value <= limit {
        value
    } else {
        limit
    }
}

/// Marks an overflow.
#[derive(Clone, Copy, Debug, PartialEq, Eq, Structural)]
pub struct OverflowError;

impl OverflowError {
    /// The text that names the error.
    pub fn message(&self) -> (text: &'static str)
        ensures
            text@ == "overflow occured"@,
    {
        "overflow occured"
    }
}

/// The kind of tokens that a collection holds.
#[derive(Clone, Copy, Debug, PartialEq, Eq, Structural)]
pub enum CollectionMode {
    /// Non fungible tokens.
    NFT,
    /// Fungible tokens, with their number of decimal points.
    Fungible(u8),
    /// Refungible tokens.
    ReFungible,
}

impl CollectionMode {
    /// The number that stands for the mode.
    pub open spec fn spec_id(&self) -> u8 {
        match self {
            CollectionMode::NFT => 1,
            CollectionMode::Fungible(_) => 2,
            CollectionMode::ReFungible => 3,
        }
    }

    /// The number that stands for the mode.
    #[verifier::when_used_as_spec(spec_id)]
    pub fn id(&self) -> (number: u8)
        ensures
            number == self.spec_id(),
    {
        match self {
            CollectionMode::NFT => 1,
            CollectionMode::Fungible(_) => 2,
            CollectionMode::ReFungible => 3,
        }
    }
}

/// Finds who pays for a call, if anyone does.
pub trait SponsoringResolve<AccountId, Call> {
    fn resolve(who: &AccountId, call: &Call) -> Option<AccountId>;
}

/// Access mode for some token operations.
#[derive(Clone, Copy, Debug, PartialEq, Eq, Structural)]
pub enum AccessMode {
    /// Access is granted to the owner and the admins.
    Normal,
    /// As `Normal`, and to the users in the allow list.
    AllowList,
}

impl Default for AccessMode {
    fn default() -> (mode: AccessMode)
        ensures
            mode == AccessMode::Normal,
    {
        AccessMode::Normal
    }
}

/// The version of a collection's schema.
#[derive(Clone, Copy, Debug, PartialEq, Eq, Structural)]
pub enum SchemaVersion {
    ImageURL,
    Unique,
}

impl Default for SchemaVersion {
    fn default() -> (version: SchemaVersion)
        ensures
            version == SchemaVersion::ImageURL,
    {
        SchemaVersion::ImageURL
    }
}

/// A share of a token and its owner.
#[derive(Clone, Debug, PartialEq)]
pub struct Ownership<AccountId> {
    pub owner: AccountId,
    pub fraction: u128,
}

/// The state of collection sponsorship.
#[derive(Clone, Debug, PartialEq)]
pub enum SponsorshipState<AccountId> {
    /// The fees are applied to the transaction sender.
    Disabled,
    /// The sponsor is under consideration. Until the sponsor consents, the
    /// fee is still charged to the sender.
    Unconfirmed(AccountId),
    /// Transactions are sponsored by the given account.
    Confirmed(AccountId),
}

impl<AccountId> SponsorshipState<AccountId> {
    /// The sponsor who has confirmed, if any.
    pub open spec fn spec_sponsor(&self) -> Option<&AccountId> {
        match self {
            SponsorshipState::Confirmed(sponsor) => Some(sponsor),
            _ => None,
        }
    }

    /// The sponsor who has confirmed, if any.
    #[verifier::when_used_as_spec(spec_sponsor)]
    pub fn sponsor(&self) -> (found: Option<&AccountId>)
        ensures
            found == self.spec_sponsor(),
    {
        match self {
            SponsorshipState::Confirmed(sponsor) => Some(sponsor),
            _ => None,
        }
    }

    /// The sponsor, confirmed or not, if any.
    pub open spec fn spec_pending_sponsor(&self) -> Option<&AccountId> {
        match self {
            SponsorshipState::Unconfirmed(sponsor) => Some(sponsor),
            SponsorshipState::Confirmed(sponsor) => Some(sponsor),
            SponsorshipState::Disabled => None,
        }
    }

    /// The sponsor, confirmed or not, if any.
    #[verifier::when_used_as_spec(spec_pending_sponsor)]
    pub fn pending_sponsor(&self) -> (found: Option<&AccountId>)
        ensures
            found == self.spec_pending_sponsor(),
    {
        match self {
            SponsorshipState::Unconfirmed(sponsor) | SponsorshipState::Confirmed(sponsor) => Some(
                sponsor,
            ),
            _ => None,
        }
    }

    /// Whether the sponsorship is confirmed.
    pub fn confirmed(&self) -> (yes: bool)
        ensures
            yes == (self is Confirmed),
    {
        match self {
            SponsorshipState::Confirmed(_) => true,
            _ => false,
        }
    }
}

impl<AccountId> Default for SponsorshipState<AccountId> {
    fn default() -> (state: SponsorshipState<AccountId>)
        ensures
            state is Disabled,
    {
        SponsorshipState::Disabled
    }
}

/// The flags of a collection, as they are stored.
#[derive(Clone, Copy, Debug, PartialEq, Eq, Structural)]
pub struct CollectionFlags {
    /// Tokens in foreign collections can be transferred, but not burnt.
    pub foreign: bool,
    /// The collection supports ERC721 metadata.
    pub erc721metadata: bool,
    /// External collections cannot be managed through the chain's own calls.
    pub external: bool,
    /// Bits kept for later use.
    pub reserved: u8,
}

impl Default for CollectionFlags {
    fn default() -> (flags: CollectionFlags)
        ensures
            flags == (CollectionFlags {
                foreign: false,
                erc721metadata: false,
                external: false,
                reserved: 0,
            }),
    {
        CollectionFlags { foreign: false, erc721metadata: false, external: false, reserved: 0 }
    }
}

/// The flags of a collection, as remote calls report them.
#[derive(Clone, Copy, Debug, PartialEq, Eq, Structural)]
pub struct RpcCollectionFlags {
    /// Whether the collection is foreign.
    pub foreign: bool,
    /// Whether the collection supports ERC721 metadata.
    pub erc721metadata: bool,
}

/// How often sponsoring can occur, where it is enabled.
#[derive(Clone, Copy, Debug, PartialEq, Eq, Structural)]
pub enum SponsoringRateLimit {
    /// Sponsoring is disabled, and the sponsor does not pay for transactions.
    SponsoringDisabled,
    /// Once per this many blocks a transaction is sponsored.
    Blocks(u32),
}

/// Limits and restrictions of a collection. `None` means the chain default.
#[derive(Clone, Copy, Debug, PartialEq, Eq, Structural)]
pub struct CollectionLimits {
    /// How many tokens a user can have on one account.
    pub account_token_ownership_limit: Option<u32>,
    /// How many bytes of data are available for sponsorship.
    pub sponsored_data_size: Option<u32>,
    /// How often the setting of data is sponsored.
    pub sponsored_data_rate_limit: Option<SponsoringRateLimit>,
    /// How many tokens can be minted into the collection.
    pub token_limit: Option<u32>,
    /// Timeout for transfer sponsoring, in blocks.
    pub sponsor_transfer_timeout: Option<u32>,
    /// Timeout for sponsoring an approval, in blocks.
    pub sponsor_approve_timeout: Option<u32>,
    /// Whether the owner of the collection can send tokens of other users.
    pub owner_can_transfer: Option<bool>,
    /// Whether the owner of the collection can burn tokens of other users.
    pub owner_can_destroy: Option<bool>,
    /// Whether tokens of the collection can be sent between users.
    pub transfers_enabled: Option<bool>,
}

impl Default for CollectionLimits {
    fn default() -> (limits: CollectionLimits)
        ensures
            limits == (CollectionLimits {
                account_token_ownership_limit: None,
                sponsored_data_size: None,
                sponsored_data_rate_limit: None,
                token_limit: None,
                sponsor_transfer_timeout: None,
                sponsor_approve_timeout: None,
                owner_can_transfer: None,
                owner_can_destroy: None,
                transfers_enabled: None,
            }),
    {
        CollectionLimits {
            account_token_ownership_limit: None,
            sponsored_data_size: None,
            sponsored_data_rate_limit: None,
            token_limit: None,
            sponsor_transfer_timeout: None,
            sponsor_approve_timeout: None,
            owner_can_transfer: None,
            owner_can_destroy: None,
            transfers_enabled: None,
        }
    }
}

impl CollectionLimits {
    /// The limits with every default written out, for a collection of the
    /// given mode.
    pub fn with_default_limits(collection_type: CollectionMode) -> (limits: CollectionLimits)
        ensures
            limits == (CollectionLimits {
                account_token_ownership_limit: Some(ACCOUNT_TOKEN_OWNERSHIP_LIMIT),
                sponsored_data_size: Some(CUSTOM_DATA_LIMIT),
                sponsored_data_rate_limit: Some(SponsoringRateLimit::SponsoringDisabled),
                token_limit: Some(COLLECTION_TOKEN_LIMIT),
                sponsor_transfer_timeout: Some(
                    match collection_type {
                        CollectionMode::NFT => NFT_SPONSOR_TRANSFER_TIMEOUT,
                        CollectionMode::ReFungible => REFUNGIBLE_SPONSOR_TRANSFER_TIMEOUT,
                        CollectionMode::Fungible(_) => FUNGIBLE_SPONSOR_TRANSFER_TIMEOUT,
                    },
                ),
                sponsor_approve_timeout: Some(SPONSOR_APPROVE_TIMEOUT),
                owner_can_transfer: Some(false),
                owner_can_destroy: Some(true),
                transfers_enabled: Some(true),
            }),
    {
        CollectionLimits {
            account_token_ownership_limit: Some(ACCOUNT_TOKEN_OWNERSHIP_LIMIT),
            sponsored_data_size: Some(CUSTOM_DATA_LIMIT),
            sponsored_data_rate_limit: Some(SponsoringRateLimit::SponsoringDisabled),
            token_limit: Some(COLLECTION_TOKEN_LIMIT),
            sponsor_transfer_timeout: match collection_type {
                CollectionMode::NFT => Some(NFT_SPONSOR_TRANSFER_TIMEOUT),
                CollectionMode::ReFungible => Some(REFUNGIBLE_SPONSOR_TRANSFER_TIMEOUT),
                CollectionMode::Fungible(_) => Some(FUNGIBLE_SPONSOR_TRANSFER_TIMEOUT),
            },
            sponsor_approve_timeout: Some(SPONSOR_APPROVE_TIMEOUT),
            owner_can_transfer: Some(false),
            owner_can_destroy: Some(true),
            transfers_enabled: Some(true),
        }
    }

    /// The effective number of tokens that a user can have on one account.
    pub fn account_token_ownership_limit(&self) -> (limit: u32)
        ensures
            limit == min_u32(
                match self.account_token_ownership_limit {
                    Some(set) => set,
                    None => ACCOUNT_TOKEN_OWNERSHIP_LIMIT,
                },
                MAX_TOKEN_OWNERSHIP,
            ),
    {
        at_most(
            match self.account_token_ownership_limit {
                Some(set) => set,
                None => ACCOUNT_TOKEN_OWNERSHIP_LIMIT,
            },
            MAX_TOKEN_OWNERSHIP,
        )
    }

    /// The effective number of bytes that are available for sponsorship.
    pub fn sponsored_data_size(&self) -> (size: u32)
        ensures
            size == min_u32(
                match self.sponsored_data_size {
                    Some(set) => set,
                    None => CUSTOM_DATA_LIMIT,
                },
                CUSTOM_DATA_LIMIT,
            ),
    {
        at_most(
            match self.sponsored_data_size {
                Some(set) => set,
                None => CUSTOM_DATA_LIMIT,
            },
            CUSTOM_DATA_LIMIT,
        )
    }

    /// The effective number of tokens that the collection can hold.
    pub fn token_limit(&self) -> (limit: u32)
        ensures
            limit == min_u32(
                match self.token_limit {
                    Some(set) => set,
                    None => COLLECTION_TOKEN_LIMIT,
                },
                COLLECTION_TOKEN_LIMIT,
            ),
    {
        at_most(
            match self.token_limit {
                Some(set) => set,
                None => COLLECTION_TOKEN_LIMIT,
            },
            COLLECTION_TOKEN_LIMIT,
        )
    }

    /// The effective timeout for transfer sponsoring, where `default` is
    /// that of the collection's mode.
    pub fn sponsor_transfer_timeout(&self, default: u32) -> (timeout: u32)
        ensures
            timeout == min_u32(
                match self.sponsor_transfer_timeout {
                    Some(set) => set,
                    None => default,
                },
                MAX_SPONSOR_TIMEOUT,
            ),
    {
        at_most(
            match self.sponsor_transfer_timeout {
                Some(set) => set,
                None => default,
            },
            MAX_SPONSOR_TIMEOUT,
        )
    }

    /// The effective timeout for sponsoring an approval.
    pub fn sponsor_approve_timeout(&self) -> (timeout: u32)
        ensures
            timeout == min_u32(
                match self.sponsor_approve_timeout {
                    Some(set) => set,
                    None => SPONSOR_APPROVE_TIMEOUT,
                },
                MAX_SPONSOR_TIMEOUT,
            ),
    {
        at_most(
            match self.sponsor_approve_timeout {
                Some(set) => set,
                None => SPONSOR_APPROVE_TIMEOUT,
            },
            MAX_SPONSOR_TIMEOUT,
        )
    }

    /// Whether the owner of the collection can send tokens of other users.
    pub fn owner_can_transfer(&self) -> (allowed: bool)
        ensures
            allowed == (self.owner_can_transfer == Some(true)),
    {
        match self.owner_can_transfer {
            Some(set) => set,
            None => false,
        }
    }

    /// Whether it was ever set if the owner can send tokens of other users.
    pub fn owner_can_transfer_instaled(&self) -> (set: bool)
        ensures
            set == (self.owner_can_transfer is Some),
    {
        self.owner_can_transfer.is_some()
    }

    /// Whether the owner of the collection can burn tokens of other users.
    pub fn owner_can_destroy(&self) -> (allowed: bool)
        ensures
            allowed == (self.owner_can_destroy != Some(false)),
    {
        match self.owner_can_destroy {
            Some(set) => set,
            None => true,
        }
    }

    /// Whether tokens of the collection can be sent between users.
    pub fn transfers_enabled(&self) -> (enabled: bool)
        ensures
            enabled == (self.transfers_enabled != Some(false)),
    {
        match self.transfers_enabled {
            Some(set) => set,
            None => true,
        }
    }

    /// The effective number of blocks between two sponsored settings of
    /// data, or `None` where sponsoring is disabled.
    pub fn sponsored_data_rate_limit(&self) -> (blocks: Option<u32>)
        ensures
            blocks == (match self.sponsored_data_rate_limit {
                Some(SponsoringRateLimit::Blocks(set)) => Some(min_u32(set, MAX_SPONSOR_TIMEOUT)),
                _ => None,
            }),
    {
        match self.sponsored_data_rate_limit {
            Some(SponsoringRateLimit::Blocks(set)) => Some(at_most(set, MAX_SPONSOR_TIMEOUT)),
            _ => None,
        }
    }
}

/// Data used to describe a fungible token at creation.
#[derive(Clone, Copy, Debug, PartialEq, Eq, Structural)]
pub struct CreateFungibleData {
    /// Number of fungible coins minted.
    pub value: u128,
}

impl Default for CreateFungibleData {
    fn default() -> (data: CreateFungibleData)
        ensures
            data == (CreateFungibleData { value: 0 }),
    {
        CreateFungibleData { value: 0 }
    }
}

/// Who may update the metadata of a token.
#[derive(Clone, Copy, Debug, PartialEq, Eq, Structural)]
pub enum MetaUpdatePermission {
    ItemOwner,
    Admin,
    Nobody,
}

/// A token's address: its collection and its own identifier.
#[derive(Clone, Copy, Debug, PartialEq, Eq, Structural)]
pub struct TokenChild {
    /// Token id.
    pub token: TokenId,
    /// Collection id.
    pub collection: CollectionId,
}

/// Collection statistics.
#[derive(Clone, Copy, Debug, PartialEq, Eq, Structural)]
pub struct CollectionStats {
    /// Number of created items.
    pub created: u32,
    /// Number of burned items.
    pub destroyed: u32,
    /// Number of current items.
    pub alive: u32,
}

/// A marker for a type that takes no space.
#[derive(Debug)]
pub struct PhantomType<T>(core::marker::PhantomData<T>);

/// Why the owner of a token could not be told.
#[derive(Clone, Copy, Debug, PartialEq, Eq, Structural)]
pub enum TokenOwnerError {
    NotFound,
    MultipleOwners,
}

/// The collections whose tokens may be nested under the tokens of a
/// collection: at most `MAX_RESTRICTED_COLLECTIONS` of them.
#[derive(Debug, PartialEq, Eq)]
pub struct OwnerRestrictedSet {
    set: CollectionSet,
}

impl View for OwnerRestrictedSet {
    type V = Set<CollectionId>;

    closed spec fn view(&self) -> Set<CollectionId> {
        Set::new(|collection: CollectionId| set_members(self.set).contains(collection.0))
    }
}

impl OwnerRestrictedSet {
    /// The set names finitely many collections.
    pub closed spec fn wf(&self) -> bool {
        set_members(self.set).finite()
    }

    /// The number of collections that the set names.
    pub closed spec fn spec_len(&self) -> nat {
        set_members(self.set).len()
    }

    /// A set that names no collection.
    pub fn new() -> (set: OwnerRestrictedSet)
        ensures
            set.wf(),
            set@ == Set::<CollectionId>::empty(),
            set.spec_len() == 0,
    {
        let set = OwnerRestrictedSet { set: set_new() };
        assert(set@ =~= Set::<CollectionId>::empty());
        set
    }

    /// Whether the set names `collection`.
    pub fn contains(&self, collection: CollectionId) -> (found: bool)
        ensures
            found == self@.contains(collection),
    {
        set_contains(&self.set, collection.0)
    }

    /// Adds `collection` to the set, and says whether it is new to it.
    /// Where the set is full and does not name the collection, nothing
    /// changes and the collection comes back.
    pub fn try_insert(&mut self, collection: CollectionId) -> (done: Result<bool, CollectionId>)
        requires
            old(self).wf(),
        ensures
            final(self).wf(),
            match done {
                Ok(added) => {
                    &&& old(self).spec_len() < MAX_RESTRICTED_COLLECTIONS || old(self)@.contains(
                        collection,
                    )
                    &&& final(self)@ == old(self)@.insert(collection)
                    &&& added == !old(self)@.contains(collection)
                    &&& final(self).spec_len() == old(self).spec_len() + if added {
                        1nat
                    } else {
                        0nat
                    }
                },
                Err(refused) => {
                    &&& old(self).spec_len() >= MAX_RESTRICTED_COLLECTIONS
                    &&& !old(self)@.contains(collection)
                    &&& final(self)@ == old(self)@
                    &&& final(self).spec_len() == old(self).spec_len()
                    &&& refused == collection
                },
            },
    {
        match set_try_insert(&mut self.set, collection.0) {
            Ok(added) => {
                assert(self@ =~= old(self)@.insert(collection));
                Ok(added)
            },
            Err(_) => Err(collection),
        }
    }
}

impl Clone for OwnerRestrictedSet {
    fn clone(&self) -> (copy: OwnerRestrictedSet)
        ensures
            copy@ == self@,
            copy.wf() == self.wf(),
            copy.spec_len() == self.spec_len(),
    {
        OwnerRestrictedSet { set: set_clone(&self.set) }
    }
}

/// What the permissions for nesting are.
pub struct NestingPermissionsView {
    pub token_owner: bool,
    pub collection_admin: bool,
    pub restricted: Option<Set<CollectionId>>,
}

/// Who may nest tokens under the tokens of a collection.
#[derive(Debug, PartialEq, Eq)]
pub struct NestingPermissions {
    /// The owner of a token can nest tokens under it.
    pub token_owner: bool,
    /// The administrators of the collection can nest tokens under a token.
    pub collection_admin: bool,
    /// If set, only tokens of these collections can be nested.
    pub restricted: Option<OwnerRestrictedSet>,
}

impl View for NestingPermissions {
    type V = NestingPermissionsView;

    open spec fn view(&self) -> NestingPermissionsView {
        NestingPermissionsView {
            token_owner: self.token_owner,
            collection_admin: self.collection_admin,
            restricted: match self.restricted {
                Some(set) => Some(set@),
                None => None,
            },
        }
    }
}

impl Clone for NestingPermissions {
    fn clone(&self) -> (copy: NestingPermissions)
        ensures
            copy@ == self@,
    {
        NestingPermissions {
            token_owner: self.token_owner,
            collection_admin: self.collection_admin,
            restricted: match &self.restricted {
                Some(set) => Some(set.clone()),
                None => None,
            },
        }
    }
}

/// What the permissions of a collection are.
pub struct CollectionPermissionsView {
    pub access: Option<AccessMode>,
    pub mint_mode: Option<bool>,
    pub nesting: Option<NestingPermissionsView>,
}

/// Permissions on certain operations within a collection. `None` means the
/// chain default.
#[derive(Debug, PartialEq, Eq)]
pub struct CollectionPermissions {
    /// Access mode.
    pub access: Option<AccessMode>,
    /// Whether anyone in the allow list may mint.
    pub mint_mode: Option<bool>,
    /// Permissions for nesting.
    pub nesting: Option<NestingPermissions>,
}

impl View for CollectionPermissions {
    type V = CollectionPermissionsView;

    open spec fn view(&self) -> CollectionPermissionsView {
        CollectionPermissionsView {
            access: self.access,
            mint_mode: self.mint_mode,
            nesting: match self.nesting {
                Some(nesting) => Some(nesting@),
                None => None,
            },
        }
    }
}

impl Default for CollectionPermissions {
    fn default() -> (permissions: CollectionPermissions)
        ensures
            permissions@ == (CollectionPermissionsView {
                access: None,
                mint_mode: None,
                nesting: None,
            }),
    {
        CollectionPermissions { access: None, mint_mode: None, nesting: None }
    }
}

/// The permissions for nesting of a collection that has set none: nobody may
/// nest, and no collection is singled out.
pub open spec fn default_nesting() -> NestingPermissionsView {
    NestingPermissionsView { token_owner: false, collection_admin: false, restricted: None }
}

impl CollectionPermissions {
    /// The effective access mode.
    pub fn access(&self) -> (mode: AccessMode)
        ensures
            mode == (match self.access {
                Some(set) => set,
                None => AccessMode::Normal,
            }),
    {
        match self.access {
            Some(set) => set,
            None => AccessMode::Normal,
        }
    }

    /// Whether anyone in the allow list may mint.
    pub fn mint_mode(&self) -> (allowed: bool)
        ensures
            allowed == (self.mint_mode == Some(true)),
    {
        match self.mint_mode {
            Some(set) => set,
            None => false,
        }
    }

    /// The effective permissions for nesting.
    pub fn nesting(&self) -> (nesting: NestingPermissions)
        ensures
            nesting@ == (match self@.nesting {
                Some(set) => set,
                None => default_nesting(),
            }),
    {
        match &self.nesting {
            Some(set) => set.clone(),
            None => NestingPermissions {
                token_owner: false,
                collection_admin: false,
                restricted: None,
            },
        }
    }
}

} // verus!
