use vstd::prelude::*;

verus! {

/// Why a token was reported to the curator.
#[derive(Clone, Copy, Debug, PartialEq, Eq, Structural)]
pub enum ReportReason {
    NotReported,
    Illegal,
    Plagiarism,
    Duplicate,
    Reported,
}

/// Per-token sidecar state kept next to the asset registry's record.
#[derive(Clone, Copy, Debug, PartialEq, Eq, Structural)]
pub struct ExtendedInfo {
    pub display_flag: bool,
    pub report: ReportReason,
    pub frozen: bool,
}

impl ExtendedInfo {
    /// The record that stands for a token without stored extended info.
    pub open spec fn spec_default() -> ExtendedInfo {
        ExtendedInfo { display_flag: false, report: ReportReason::NotReported, frozen: false }
    }

    /// Materializes the default record.
    pub fn default_info() -> (r: ExtendedInfo)
        ensures
            r == ExtendedInfo::spec_default(),
    {
        ExtendedInfo { display_flag: false, report: ReportReason::NotReported, frozen: false }
    }
}

/// Opaque data attached to a collection.
#[derive(Clone, Copy, Debug, PartialEq, Eq, Structural, Default)]
pub struct ClassData {}

/// Opaque data attached to a token.
#[derive(Clone, Copy, Debug, PartialEq, Eq, Structural, Default)]
pub struct TokenData {}

/// Who submits a call: the privileged root authority or a signed account.
#[derive(Clone, Copy, Debug, PartialEq, Eq, Structural)]
pub enum Origin {
    Root,
    Signed(u64),
}

/// Why a call was rejected. A rejected call changes nothing.
#[derive(Clone, Copy, Debug, PartialEq, Eq, Structural)]
pub enum Error {
    /// The origin has not the required kind (signed or root).
    BadOrigin,
    /// Collection doesn't exist.
    CollectionNotFound,
    /// Token doesn't exist.
    TokenNotFound,
    /// Offer doesn't exist.
    OfferNotFound,
    /// Sender should equal token owner.
    MustBeTokenOwner,
    /// Sender should be collection owner.
    MustBeCollectionOwner,
    /// Sender should be collection owner or curator.
    MustBeCollectionOwnerOrCurator,
    /// Sender should be curator.
    MustBeCurator,
    /// Specified amount is above sender balance.
    BalanceNotEnough,
    /// Token is frozen for a swap.
    TokenFrozen,
    /// The registry has no collection id left to allocate.
    NoAvailableClassId,
    /// The registry has no token id left to allocate in the collection.
    NoAvailableTokenId,
    /// The registry refuses the operation to an account that does not own the token.
    NoPermission,
    /// The ledger cannot reserve more than the free balance.
    InsufficientBalance,
    /// A balance would exceed its largest value.
    Overflow,
}

/// What a successful call records in the event log.
#[derive(Clone, Copy, Debug, PartialEq, Eq, Structural)]
pub enum Event {
    CollectionCreated(u32),
    NFTCreated(u32, u32),
    NFTBurned(u32, u32),
    Transfer(u32, u32, u64),
    OfferCreated(u32, u32, u128, u64),
    AcceptOffer(u32, u32, u64, u64),
    CancelOffer(u32, u32, u64),
    AppreciationReceived(u32, u32, u128),
    ToggleDisplay(bool),
    ArtReported(u32, u32, ReportReason),
    ArtReportAccepted(u32, u32),
    ArtReportCleared(u32, u32),
    CuratorSet(u64),
}

/// Number of distinct token ids within a collection.
pub const TOKEN_ID_SPAN: u64 = 0x1_0000_0000;

/// The single storage key of token `t` in collection `c`.
pub open spec fn token_key(c: u32, t: u32) -> u64 {
    (c as int * 0x1_0000_0000 + t as int) as u64
}

/// Distinct tokens have distinct storage keys.
pub proof fn lemma_token_key_injective(c1: u32, t1: u32, c2: u32, t2: u32)
    ensures
        token_key(c1, t1) == token_key(c2, t2) ==> c1 == c2 && t1 == t2,
{
    let a = c1 as int * 0x1_0000_0000 + t1 as int;
    let b = c2 as int * 0x1_0000_0000 + t2 as int;
    assert(0 <= a < 0x1_0000_0000_0000_0000 && 0 <= b < 0x1_0000_0000_0000_0000) by (nonlinear_arith)
        requires
            a == c1 as int * 0x1_0000_0000 + t1 as int,
            b == c2 as int * 0x1_0000_0000 + t2 as int,
            0 <= c1 < 0x1_0000_0000,
            0 <= t1 < 0x1_0000_0000,
            0 <= c2 < 0x1_0000_0000,
            0 <= t2 < 0x1_0000_0000,
    ;
    if a == b {
        assert(c1 == c2 && t1 == t2) by (nonlinear_arith)
            requires
                a == c1 as int * 0x1_0000_0000 + t1 as int,
                b == c2 as int * 0x1_0000_0000 + t2 as int,
                a == b,
                0 <= t1 < 0x1_0000_0000,
                0 <= t2 < 0x1_0000_0000,
        ;
    }
}

/// Computes the storage key of a token.
pub fn make_token_key(c: u32, t: u32) -> (k: u64)
    ensures
        k == token_key(c, t),
{
    assert(c as u64 * TOKEN_ID_SPAN + t as u64 <= u64::MAX) by (nonlinear_arith)
        requires
            c <= 0xffff_ffffu32,
            t <= 0xffff_ffffu32,
            TOKEN_ID_SPAN == 0x1_0000_0000,
    ;
    c as u64 * TOKEN_ID_SPAN + t as u64
}

} // verus!
