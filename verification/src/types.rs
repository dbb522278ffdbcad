//! The records the marketplace stores, the facts it is told about the rest of
//! the chain, and what it asks the rest of the chain to do.
use vstd::prelude::*;
use std::collections::BTreeMap;
use crate::asset_map::{AcceptedAssets, AssetMap};
use crate::per_thing::{Perbill, Permill, Percent};

verus! {

pub type AccountId = u64;
pub type Balance = u128;
pub type BlockNumber = u64;
pub type ListingId = u32;
pub type ProposalId = u64;
pub type RegionId = u16;
pub type NftId = u32;
pub type NftCollectionId = u32;

/// Why a marketplace call was refused.
#[derive(Clone, Copy, PartialEq, Eq, Debug)]
pub enum MarketError {
    InvalidIndex,
    NotEnoughFunds,
    NotEnoughSharesAvailable,
    DivisionError,
    MultiplyError,
    NoPermission,
    UserNotCompliant,
    ArithmeticUnderflow,
    ArithmeticOverflow,
    ShareNotForSale,
    RegionUnknown,
    LocationUnknown,
    TooManyShares,
    ShareAmountTooLow,
    OnlyOneOfferPerUser,
    LawyerJobTaken,
    LawyerNotFound,
    AlreadyConfirmed,
    CostsTooHigh,
    AssetNotSupported,
    PaymentAssetNotSupported,
    ExceedsMaxEntries,
    SharesNotRefunded,
    PropertyAlreadySold,
    ListingExpired,
    NoSharesBought,
    ListingNotExpired,
    InvalidSharePrice,
    AmountCannotBeZero,
    InvalidFeePercentage,
    NotEnoughShares,
    SharesNotReturned,
    NoObjectFound,
    WrongRegion,
    ShareOwnerNotFound,
    NoLawyerProposed,
    LawyerProposalOngoing,
    VotingExpired,
    VotingStillOngoing,
    PropertyHasNotBeenSoldYet,
    LegalProcessFailed,
    LegalProcessOngoing,
    NoFrozenAmount,
    NoClaimWindow,
    ClaimWindowExpired,
    ClaimWindowNotExpired,
    StillHasUnclaimedShares,
    NoValidSharesToClaim,
    ExceedsMaxOwnership,
    ListingNotFound,
    AllSharesClaimed,
    OfferNotFound,
    NoSharesOwned,
    InsufficientRefundableShares,
    ZeroVoteAmount,
    InvalidOfferNonce,
}

/// The action taken on an offer.
#[derive(Clone, Copy, PartialEq, Eq, Debug)]
pub enum Offer {
    Accept,
    Reject,
}

/// The side of the legal process a lawyer represents.
#[derive(Clone, Copy, PartialEq, Eq, Debug)]
pub enum LegalProperty {
    RealEstateDeveloperSide,
    SpvSide,
}

/// The status of the legal documents of one side.
#[derive(Clone, Copy, PartialEq, Eq, Debug)]
pub enum DocumentStatus {
    Pending,
    Approved,
    Rejected,
}

/// A vote on a lawyer proposal.
#[derive(Clone, Copy, PartialEq, Eq, Debug)]
pub enum Vote {
    Yes,
    No,
    Abstain,
}

/// An account the marketplace moves funds or shares between: a user account,
/// or one of the accounts the chain derives for the marketplace.
#[derive(Clone, Copy, PartialEq, Eq, PartialOrd, Ord, Debug)]
pub enum AccountRef {
    /// An ordinary account.
    User(AccountId),
    /// The escrow account of the property with this asset id.
    Property(u32),
    /// The treasury's account.
    Treasury,
    /// The marketplace's own account.
    Marketplace,
}

/// Funds and fees an investor paid into a property, per payment asset.
#[derive(Clone, Copy, PartialEq, Eq, Debug)]
pub struct ShareOwnerFunds {
    pub paid_funds: AssetMap<Balance>,
    pub paid_fee: AssetMap<Balance>,
}

/// A primary-sale listing of a property.
#[derive(Clone, Debug)]
pub struct PropertyListingDetails {
    pub real_estate_developer: AccountId,
    pub share_price: Balance,
    pub collected_funds: AssetMap<Balance>,
    pub collected_tax: AssetMap<Balance>,
    pub collected_fees: AssetMap<Balance>,
    pub asset_id: u32,
    pub item_id: NftId,
    pub collection_id: NftCollectionId,
    pub share_amount: u32,
    pub listed_share_amount: u32,
    pub tax_paid_by_developer: bool,
    pub tax: Permill,
    pub listing_expiry: BlockNumber,
    pub investor_funds: BTreeMap<AccountId, ShareOwnerFunds>,
    pub claim_expiry: Option<BlockNumber>,
    pub relist_count: u8,
    pub unclaimed_share_amount: u32,
}

/// The mathematical content of a primary-sale listing.
pub struct ListingView {
    pub real_estate_developer: AccountId,
    pub share_price: Balance,
    pub collected_funds: AssetMap<Balance>,
    pub collected_tax: AssetMap<Balance>,
    pub collected_fees: AssetMap<Balance>,
    pub asset_id: u32,
    pub item_id: NftId,
    pub collection_id: NftCollectionId,
    pub share_amount: u32,
    pub listed_share_amount: u32,
    pub tax_paid_by_developer: bool,
    pub tax: Permill,
    pub listing_expiry: BlockNumber,
    pub investor_funds: Map<AccountId, ShareOwnerFunds>,
    pub claim_expiry: Option<BlockNumber>,
    pub relist_count: u8,
    pub unclaimed_share_amount: u32,
}

impl View for PropertyListingDetails {
    type V = ListingView;

    open spec fn view(&self) -> ListingView {
        ListingView {
            real_estate_developer: self.real_estate_developer,
            share_price: self.share_price,
            collected_funds: self.collected_funds,
            collected_tax: self.collected_tax,
            collected_fees: self.collected_fees,
            asset_id: self.asset_id,
            item_id: self.item_id,
            collection_id: self.collection_id,
            share_amount: self.share_amount,
            listed_share_amount: self.listed_share_amount,
            tax_paid_by_developer: self.tax_paid_by_developer,
            tax: self.tax,
            listing_expiry: self.listing_expiry,
            investor_funds: self.investor_funds@,
            claim_expiry: self.claim_expiry,
            relist_count: self.relist_count,
            unclaimed_share_amount: self.unclaimed_share_amount,
        }
    }
}

impl PropertyListingDetails {
    /// A copy of the listing.
    pub fn duplicate(&self) -> (r: Self)
        ensures
            r@ == self@,
    {
        PropertyListingDetails {
            real_estate_developer: self.real_estate_developer,
            share_price: self.share_price,
            collected_funds: self.collected_funds,
            collected_tax: self.collected_tax,
            collected_fees: self.collected_fees,
            asset_id: self.asset_id,
            item_id: self.item_id,
            collection_id: self.collection_id,
            share_amount: self.share_amount,
            listed_share_amount: self.listed_share_amount,
            tax_paid_by_developer: self.tax_paid_by_developer,
            tax: self.tax,
            listing_expiry: self.listing_expiry,
            investor_funds: self.investor_funds.clone(),
            claim_expiry: self.claim_expiry,
            relist_count: self.relist_count,
            unclaimed_share_amount: self.unclaimed_share_amount,
        }
    }
}

/// A resale listing of shares by an investor.
#[derive(Clone, Copy, PartialEq, Eq, Debug)]
pub struct ShareListingDetails {
    pub seller: AccountId,
    pub share_price: Balance,
    pub asset_id: u32,
    pub item_id: NftId,
    pub collection_id: NftCollectionId,
    pub amount: u32,
}

/// An offer on a resale listing.
#[derive(Clone, Copy, PartialEq, Eq, Debug)]
pub struct OfferDetails {
    pub share_price: Balance,
    pub amount: u32,
    pub payment_assets: u32,
    pub nonce: u64,
}

impl OfferDetails {
    /// The total an offer amounts to, unless it overflows.
    pub open spec fn spec_total_amount(self) -> Option<Balance> {
        if self.share_price * self.amount <= u128::MAX {
            Some((self.share_price * self.amount) as u128)
        } else {
            None
        }
    }

    /// The total price of the offer: share price times share amount.
    pub fn get_total_amount(&self) -> (r: Result<Balance, MarketError>)
        ensures
            match self.spec_total_amount() {
                Some(t) => r == Ok::<Balance, MarketError>(t),
                None => r == Err::<Balance, MarketError>(MarketError::MultiplyError),
            },
    {
        match self.share_price.checked_mul(self.amount as u128) {
            Some(t) => Ok(t),
            None => Err(MarketError::MultiplyError),
        }
    }
}

/// The lawyers of a property's legal process and the state of their documents.
#[derive(Clone, Copy, PartialEq, Eq, Debug)]
pub struct PropertyLawyerDetails {
    pub real_estate_developer_lawyer: Option<AccountId>,
    pub spv_lawyer: Option<AccountId>,
    pub real_estate_developer_status: DocumentStatus,
    pub spv_status: DocumentStatus,
    pub real_estate_developer_lawyer_costs: AssetMap<Balance>,
    pub spv_lawyer_costs: AssetMap<Balance>,
    pub legal_process_expiry: BlockNumber,
    pub second_attempt: bool,
}

/// An investor's pending purchase in a primary sale: per payment asset, the
/// price, the marketplace fee and the tax that are on hold for it.
#[derive(Clone, Copy, PartialEq, Eq, Debug)]
pub struct ShareOwnerDetails {
    pub share_amount: u32,
    pub paid_funds: AssetMap<Balance>,
    pub paid_fees: AssetMap<Balance>,
    pub paid_tax: AssetMap<Balance>,
    pub relist_count: u8,
}

/// What remains to be refunded after lawyers rejected a sale.
#[derive(Clone, Copy, PartialEq, Eq, Debug)]
pub struct RefundInfos {
    pub refund_amount: u32,
    pub property_lawyer_details: PropertyLawyerDetails,
}

/// A lawyer proposed for the developer's side.
#[derive(Clone, Copy, PartialEq, Eq, Debug)]
pub struct ProposedDeveloperLawyer {
    pub lawyer: AccountId,
    pub costs: Balance,
}

/// A lawyer proposed for the SPV's side, put to the share holders' vote.
#[derive(Clone, Copy, PartialEq, Eq, Debug)]
pub struct ProposedSpvLawyer {
    pub lawyer: AccountId,
    pub asset_id: u32,
    pub costs: Balance,
    pub expiry_block: BlockNumber,
}

/// The voting power cast on a lawyer proposal.
#[derive(Clone, Copy, PartialEq, Eq, Debug)]
pub struct VoteStats {
    pub yes_voting_power: u32,
    pub no_voting_power: u32,
    pub abstain_voting_power: u32,
}

/// One voter's vote on a lawyer proposal.
#[derive(Clone, Copy, PartialEq, Eq, Debug)]
pub struct VoteRecord {
    pub vote: Vote,
    pub asset_id: u32,
    pub power: u32,
}

/// The payouts of a completed primary sale.
#[derive(Clone, Copy, PartialEq, Eq, Debug)]
pub struct FinalSettlementPayouts {
    pub developer_payout: AssetMap<Balance>,
    pub developer_account: AccountId,
    pub spv_lawyer_payout: AssetMap<Balance>,
    pub spv_lawyer_account: AccountId,
    pub treasury_payout: AssetMap<Balance>,
    pub treasury_account: AccountRef,
    pub region_owner_payout: AssetMap<Balance>,
    pub region_owner_account: AccountId,
}

/// The marketplace's constants.
#[derive(Clone, Copy, PartialEq, Eq, Debug)]
pub struct MarketConfig {
    pub accepted_assets: AcceptedAssets,
    pub max_accepted_assets: u32,
    pub min_property_shares: u32,
    pub max_property_shares: u32,
    pub listing_deposit: Balance,
    pub marketplace_fee: Perbill,
    pub max_ownership: Perbill,
    pub min_voting_quorum: Percent,
    pub claim_window: BlockNumber,
    pub max_relist_attempts: u8,
    pub lawyer_voting_time: BlockNumber,
    pub legal_process_time: BlockNumber,
}

/// What the marketplace is told about a region.
#[derive(Clone, Copy, PartialEq, Eq, Debug)]
pub struct RegionInfo {
    pub collection_id: NftCollectionId,
    pub listing_duration: BlockNumber,
    pub owner: AccountId,
    pub tax: Permill,
}

/// What the marketplace is told about a property's asset.
#[derive(Clone, Copy, PartialEq, Eq, Debug)]
pub struct PropertyAssetInfo {
    pub item_id: NftId,
    pub collection_id: NftCollectionId,
    pub region: RegionId,
    pub share_amount: u32,
    pub spv_created: bool,
}

/// What the marketplace is told about a lawyer.
#[derive(Clone, Copy, PartialEq, Eq, Debug)]
pub struct LawyerInfo {
    pub region: RegionId,
}

/// Work the marketplace asks of the rest of the chain, in the order given.
/// Each one either succeeds or fails the whole call.
#[derive(Clone, Copy, PartialEq, Eq, Debug)]
pub enum Action {
    /// Put the listing deposit on hold in the developer's native balance.
    HoldDeposit { who: AccountId, amount: Balance },
    /// Release the listing deposit held for `who`.
    ReleaseDeposit { who: AccountId, amount: Balance },
    /// Move the whole native balance of the property's account to `to`, if any.
    SweepNative { asset_id: u32, to: AccountId },
    /// Put `amount` of a payment asset on hold for `who`.
    HoldFunds { asset: u32, who: AccountId, amount: Balance },
    /// Release exactly `amount` of a payment asset held for `who`.
    ReleaseFunds { asset: u32, who: AccountId, amount: Balance },
    /// Transfer a non-zero `amount` of a payment asset; a failure is `NotEnoughFunds`.
    Transfer { asset: u32, from: AccountRef, to: AccountRef, amount: Balance },
    /// Transfer property tokens of `asset_id`.
    TransferShares { asset_id: u32, from: AccountRef, to: AccountRef, amount: u32 },
    /// Freeze more of `who`'s property tokens for lawyer voting.
    IncreaseFrozen { asset_id: u32, who: AccountId, amount: u32 },
    /// Unfreeze `who`'s property tokens frozen for lawyer voting.
    DecreaseFrozen { asset_id: u32, who: AccountId, amount: u32 },
    /// Hand claimed shares to their owner.
    DistributeShares { asset_id: u32, owner: AccountId, amount: u32 },
    /// Move property shares between owners on behalf of `caller`.
    TransferPropertyShares { asset_id: u32, caller: AccountId, from: AccountRef, to: AccountId, amount: u32 },
    /// Burn the property's shares.
    BurnPropertyShares { asset_id: u32 },
    /// Forget all owners of the property's shares.
    ClearShareOwners { asset_id: u32 },
    /// Forget `who` as an owner of the property's shares.
    RemoveShareOwnership { asset_id: u32, who: AccountId },
    /// Mark the property as finalized.
    FinalizeProperty { asset_id: u32 },
    /// Fail unless the property's SPV has been created.
    EnsureSpvCreated { asset_id: u32 },
    /// Fail if the property's SPV has been created.
    EnsureSpvNotCreated { asset_id: u32 },
    /// Record that the property's SPV has been created.
    RegisterSpv { asset_id: u32 },
    /// Fail unless the property has been finalized.
    EnsurePropertyFinalized { asset_id: u32 },
    /// Count one more active case for the lawyer.
    IncrementActiveCases { lawyer: AccountId },
    /// Count one active case less for the lawyer.
    DecrementActiveCases { lawyer: AccountId },
    /// Settle the income owed to `who` from the property.
    SettleIncome { who: AccountId, asset_id: u32 },
}

/// What the marketplace reports about a call that succeeded.
#[derive(Clone, PartialEq, Eq, Debug)]
pub enum Event {
    ObjectListed {
        listing_index: ListingId,
        collection_index: NftCollectionId,
        item_index: NftId,
        asset_id: u32,
        share_price: Balance,
        share_amount: u32,
        total_valuation: Balance,
        seller: AccountId,
        tax_paid_by_developer: bool,
        listing_expiry: BlockNumber,
        metadata_blob: Vec<u8>,
    },
    RelistedSharesBought {
        listing_index: ListingId,
        asset_id: u32,
        buyer: AccountId,
        seller: AccountId,
        price: Balance,
        amount: u32,
        payment_asset: u32,
        new_amount_remaining: u32,
    },
    PropertySharesBought {
        listing_index: ListingId,
        asset_id: u32,
        buyer: AccountId,
        amount_purchased: u32,
        price_paid: Balance,
        tax_paid: Balance,
        payment_asset: u32,
        new_shares_remaining: u32,
    },
    SharesRelisted {
        listing_index: ListingId,
        asset_id: u32,
        price: Balance,
        share_amount: u32,
        seller: AccountId,
    },
    ListingDelisted { listing_index: ListingId },
    ObjectUpdated { listing_index: ListingId, new_price: Balance },
    OfferCreated {
        listing_id: ListingId,
        offeror: AccountId,
        price: Balance,
        amount: u32,
        payment_asset: u32,
    },
    OfferCancelled { listing_id: ListingId, account_id: AccountId },
    DeveloperLawyerProposed { listing_id: ListingId, lawyer: AccountId, proposed_cost: Balance },
    SpvLawyerProposed {
        listing_id: ListingId,
        lawyer: AccountId,
        proposed_cost: Balance,
        expiry_block: BlockNumber,
    },
    LawyerRemovedFromCase { lawyer: AccountId, listing_id: ListingId },
    DocumentsConfirmed {
        signer: AccountId,
        listing_id: ListingId,
        legal_side: LegalProperty,
        approve: bool,
    },
    PrimarySaleCompleted { listing_id: ListingId, asset_id: u32, payouts: FinalSettlementPayouts },
    RejectedFundsWithdrawn { signer: AccountId, listing_id: ListingId },
    ExpiredFundsWithdrawn { signer: AccountId, listing_id: ListingId },
    OfferAccepted { listing_id: ListingId, offeror: AccountId, amount: u32, price: Balance },
    OfferRejected { listing_id: ListingId, offeror: AccountId, amount: u32, price: Balance },
    InvestmentCancelled {
        listing_id: ListingId,
        investor: AccountId,
        amount_returned: u32,
        new_shares_remaining: u32,
        refunds: AssetMap<(Balance, Balance)>,
    },
    PropertySharesSent { asset_id: u32, sender: AccountId, receiver: AccountId, amount: u32 },
    DeveloperDepositReturned { listing_id: ListingId, developer: AccountId, amount: Balance },
    VotedOnLawyer {
        listing_id: ListingId,
        voter: AccountId,
        vote: Vote,
        voting_power: u32,
        new_yes_power: u32,
        new_no_power: u32,
        new_abstain_power: u32,
        proposal_id: ProposalId,
    },
    RealEstateLawyerProposalFinalized { listing_id: ListingId, lawyer: AccountId, is_approved: bool },
    SpvLawyerVoteFinalized {
        listing_id: ListingId,
        lawyer: AccountId,
        is_approved: bool,
        final_yes_power: u32,
        final_no_power: u32,
        final_abstain_power: u32,
    },
    PropertySharesClaimed { listing_id: ListingId, asset_id: u32, owner: AccountId, amount: u32 },
    SpvCreated { listing_id: ListingId, asset_id: u32 },
    PrimarySaleSoldOut { listing_id: ListingId, asset_id: u32 },
    AllPropertySharesClaimed {
        listing_id: ListingId,
        asset_id: u32,
        legal_process_expiry_block: BlockNumber,
    },
    SharesUnfrozen { proposal_id: ProposalId, asset_id: u32, voter: AccountId, amount: u32 },
    LawyerCostsAllocated {
        listing_id: ListingId,
        lawyer_account: AccountId,
        lawyer_type: LegalProperty,
        costs: AssetMap<Balance>,
    },
    UnclaimedRelisted { listing_id: ListingId, amount: u32, relist_count: u8 },
    UnclaimedSharesWithdrawn {
        listing_id: ListingId,
        investor: AccountId,
        refunds: AssetMap<(Balance, Balance)>,
    },
    SaleCancelledUnclaimed { listing_id: ListingId, unclaimed_amount: u32 },
}

/// What a marketplace call asks of the rest of the chain and reports.
///
/// The caller performs `actions` in order; if one fails, the call fails with
/// that action's error and every effect is undone. Otherwise, if `failure` is
/// set, the call fails with it; else it succeeds and `events` are deposited.
/// When `failure` is set the marketplace's state has not changed.
#[derive(Clone, Debug)]
pub struct Outcome {
    pub actions: Vec<Action>,
    pub events: Vec<Event>,
    pub failure: Option<MarketError>,
}

/// The mathematical content of an `Outcome`.
pub struct OutcomeView {
    pub actions: Seq<Action>,
    pub events: Seq<Event>,
    pub failure: Option<MarketError>,
}

impl View for Outcome {
    type V = OutcomeView;

    open spec fn view(&self) -> OutcomeView {
        OutcomeView { actions: self.actions@, events: self.events@, failure: self.failure }
    }
}

} // verus!
