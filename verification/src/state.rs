//! The marketplace's storage and its mathematical view.
use vstd::prelude::*;
use std::collections::BTreeMap;
use crate::types::{
    AccountId, Action, Balance, Event, ListingId, ListingView, MarketConfig, MarketError,
    OfferDetails, Outcome, OutcomeView, PropertyLawyerDetails, PropertyListingDetails,
    ProposalId, ProposedDeveloperLawyer, ProposedSpvLawyer, RefundInfos, ShareListingDetails,
    ShareOwnerDetails, VoteRecord, VoteStats,
};

verus! {

broadcast use vstd::std_specs::btree::group_btree_axioms;

/// Everything the marketplace stores.
#[derive(Clone, Debug)]
pub struct Marketplace {
    pub config: MarketConfig,
    pub next_listing_id: ListingId,
    pub next_offer_nonce: u64,
    pub listings: BTreeMap<ListingId, PropertyListingDetails>,
    pub share_owners: BTreeMap<(AccountId, ListingId), ShareOwnerDetails>,
    pub share_listings: BTreeMap<ListingId, ShareListingDetails>,
    pub offers: BTreeMap<(ListingId, AccountId), OfferDetails>,
    pub property_lawyers: BTreeMap<ListingId, PropertyLawyerDetails>,
    pub refund_shares: BTreeMap<ListingId, RefundInfos>,
    pub refund_claimed: BTreeMap<ListingId, u32>,
    pub refund_legal_expired: BTreeMap<ListingId, u32>,
    pub listing_deposits: BTreeMap<ListingId, (AccountId, Balance)>,
    pub proposed_lawyers: BTreeMap<ListingId, ProposedDeveloperLawyer>,
    pub spv_lawyer_proposals: BTreeMap<ProposalId, ProposedSpvLawyer>,
    pub lawyer_votings: BTreeMap<ProposalId, VoteStats>,
    pub user_lawyer_votes: BTreeMap<(ProposalId, AccountId), VoteRecord>,
    pub listing_spv_proposal: BTreeMap<ListingId, ProposalId>,
    pub proposal_counter: ProposalId,
}

/// The mathematical content of the marketplace's storage.
pub struct MarketView {
    pub config: MarketConfig,
    pub next_listing_id: ListingId,
    pub next_offer_nonce: u64,
    pub listings: Map<ListingId, ListingView>,
    pub share_owners: Map<(AccountId, ListingId), ShareOwnerDetails>,
    pub share_listings: Map<ListingId, ShareListingDetails>,
    pub offers: Map<(ListingId, AccountId), OfferDetails>,
    pub property_lawyers: Map<ListingId, PropertyLawyerDetails>,
    pub refund_shares: Map<ListingId, RefundInfos>,
    pub refund_claimed: Map<ListingId, u32>,
    pub refund_legal_expired: Map<ListingId, u32>,
    pub listing_deposits: Map<ListingId, (AccountId, Balance)>,
    pub proposed_lawyers: Map<ListingId, ProposedDeveloperLawyer>,
    pub spv_lawyer_proposals: Map<ProposalId, ProposedSpvLawyer>,
    pub lawyer_votings: Map<ProposalId, VoteStats>,
    pub user_lawyer_votes: Map<(ProposalId, AccountId), VoteRecord>,
    pub listing_spv_proposal: Map<ListingId, ProposalId>,
    pub proposal_counter: ProposalId,
}

/// The view of each stored listing.
pub open spec fn listings_view(m: Map<ListingId, PropertyListingDetails>) -> Map<ListingId, ListingView> {
    m.map_values(|l: PropertyListingDetails| l@)
}

pub proof fn lemma_listings_view_insert(m: Map<ListingId, PropertyListingDetails>, k: ListingId, v: PropertyListingDetails)
    ensures
        listings_view(m.insert(k, v)) == listings_view(m).insert(k, v@),
{
    assert(listings_view(m.insert(k, v)) =~= listings_view(m).insert(k, v@));
}

pub proof fn lemma_listings_view_remove(m: Map<ListingId, PropertyListingDetails>, k: ListingId)
    ensures
        listings_view(m.remove(k)) == listings_view(m).remove(k),
{
    assert(listings_view(m.remove(k)) =~= listings_view(m).remove(k));
}

impl View for Marketplace {
    type V = MarketView;

    open spec fn view(&self) -> MarketView {
        MarketView {
            config: self.config,
            next_listing_id: self.next_listing_id,
            next_offer_nonce: self.next_offer_nonce,
            listings: listings_view(self.listings@),
            share_owners: self.share_owners@,
            share_listings: self.share_listings@,
            offers: self.offers@,
            property_lawyers: self.property_lawyers@,
            refund_shares: self.refund_shares@,
            refund_claimed: self.refund_claimed@,
            refund_legal_expired: self.refund_legal_expired@,
            listing_deposits: self.listing_deposits@,
            proposed_lawyers: self.proposed_lawyers@,
            spv_lawyer_proposals: self.spv_lawyer_proposals@,
            lawyer_votings: self.lawyer_votings@,
            user_lawyer_votes: self.user_lawyer_votes@,
            listing_spv_proposal: self.listing_spv_proposal@,
            proposal_counter: self.proposal_counter,
        }
    }
}

/// The result of a refused call: nothing stored changes, nothing is reported.
pub open spec fn refused(pre: MarketView, actions: Seq<Action>, e: MarketError) -> (MarketView, OutcomeView) {
    (pre, OutcomeView { actions, events: Seq::empty(), failure: Some(e) })
}

/// The result of a call that succeeds with the given storage, actions and events.
pub open spec fn accepted(post: MarketView, actions: Seq<Action>, events: Seq<Event>) -> (MarketView, OutcomeView) {
    (post, OutcomeView { actions, events, failure: None })
}

/// The outcome of a call refused before it asked anything of the chain.
pub fn refusal(e: MarketError) -> (r: Outcome)
    ensures
        r@ == (OutcomeView { actions: Seq::empty(), events: Seq::empty(), failure: Some(e) }),
{
    Outcome { actions: Vec::new(), events: Vec::new(), failure: Some(e) }
}

/// The outcome of a call refused after it asked the given actions of the chain.
pub fn refusal_after(actions: Vec<Action>, e: MarketError) -> (r: Outcome)
    ensures
        r@ == (OutcomeView { actions: actions@, events: Seq::empty(), failure: Some(e) }),
{
    Outcome { actions, events: Vec::new(), failure: Some(e) }
}

/// The outcome of a call that succeeded.
pub fn success(actions: Vec<Action>, events: Vec<Event>) -> (r: Outcome)
    ensures
        r@ == (OutcomeView { actions: actions@, events: events@, failure: None }),
{
    Outcome { actions, events, failure: None }
}

/// A one-element vector.
pub fn single<T>(x: T) -> (r: Vec<T>)
    ensures
        r@ == seq![x],
{
    let mut v = Vec::new();
    v.push(x);
    v
}

impl Marketplace {
    /// An empty marketplace with the given constants.
    pub fn new(config: MarketConfig) -> (r: Self)
        ensures
            r@.config == config,
            r@.next_listing_id == 0,
            r@.next_offer_nonce == 0,
            r@.proposal_counter == 0,
            r@.listings.is_empty(),
            r@.share_owners.is_empty(),
            r@.share_listings.is_empty(),
            r@.offers.is_empty(),
            r@.property_lawyers.is_empty(),
            r@.refund_shares.is_empty(),
            r@.refund_claimed.is_empty(),
            r@.refund_legal_expired.is_empty(),
            r@.listing_deposits.is_empty(),
            r@.proposed_lawyers.is_empty(),
            r@.spv_lawyer_proposals.is_empty(),
            r@.lawyer_votings.is_empty(),
            r@.user_lawyer_votes.is_empty(),
            r@.listing_spv_proposal.is_empty(),
    {
        let r = Marketplace {
            config,
            next_listing_id: 0,
            next_offer_nonce: 0,
            listings: BTreeMap::new(),
            share_owners: BTreeMap::new(),
            share_listings: BTreeMap::new(),
            offers: BTreeMap::new(),
            property_lawyers: BTreeMap::new(),
            refund_shares: BTreeMap::new(),
            refund_claimed: BTreeMap::new(),
            refund_legal_expired: BTreeMap::new(),
            listing_deposits: BTreeMap::new(),
            proposed_lawyers: BTreeMap::new(),
            spv_lawyer_proposals: BTreeMap::new(),
            lawyer_votings: BTreeMap::new(),
            user_lawyer_votes: BTreeMap::new(),
            listing_spv_proposal: BTreeMap::new(),
            proposal_counter: 0,
        };
        assert(r@.listings =~= Map::empty());
        r
    }

    /// The marketplace's constants.
    pub fn config(&self) -> (r: MarketConfig)
        ensures
            r == self@.config,
    {
        self.config
    }

    /// The id the next listing will get.
    pub fn next_listing(&self) -> (r: ListingId)
        ensures
            r == self@.next_listing_id,
    {
        self.next_listing_id
    }

    /// The nonce the next offer will get.
    pub fn next_offer_nonce(&self) -> (r: u64)
        ensures
            r == self@.next_offer_nonce,
    {
        self.next_offer_nonce
    }

    /// The id the next SPV lawyer proposal will get.
    pub fn proposal_counter(&self) -> (r: ProposalId)
        ensures
            r == self@.proposal_counter,
    {
        self.proposal_counter
    }

    /// The primary-sale listing with this id.
    pub fn listing(&self, listing_id: ListingId) -> (r: Option<&PropertyListingDetails>)
        ensures
            match r {
                Some(l) => self@.listings.contains_key(listing_id) && l@ == self@.listings[listing_id],
                None => !self@.listings.contains_key(listing_id),
            },
    {
        self.listings.get(&listing_id)
    }

    /// The pending purchase of `owner` in a listing.
    pub fn share_owner(&self, owner: AccountId, listing_id: ListingId) -> (r: Option<ShareOwnerDetails>)
        ensures
            r == self@.share_owners.get((owner, listing_id)),
    {
        match self.share_owners.get(&(owner, listing_id)) {
            Some(d) => Some(*d),
            None => None,
        }
    }

    /// The resale listing with this id.
    pub fn share_listing(&self, listing_id: ListingId) -> (r: Option<ShareListingDetails>)
        ensures
            r == self@.share_listings.get(listing_id),
    {
        match self.share_listings.get(&listing_id) {
            Some(d) => Some(*d),
            None => None,
        }
    }

    /// The offer of `offeror` on a resale listing.
    pub fn offer(&self, listing_id: ListingId, offeror: AccountId) -> (r: Option<OfferDetails>)
        ensures
            r == self@.offers.get((listing_id, offeror)),
    {
        match self.offers.get(&(listing_id, offeror)) {
            Some(d) => Some(*d),
            None => None,
        }
    }

    /// The legal process of a listing.
    pub fn property_lawyer(&self, listing_id: ListingId) -> (r: Option<PropertyLawyerDetails>)
        ensures
            r == self@.property_lawyers.get(listing_id),
    {
        match self.property_lawyers.get(&listing_id) {
            Some(d) => Some(*d),
            None => None,
        }
    }

    /// The refund in progress after lawyers rejected a sale.
    pub fn refund_share(&self, listing_id: ListingId) -> (r: Option<RefundInfos>)
        ensures
            r == self@.refund_shares.get(listing_id),
    {
        match self.refund_shares.get(&listing_id) {
            Some(d) => Some(*d),
            None => None,
        }
    }

    /// The shares still to be refunded after a sale was cancelled for unclaimed shares.
    pub fn refund_claimed_share(&self, listing_id: ListingId) -> (r: Option<u32>)
        ensures
            r == self@.refund_claimed.get(listing_id),
    {
        match self.refund_claimed.get(&listing_id) {
            Some(d) => Some(*d),
            None => None,
        }
    }

    /// The shares still to be refunded after the legal process expired.
    pub fn refund_legal_expired(&self, listing_id: ListingId) -> (r: Option<u32>)
        ensures
            r == self@.refund_legal_expired.get(listing_id),
    {
        match self.refund_legal_expired.get(&listing_id) {
            Some(d) => Some(*d),
            None => None,
        }
    }

    /// The depositor and amount of a listing's deposit.
    pub fn listing_deposit(&self, listing_id: ListingId) -> (r: Option<(AccountId, Balance)>)
        ensures
            r == self@.listing_deposits.get(listing_id),
    {
        match self.listing_deposits.get(&listing_id) {
            Some(d) => Some(*d),
            None => None,
        }
    }

    /// The developer-side lawyer proposal of a listing.
    pub fn proposed_lawyer(&self, listing_id: ListingId) -> (r: Option<ProposedDeveloperLawyer>)
        ensures
            r == self@.proposed_lawyers.get(listing_id),
    {
        match self.proposed_lawyers.get(&listing_id) {
            Some(d) => Some(*d),
            None => None,
        }
    }

    /// The SPV lawyer proposal with this id.
    pub fn spv_lawyer_proposal(&self, proposal_id: ProposalId) -> (r: Option<ProposedSpvLawyer>)
        ensures
            r == self@.spv_lawyer_proposals.get(proposal_id),
    {
        match self.spv_lawyer_proposals.get(&proposal_id) {
            Some(d) => Some(*d),
            None => None,
        }
    }

    /// The running tally of an SPV lawyer proposal.
    pub fn lawyer_voting(&self, proposal_id: ProposalId) -> (r: Option<VoteStats>)
        ensures
            r == self@.lawyer_votings.get(proposal_id),
    {
        match self.lawyer_votings.get(&proposal_id) {
            Some(d) => Some(*d),
            None => None,
        }
    }

    /// The vote of `voter` on an SPV lawyer proposal.
    pub fn user_lawyer_vote(&self, proposal_id: ProposalId, voter: AccountId) -> (r: Option<VoteRecord>)
        ensures
            r == self@.user_lawyer_votes.get((proposal_id, voter)),
    {
        match self.user_lawyer_votes.get(&(proposal_id, voter)) {
            Some(d) => Some(*d),
            None => None,
        }
    }

    /// The SPV lawyer proposal open for a listing.
    pub fn listing_spv_proposal(&self, listing_id: ListingId) -> (r: Option<ProposalId>)
        ensures
            r == self@.listing_spv_proposal.get(listing_id),
    {
        match self.listing_spv_proposal.get(&listing_id) {
            Some(d) => Some(*d),
            None => None,
        }
    }
}

} // verus!
