//! Properties that relate several marketplace calls, or hold of every call.
use vstd::prelude::*;
use vstd::arithmetic::div_mod::lemma_fundamental_div_mod;
use crate::asset_map::{AcceptedAssets, AssetMap};
use crate::claim::claim_spec;
use crate::common::{fee_on, max_shares, sat_add, transfer_spec};
use crate::lawyers::{
    allocate_fees_spec, approve_developer_lawyer_spec, finalize_spv_lawyer_spec, lawyer_claim_spec,
    remove_lawyer_claim_spec, unfreeze_vote_spec, vote_spec,
};
use crate::per_thing::{mul_ceil_spec, mul_floor_spec, PERBILL_ACCURACY, PERMILL_ACCURACY};
use crate::primary::{
    buy_spec, cancel_purchase_spec, create_spv_spec, finalize_claim_window_spec, list_property_spec,
    upgrade_object_spec, withdraw_deposit_unsold_spec, withdraw_expired_spec, withdraw_unclaimed_spec,
};
use crate::refunds::unfreeze_all;
use crate::secondary::{
    buy_relisted_spec, cancel_offer_spec, delist_shares_spec, handle_offer_spec, make_offer_spec,
    relist_shares_spec, send_property_shares_spec,
};
use crate::settlement::{confirm_documents_spec, settle_all_assets, settle_asset};
use crate::state::MarketView;
use crate::types::{
    AccountId, AccountRef, Action, Balance, BlockNumber, FinalSettlementPayouts, LawyerInfo,
    LegalProperty, ListingId, ListingView, MarketConfig, MarketError, Offer, PropertyAssetInfo,
    PropertyLawyerDetails, ProposalId, ProposedDeveloperLawyer, ProposedSpvLawyer, RegionInfo, ShareListingDetails, Vote, VoteRecord, VoteStats,
};
use crate::withdrawals::{withdraw_claiming_expired_spec, withdraw_legal_expired_spec, withdraw_rejected_spec};

verus! {

/// The amount stored under `asset`, zero when there is none.
pub open spec fn amount_of(m: AssetMap<Balance>, acc: AcceptedAssets, asset: u32) -> int {
    match m.spec_get(acc, asset) {
        Some(x) => x as int,
        None => 0,
    }
}

/// Cancelling an offer releases exactly what making it put on hold, and leaves
/// the offers as they were before it was made.
pub proof fn law_cancel_offer_releases_its_hold(pre: MarketView, signer: AccountId, listing_id: ListingId, offer_price: Balance, amount: u32, payment_asset: u32)
    requires
        make_offer_spec(pre, signer, listing_id, offer_price, amount, payment_asset).1.failure is None,
    ensures
        ({
            let (mid, made) = make_offer_spec(pre, signer, listing_id, offer_price, amount, payment_asset);
            let (post, cancelled) = cancel_offer_spec(mid, signer, listing_id);
            let total = (offer_price * amount) as u128;
            &&& made.actions == seq![Action::HoldFunds { asset: payment_asset, who: signer, amount: total }]
            &&& cancelled.failure is None
            &&& cancelled.actions == seq![Action::ReleaseFunds { asset: payment_asset, who: signer, amount: total }]
            &&& post == MarketView { next_offer_nonce: mid.next_offer_nonce, ..pre }
        }),
{
    let (mid, made) = make_offer_spec(pre, signer, listing_id, offer_price, amount, payment_asset);
    let (post, cancelled) = cancel_offer_spec(mid, signer, listing_id);
    assert(post.offers =~= pre.offers);
}

/// No purchase of primary-sale shares takes the buyer's holding of the
/// property to the maximum ownership share or beyond.
pub proof fn law_buy_stays_below_max_ownership(pre: MarketView, signer: AccountId, listing_id: ListingId, amount: u32, payment_asset: u32, now: BlockNumber, asset_info: Option<PropertyAssetInfo>, owned_shares: u32)
    requires
        buy_spec(pre, signer, listing_id, amount, payment_asset, now, asset_info, owned_shares).1.failure is None,
    ensures
        ({
            let post = buy_spec(pre, signer, listing_id, amount, payment_asset, now, asset_info, owned_shares).0;
            &&& pre.listings.contains_key(listing_id)
            &&& post.share_owners.contains_key((signer, listing_id))
            &&& post.share_owners[(signer, listing_id)].share_amount + owned_shares
                < max_shares(pre.config, pre.listings[listing_id].share_amount)
        }),
{
}

/// No resale purchase takes the buyer's holding to the maximum ownership share or beyond.
pub proof fn law_resale_stays_below_max_ownership(pre: MarketView, buyer: AccountId, listing_id: ListingId, amount: u32, payment_asset: u32, asset_info: Option<PropertyAssetInfo>, owned_shares: u32)
    requires
        buy_relisted_spec(pre, buyer, listing_id, amount, payment_asset, asset_info, owned_shares).1.failure is None,
    ensures
        asset_info is Some,
        owned_shares + amount < max_shares(pre.config, asset_info->0.share_amount),
{
}

/// No accepted offer takes the offeror's holding to the maximum ownership share or beyond.
pub proof fn law_accepted_offer_stays_below_max_ownership(pre: MarketView, signer: AccountId, listing_id: ListingId, offeror: AccountId, offer_nonce: u64, asset_info: Option<PropertyAssetInfo>, offeror_shares: u32)
    requires
        handle_offer_spec(pre, signer, listing_id, offeror, Offer::Accept, offer_nonce, asset_info, offeror_shares).1.failure is None,
    ensures
        pre.offers.contains_key((listing_id, offeror)),
        asset_info is Some,
        offeror_shares + pre.offers[(listing_id, offeror)].amount < max_shares(pre.config, asset_info->0.share_amount),
{
}

/// No transfer of shares takes the receiver's holding to the maximum ownership share or beyond.
pub proof fn law_sent_shares_stay_below_max_ownership(pre: MarketView, sender: AccountId, asset_id: u32, receiver: AccountId, share_amount: u32, receiver_compliant: bool, asset_info: Option<PropertyAssetInfo>, receiver_shares: u32)
    requires
        send_property_shares_spec(pre, sender, asset_id, receiver, share_amount, receiver_compliant, asset_info, receiver_shares).1.failure is None,
    ensures
        receiver_compliant,
        asset_info is Some,
        receiver_shares + share_amount < max_shares(pre.config, asset_info->0.share_amount),
{
}

/// Lawyer costs are allocated exactly when the fees collected in the two
/// accepted assets cover them; the parts allocated then add up to the costs,
/// none exceeds the fees collected in its asset, and the lawyer's cost record
/// holds each allocated part.
pub proof fn law_allocation_covers_costs(cfg: MarketConfig, lawyer_costs: AssetMap<Balance>, collected_fees: AssetMap<Balance>, total_costs: Balance)
    requires
        cfg.accepted_assets.first != cfg.accepted_assets.second,
        cfg.max_accepted_assets >= 2,
    ensures
        ({
            let acc = cfg.accepted_assets;
            let f1 = amount_of(collected_fees, acc, acc.first);
            let f2 = amount_of(collected_fees, acc, acc.second);
            let r = allocate_fees_spec(cfg, lawyer_costs, collected_fees, total_costs);
            &&& r is Ok <==> (f1 + f2 <= u128::MAX && total_costs <= f1 + f2)
            &&& r is Ok ==> {
                let (costs, allocated) = r->Ok_0;
                let a1 = amount_of(allocated, acc, acc.first);
                let a2 = amount_of(allocated, acc, acc.second);
                &&& a1 + a2 == total_costs
                &&& a1 <= f1
                &&& a2 <= f2
                &&& allocated.spec_get(acc, acc.first) is Some ==> costs.spec_get(acc, acc.first) == allocated.spec_get(acc, acc.first)
                &&& allocated.spec_get(acc, acc.second) is Some ==> costs.spec_get(acc, acc.second) == allocated.spec_get(acc, acc.second)
                &&& allocated.spec_get(acc, acc.first) is None ==> costs.spec_get(acc, acc.first) == lawyer_costs.spec_get(acc, acc.first)
                &&& allocated.spec_get(acc, acc.second) is None ==> costs.spec_get(acc, acc.second) == lawyer_costs.spec_get(acc, acc.second)
            }
        }),
{
}

/// A purchase moves shares from those on offer to those awaiting their claim:
/// their sum stays the same, and the buyer's record grows by the amount bought.
pub proof fn law_buy_conserves_sale_shares(pre: MarketView, signer: AccountId, listing_id: ListingId, amount: u32, payment_asset: u32, now: BlockNumber, asset_info: Option<PropertyAssetInfo>, owned_shares: u32)
    requires
        buy_spec(pre, signer, listing_id, amount, payment_asset, now, asset_info, owned_shares).1.failure is None,
    ensures
        ({
            let post = buy_spec(pre, signer, listing_id, amount, payment_asset, now, asset_info, owned_shares).0;
            let l = pre.listings[listing_id];
            let l2 = post.listings[listing_id];
            let before = if pre.share_owners.contains_key((signer, listing_id)) {
                pre.share_owners[(signer, listing_id)].share_amount as int
            } else {
                0
            };
            &&& pre.listings.contains_key(listing_id)
            &&& post.listings.contains_key(listing_id)
            &&& l2.listed_share_amount == l.listed_share_amount - amount
            &&& l2.listed_share_amount + l2.unclaimed_share_amount == l.listed_share_amount + l.unclaimed_share_amount
            &&& l2.share_amount == l.share_amount
            &&& post.share_owners[(signer, listing_id)].share_amount == before + amount
        }),
{
}

/// Relisting the unclaimed shares of an expired claim window puts them back
/// on offer: the sum of shares on offer and awaiting a claim stays the same.
pub proof fn law_relisting_unclaimed_conserves_sale_shares(pre: MarketView, signer: AccountId, listing_id: ListingId, now: BlockNumber)
    requires
        finalize_claim_window_spec(pre, signer, listing_id, now).1.failure is None,
        pre.listings.contains_key(listing_id),
        pre.listings[listing_id].relist_count < pre.config.max_relist_attempts,
    ensures
        ({
            let post = finalize_claim_window_spec(pre, signer, listing_id, now).0;
            let l = pre.listings[listing_id];
            let l2 = post.listings[listing_id];
            &&& post.listings.contains_key(listing_id)
            &&& l2.unclaimed_share_amount == 0
            &&& l2.listed_share_amount == l.listed_share_amount + l.unclaimed_share_amount
            &&& l2.relist_count == l.relist_count + 1
        }),
{
}

/// Relisting the unclaimed shares of an expired claim window never shortens
/// the sale: the listing stays open until the later of its previous expiry and
/// a full claim window from now (capped at the last block).
pub proof fn law_relisting_unclaimed_never_shortens_the_sale(pre: MarketView, signer: AccountId, listing_id: ListingId, now: BlockNumber)
    requires
        finalize_claim_window_spec(pre, signer, listing_id, now).1.failure is None,
        pre.listings.contains_key(listing_id),
        pre.listings[listing_id].relist_count < pre.config.max_relist_attempts,
    ensures
        ({
            let post = finalize_claim_window_spec(pre, signer, listing_id, now).0;
            let before = pre.listings[listing_id].listing_expiry as int;
            let after = post.listings[listing_id].listing_expiry as int;
            let window_end = if now + pre.config.claim_window > u64::MAX { u64::MAX as int } else { now + pre.config.claim_window };
            &&& post.listings.contains_key(listing_id)
            &&& after >= before
            &&& after >= window_end
            &&& (after == before || after == window_end)
        }),
{
}

/// Once a listing is gone, an investor whose purchase is still recorded can
/// always take back what it holds: the call succeeds whenever releasing the
/// held payment does, releases it, and forgets the purchase.
pub proof fn law_unclaimed_purchase_of_a_removed_listing_is_refunded(pre: MarketView, signer: AccountId, listing_id: ListingId)
    requires
        !pre.listings.contains_key(listing_id),
        pre.share_owners.contains_key((signer, listing_id)),
        pre.share_owners[(signer, listing_id)].share_amount > 0,
        unfreeze_all(pre.config, pre.share_owners[(signer, listing_id)], signer, true) is Ok,
    ensures
        ({
            let (post, out) = withdraw_unclaimed_spec(pre, signer, listing_id);
            &&& out.failure is None
            &&& out.actions == unfreeze_all(pre.config, pre.share_owners[(signer, listing_id)], signer, true)->Ok_0.1
            &&& post.share_owners == pre.share_owners.remove((signer, listing_id))
            &&& post.listings == pre.listings
        }),
{
}

/// While the listing exists, an investor may take back the payment held for a
/// purchase only once the listing has been relisted since that purchase;
/// otherwise the call succeeds whenever releasing the held payment does.
pub proof fn law_unclaimed_purchase_refund_waits_for_relisting(pre: MarketView, signer: AccountId, listing_id: ListingId)
    requires
        pre.listings.contains_key(listing_id),
        pre.share_owners.contains_key((signer, listing_id)),
        pre.share_owners[(signer, listing_id)].share_amount > 0,
        unfreeze_all(pre.config, pre.share_owners[(signer, listing_id)], signer, true) is Ok,
    ensures
        ({
            let (post, out) = withdraw_unclaimed_spec(pre, signer, listing_id);
            let relisted = pre.listings[listing_id].relist_count > pre.share_owners[(signer, listing_id)].relist_count;
            &&& (out.failure is None) <==> relisted
            &&& !relisted ==> out.failure == Some(MarketError::NoPermission) && post == pre
            &&& relisted ==> post.share_owners == pre.share_owners.remove((signer, listing_id))
                && out.actions == unfreeze_all(pre.config, pre.share_owners[(signer, listing_id)], signer, true)->Ok_0.1
        }),
{
}

/// Closing a claim window for the last time cancels the sale without moving
/// its dates or shares: the expiry and the shares on offer stay, the claim
/// window closes, and the shares sold by then become refundable.
pub proof fn law_last_claim_window_cancels_the_sale(pre: MarketView, signer: AccountId, listing_id: ListingId, now: BlockNumber)
    requires
        finalize_claim_window_spec(pre, signer, listing_id, now).1.failure is None,
        pre.listings.contains_key(listing_id),
        pre.listings[listing_id].relist_count >= pre.config.max_relist_attempts,
    ensures
        ({
            let post = finalize_claim_window_spec(pre, signer, listing_id, now).0;
            let l = pre.listings[listing_id];
            let l2 = post.listings[listing_id];
            &&& post.listings.contains_key(listing_id)
            &&& l2.listing_expiry == l.listing_expiry
            &&& l2.listed_share_amount == l.listed_share_amount
            &&& l2.unclaimed_share_amount == l.unclaimed_share_amount
            &&& l2.claim_expiry is None
            &&& l2.relist_count == l.relist_count + 1
            &&& post.refund_claimed[listing_id] == (if l.share_amount >= l.unclaimed_share_amount { l.share_amount - l.unclaimed_share_amount } else { 0 })
        }),
{
}

/// A lawyer's costs are weighed against all the fees the sale collected: once
/// the earlier checks pass, the claim is refused as too costly exactly when
/// the costs exceed the fees collected in both accepted assets together.
pub proof fn law_lawyer_costs_are_weighed_against_all_fees(pre: MarketView, signer: AccountId, listing_id: ListingId, side: LegalProperty, costs: Balance, now: BlockNumber, lawyer_info: Option<LawyerInfo>, asset_info: Option<PropertyAssetInfo>)
    requires
        lawyer_info is Some,
        asset_info is Some,
        lawyer_info->0.region == asset_info->0.region,
        pre.listings.contains_key(listing_id),
        pre.property_lawyers.contains_key(listing_id),
        !(pre.property_lawyers[listing_id].legal_process_expiry < now),
        pre.listings[listing_id].collected_fees.spec_get(pre.config.accepted_assets, pre.config.accepted_assets.first) is Some,
        pre.listings[listing_id].collected_fees.spec_get(pre.config.accepted_assets, pre.config.accepted_assets.second) is Some,
        pre.config.accepted_assets.first != pre.config.accepted_assets.second,
        ({
            let fees = pre.listings[listing_id].collected_fees;
            fees.first->0 + fees.second->0 <= u128::MAX
        }),
    ensures
        ({
            let fees = pre.listings[listing_id].collected_fees;
            let out = lawyer_claim_spec(pre, signer, listing_id, side, costs, now, lawyer_info, asset_info).1;
            (out.failure == Some(MarketError::CostsTooHigh)) <==> costs > fees.first->0 + fees.second->0
        }),
{
}

/// Delisting relisted shares sends back to the seller exactly the shares that
/// relisting took, and leaves the resale listings as they were.
pub proof fn law_delist_returns_relisted_shares(pre: MarketView, signer: AccountId, asset_id: u32, share_price: Balance, amount: u32, finalized_info: Option<PropertyAssetInfo>)
    requires
        relist_shares_spec(pre, signer, asset_id, share_price, amount, finalized_info).1.failure is None,
        listing_ids_fresh(pre),
    ensures
        ({
            let (mid, relisted) = relist_shares_spec(pre, signer, asset_id, share_price, amount, finalized_info);
            let (post, delisted) = delist_shares_spec(mid, signer, pre.next_listing_id);
            &&& relisted.actions.last() == Action::TransferShares { asset_id, from: AccountRef::User(signer), to: AccountRef::Property(asset_id), amount }
            &&& delisted.failure is None
            &&& delisted.actions == seq![Action::TransferShares { asset_id, from: AccountRef::Property(asset_id), to: AccountRef::User(signer), amount }]
            &&& post.share_listings == pre.share_listings
        }),
{
    let (mid, relisted) = relist_shares_spec(pre, signer, asset_id, share_price, amount, finalized_info);
    let (post, delisted) = delist_shares_spec(mid, signer, pre.next_listing_id);
    assert(post.share_listings =~= pre.share_listings);
}

/// A purchase from a resale listing: the buyer, the amount, the payment asset,
/// what the chain reports of the property and the buyer's share balance.
pub type RelistedPurchase = (AccountId, u32, u32, Option<PropertyAssetInfo>, u32);

/// The marketplace after the given purchases from resale listing
/// `listing_id`, in order; `None` when one of them is refused.
pub open spec fn after_relisted_purchases(m: MarketView, listing_id: ListingId, buys: Seq<RelistedPurchase>) -> Option<MarketView>
    decreases buys.len(),
{
    if buys.len() == 0 {
        Some(m)
    } else {
        match after_relisted_purchases(m, listing_id, buys.drop_last()) {
            None => None,
            Some(m1) => {
                let b = buys.last();
                let (m2, out) = buy_relisted_spec(m1, b.0, listing_id, b.1, b.2, b.3, b.4);
                if out.failure is None { Some(m2) } else { None }
            },
        }
    }
}

/// The shares the given purchases take.
pub open spec fn purchased_amount(buys: Seq<RelistedPurchase>) -> int
    decreases buys.len(),
{
    if buys.len() == 0 { 0 } else { purchased_amount(buys.drop_last()) + buys.last().1 }
}

proof fn lemma_relisted_purchases(m: MarketView, listing_id: ListingId, buys: Seq<RelistedPurchase>)
    requires
        after_relisted_purchases(m, listing_id, buys) is Some,
        m.share_listings.contains_key(listing_id),
        purchased_amount(buys) < m.share_listings[listing_id].amount,
    ensures
        ({
            let post = after_relisted_purchases(m, listing_id, buys)->0;
            let l = m.share_listings[listing_id];
            &&& 0 <= purchased_amount(buys)
            &&& post.share_listings.contains_key(listing_id)
            &&& post.share_listings[listing_id] == (ShareListingDetails { amount: (l.amount - purchased_amount(buys)) as u32, ..l })
        }),
    decreases buys.len(),
{
    if buys.len() > 0 {
        let rest = buys.drop_last();
        assert(purchased_amount(rest) <= purchased_amount(buys)) by {
            lemma_relisted_purchases_nonnegative(rest);
        }
        lemma_relisted_purchases(m, listing_id, rest);
    }
}

proof fn lemma_relisted_purchases_nonnegative(buys: Seq<RelistedPurchase>)
    ensures
        0 <= purchased_amount(buys),
    decreases buys.len(),
{
    if buys.len() > 0 {
        lemma_relisted_purchases_nonnegative(buys.drop_last());
    }
}

/// Delisting relisted shares after some of them were bought gives back to
/// the seller exactly the shares still on offer: those relisted less those
/// bought.
pub proof fn law_delist_returns_unsold_relisted_shares(pre: MarketView, signer: AccountId, asset_id: u32, share_price: Balance, amount: u32, finalized_info: Option<PropertyAssetInfo>, buys: Seq<RelistedPurchase>)
    requires
        relist_shares_spec(pre, signer, asset_id, share_price, amount, finalized_info).1.failure is None,
        after_relisted_purchases(relist_shares_spec(pre, signer, asset_id, share_price, amount, finalized_info).0, pre.next_listing_id, buys) is Some,
        purchased_amount(buys) < amount,
    ensures
        ({
            let mid = relist_shares_spec(pre, signer, asset_id, share_price, amount, finalized_info).0;
            let bought = after_relisted_purchases(mid, pre.next_listing_id, buys)->0;
            let (post, delisted) = delist_shares_spec(bought, signer, pre.next_listing_id);
            &&& delisted.failure is None
            &&& delisted.actions == seq![Action::TransferShares {
                asset_id,
                from: AccountRef::Property(asset_id),
                to: AccountRef::User(signer),
                amount: (amount - purchased_amount(buys)) as u32,
            }]
            &&& !post.share_listings.contains_key(pre.next_listing_id)
        }),
{
    let mid = relist_shares_spec(pre, signer, asset_id, share_price, amount, finalized_info).0;
    lemma_relisted_purchases(mid, pre.next_listing_id, buys);
}

/// Once the vote has ended, unfreezing gives back exactly the shares the last
/// vote froze.
pub proof fn law_unfreeze_releases_last_vote(pre: MarketView, signer: AccountId, listing_id: ListingId, vote: Vote, amount: u32, now: BlockNumber, voting_power: u32, later: BlockNumber)
    requires
        vote_spec(pre, signer, listing_id, vote, amount, now, voting_power).1.failure is None,
        later >= pre.spv_lawyer_proposals[pre.listing_spv_proposal[listing_id]].expiry_block,
    ensures
        ({
            let pid = pre.listing_spv_proposal[listing_id];
            let asset_id = pre.spv_lawyer_proposals[pid].asset_id;
            let (mid, voted) = vote_spec(pre, signer, listing_id, vote, amount, now, voting_power);
            let (post, unfrozen) = unfreeze_vote_spec(mid, signer, pid, later);
            &&& voted.actions.last() == Action::IncreaseFrozen { asset_id, who: signer, amount }
            &&& unfrozen.failure is None
            &&& unfrozen.actions == seq![Action::DecreaseFrozen { asset_id, who: signer, amount }]
            &&& !post.user_lawyer_votes.contains_key((pid, signer))
        }),
{
}

/// A second vote on the same proposal replaces the first: unless a tally
/// saturates, the tally is what the second vote alone would have made it, and
/// the shares the first vote froze are unfrozen before the new ones are frozen.
pub proof fn law_second_vote_replaces_first(pre: MarketView, signer: AccountId, listing_id: ListingId, first: Vote, first_amount: u32, second: Vote, second_amount: u32, now: BlockNumber, voting_power: u32)
    requires
        vote_spec(pre, signer, listing_id, first, first_amount, now, voting_power).1.failure is None,
        vote_spec(pre, signer, listing_id, second, second_amount, now, voting_power).1.failure is None,
        !pre.user_lawyer_votes.contains_key((pre.listing_spv_proposal[listing_id], signer)),
        ({
            let v = pre.lawyer_votings[pre.listing_spv_proposal[listing_id]];
            &&& v.yes_voting_power + first_amount + second_amount <= u32::MAX
            &&& v.no_voting_power + first_amount + second_amount <= u32::MAX
            &&& v.abstain_voting_power + first_amount + second_amount <= u32::MAX
        }),
    ensures
        ({
            let pid = pre.listing_spv_proposal[listing_id];
            let asset_id = pre.spv_lawyer_proposals[pid].asset_id;
            let mid = vote_spec(pre, signer, listing_id, first, first_amount, now, voting_power).0;
            let (post, out) = vote_spec(mid, signer, listing_id, second, second_amount, now, voting_power);
            let alone = vote_spec(pre, signer, listing_id, second, second_amount, now, voting_power).0;
            &&& out.failure is None
            &&& post.lawyer_votings[pid] == alone.lawyer_votings[pid]
            &&& post.user_lawyer_votes[(pid, signer)] == VoteRecord { vote: second, asset_id, power: second_amount }
            &&& out.actions == seq![
                Action::DecreaseFrozen { asset_id, who: signer, amount: first_amount },
                Action::IncreaseFrozen { asset_id, who: signer, amount: second_amount },
            ]
        }),
{
    let pid = pre.listing_spv_proposal[listing_id];
    let mid = vote_spec(pre, signer, listing_id, first, first_amount, now, voting_power).0;
    let (post, out) = vote_spec(mid, signer, listing_id, second, second_amount, now, voting_power);
    let alone = vote_spec(pre, signer, listing_id, second, second_amount, now, voting_power).0;
    assert(post.lawyer_votings[pid] == alone.lawyer_votings[pid]);
}

/// The tally of one kind of vote.
pub open spec fn tally_for(v: VoteStats, vote: Vote) -> int {
    match vote {
        Vote::Yes => v.yes_voting_power as int,
        Vote::No => v.no_voting_power as int,
        Vote::Abstain => v.abstain_voting_power as int,
    }
}

/// What `voter`'s recorded vote on proposal `pid` adds to the tally of `vote`.
pub open spec fn recorded_by(votes: Map<(ProposalId, AccountId), VoteRecord>, pid: ProposalId, vote: Vote, voter: AccountId) -> int {
    if votes.contains_key((pid, voter)) && votes[(pid, voter)].vote == vote {
        votes[(pid, voter)].power as int
    } else {
        0
    }
}

/// The voting power recorded for `vote` on proposal `pid` by the given voters.
pub open spec fn recorded_power(votes: Map<(ProposalId, AccountId), VoteRecord>, pid: ProposalId, vote: Vote, voters: Seq<AccountId>) -> int
    decreases voters.len(),
{
    if voters.len() == 0 {
        0
    } else {
        recorded_power(votes, pid, vote, voters.drop_last()) + recorded_by(votes, pid, vote, voters.last())
    }
}

/// The given voters, each named once, include everyone with a recorded vote on `pid`.
pub open spec fn lists_all_voters(votes: Map<(ProposalId, AccountId), VoteRecord>, pid: ProposalId, voters: Seq<AccountId>) -> bool {
    &&& voters.no_duplicates()
    &&& forall|a: AccountId| #[trigger] votes.contains_key((pid, a)) ==> voters.contains(a)
}

/// Each tally of proposal `pid` is the sum of the votes recorded for it by `voters`.
pub open spec fn tallies_match_votes(m: MarketView, pid: ProposalId, voters: Seq<AccountId>) -> bool {
    &&& m.lawyer_votings.contains_key(pid)
    &&& tally_for(m.lawyer_votings[pid], Vote::Yes) == recorded_power(m.user_lawyer_votes, pid, Vote::Yes, voters)
    &&& tally_for(m.lawyer_votings[pid], Vote::No) == recorded_power(m.user_lawyer_votes, pid, Vote::No, voters)
    &&& tally_for(m.lawyer_votings[pid], Vote::Abstain) == recorded_power(m.user_lawyer_votes, pid, Vote::Abstain, voters)
}

proof fn lemma_recorded_power_nonnegative(votes: Map<(ProposalId, AccountId), VoteRecord>, pid: ProposalId, vote: Vote, voters: Seq<AccountId>, voter: AccountId)
    ensures
        0 <= recorded_power(votes, pid, vote, voters),
        voters.contains(voter) ==> recorded_by(votes, pid, vote, voter) <= recorded_power(votes, pid, vote, voters),
    decreases voters.len(),
{
    if voters.len() > 0 {
        let rest = voters.drop_last();
        lemma_recorded_power_nonnegative(votes, pid, vote, rest, voter);
        if voters.contains(voter) && voters.last() != voter {
            let i = choose|i: int| 0 <= i < voters.len() && voters[i] == voter;
            assert(rest[i] == voter);
        }
    }
}

proof fn lemma_recorded_power_without_records(votes: Map<(ProposalId, AccountId), VoteRecord>, pid: ProposalId, vote: Vote, voters: Seq<AccountId>)
    requires
        forall|a: AccountId| !(#[trigger] votes.contains_key((pid, a))),
    ensures
        recorded_power(votes, pid, vote, voters) == 0,
    decreases voters.len(),
{
    if voters.len() > 0 {
        lemma_recorded_power_without_records(votes, pid, vote, voters.drop_last());
        assert(!votes.contains_key((pid, voters.last())));
    }
}

proof fn lemma_recorded_power_replace(votes: Map<(ProposalId, AccountId), VoteRecord>, pid: ProposalId, vote: Vote, voters: Seq<AccountId>, voter: AccountId, r: VoteRecord)
    requires
        voters.no_duplicates(),
    ensures
        ({
            let after = votes.insert((pid, voter), r);
            recorded_power(after, pid, vote, voters) == recorded_power(votes, pid, vote, voters)
                + if voters.contains(voter) { recorded_by(after, pid, vote, voter) - recorded_by(votes, pid, vote, voter) } else { 0 }
        }),
    decreases voters.len(),
{
    if voters.len() > 0 {
        let rest = voters.drop_last();
        assert(rest.no_duplicates()) by {
            assert forall|i: int, j: int| 0 <= i < rest.len() && 0 <= j < rest.len() && i != j implies rest[i] != rest[j] by {
                assert(rest[i] == voters[i] && rest[j] == voters[j]);
            }
        }
        lemma_recorded_power_replace(votes, pid, vote, rest, voter, r);
        if voters.last() == voter {
            assert(!rest.contains(voter)) by {
                if rest.contains(voter) {
                    let i = choose|i: int| 0 <= i < rest.len() && rest[i] == voter;
                    assert(voters[i] == voters[voters.len() - 1]);
                }
            }
        } else {
            if voters.contains(voter) {
                let i = choose|i: int| 0 <= i < voters.len() && voters[i] == voter;
                assert(rest[i] == voter);
            }
            if rest.contains(voter) {
                let i = choose|i: int| 0 <= i < rest.len() && rest[i] == voter;
                assert(voters[i] == voter);
            }
        }
    }
}

/// A new lawyer proposal starts with tallies of zero and no recorded votes,
/// provided no votes were recorded under its id before.
pub proof fn law_new_proposal_tallies_match_votes(pre: MarketView, signer: AccountId, listing_id: ListingId, costs: Balance, now: BlockNumber, lawyer_info: Option<LawyerInfo>, asset_info: Option<PropertyAssetInfo>, voters: Seq<AccountId>)
    requires
        lawyer_claim_spec(pre, signer, listing_id, LegalProperty::SpvSide, costs, now, lawyer_info, asset_info).1.failure is None,
        forall|a: AccountId| !(#[trigger] pre.user_lawyer_votes.contains_key((pre.proposal_counter, a))),
    ensures
        ({
            let post = lawyer_claim_spec(pre, signer, listing_id, LegalProperty::SpvSide, costs, now, lawyer_info, asset_info).0;
            &&& post.listing_spv_proposal[listing_id] == pre.proposal_counter
            &&& tallies_match_votes(post, pre.proposal_counter, voters)
        }),
{
    let pid = pre.proposal_counter;
    lemma_recorded_power_without_records(pre.user_lawyer_votes, pid, Vote::Yes, voters);
    lemma_recorded_power_without_records(pre.user_lawyer_votes, pid, Vote::No, voters);
    lemma_recorded_power_without_records(pre.user_lawyer_votes, pid, Vote::Abstain, voters);
}

/// Voting keeps every tally of the proposal equal to the sum of the votes
/// recorded for it, as long as no tally saturates: a voter's new vote replaces
/// the one recorded before, it is never added to it.
pub proof fn law_vote_keeps_tallies_equal_to_recorded_votes(pre: MarketView, signer: AccountId, listing_id: ListingId, vote: Vote, amount: u32, now: BlockNumber, voting_power: u32, voters: Seq<AccountId>)
    requires
        vote_spec(pre, signer, listing_id, vote, amount, now, voting_power).1.failure is None,
        tallies_match_votes(pre, pre.listing_spv_proposal[listing_id], voters),
        lists_all_voters(pre.user_lawyer_votes, pre.listing_spv_proposal[listing_id], voters),
        voters.contains(signer),
        tally_for(pre.lawyer_votings[pre.listing_spv_proposal[listing_id]], vote) + amount <= u32::MAX,
    ensures
        ({
            let pid = pre.listing_spv_proposal[listing_id];
            let post = vote_spec(pre, signer, listing_id, vote, amount, now, voting_power).0;
            &&& tallies_match_votes(post, pid, voters)
            &&& lists_all_voters(post.user_lawyer_votes, pid, voters)
        }),
{
    let pid = pre.listing_spv_proposal[listing_id];
    let post = vote_spec(pre, signer, listing_id, vote, amount, now, voting_power).0;
    let votes = pre.user_lawyer_votes;
    let r = VoteRecord { vote, asset_id: pre.spv_lawyer_proposals[pid].asset_id, power: amount };
    assert(post.user_lawyer_votes == votes.insert((pid, signer), r));
    lemma_recorded_power_replace(votes, pid, Vote::Yes, voters, signer, r);
    lemma_recorded_power_replace(votes, pid, Vote::No, voters, signer, r);
    lemma_recorded_power_replace(votes, pid, Vote::Abstain, voters, signer, r);
    lemma_recorded_power_nonnegative(votes, pid, Vote::Yes, voters, signer);
    lemma_recorded_power_nonnegative(votes, pid, Vote::No, voters, signer);
    lemma_recorded_power_nonnegative(votes, pid, Vote::Abstain, voters, signer);
    assert forall|a: AccountId| #[trigger] post.user_lawyer_votes.contains_key((pid, a)) implies voters.contains(a) by {
        if a != signer {
            assert(votes.contains_key((pid, a)));
        }
    }
}

/// Cancelling a first purchase while the listing is still open and not sold
/// out succeeds and undoes it: exactly what the purchase put on hold is
/// released, the listing is as it was before (its listed and unclaimed share
/// amounts included), and the purchase is forgotten.
pub proof fn law_cancel_undoes_first_purchase(pre: MarketView, signer: AccountId, listing_id: ListingId, amount: u32, payment_asset: u32, now: BlockNumber, asset_info: Option<PropertyAssetInfo>, owned_shares: u32)
    requires
        buy_spec(pre, signer, listing_id, amount, payment_asset, now, asset_info, owned_shares).1.failure is None,
        !pre.share_owners.contains_key((signer, listing_id)),
        pre.listings[listing_id].listed_share_amount > amount,
        pre.listings[listing_id].share_price > 0,
        pre.config.accepted_assets.first != pre.config.accepted_assets.second,
    ensures
        ({
            let (mid, bought) = buy_spec(pre, signer, listing_id, amount, payment_asset, now, asset_info, owned_shares);
            let (post, out) = cancel_purchase_spec(mid, signer, listing_id, now);
            let held = bought.actions[0]->HoldFunds_amount;
            &&& bought.actions == seq![Action::HoldFunds { asset: payment_asset, who: signer, amount: held }]
            &&& out.failure is None
            &&& out.actions == seq![Action::ReleaseFunds { asset: payment_asset, who: signer, amount: held }]
            &&& post.listings == pre.listings
            &&& post.share_owners == pre.share_owners
        }),
{
    reveal(unfreeze_all);
    let (mid, bought) = buy_spec(pre, signer, listing_id, amount, payment_asset, now, asset_info, owned_shares);
    let (post, out) = cancel_purchase_spec(mid, signer, listing_id, now);
    let l = pre.listings[listing_id];
    assert(l.share_price * amount > 0) by (nonlinear_arith)
        requires l.share_price > 0, amount > 0;
    assert(post.listings[listing_id] == l);
    assert(post.listings =~= pre.listings);
    assert(post.share_owners =~= pre.share_owners);
}

/// The legal process and the refund of its expiry meet at one block: while
/// the process has not expired, the refund is refused as ongoing and neither
/// lawyers' confirmations nor lawyers' claims are refused as failed; once it
/// has, exactly the opposite holds.
pub proof fn law_legal_process_and_expiry_refund_split_at_expiry(pre: MarketView, investor: AccountId, listing_id: ListingId, share_balance: u32, lawyer: AccountId, approve: bool, side: LegalProperty, costs: Balance, now: BlockNumber, lawyer_info: Option<LawyerInfo>, asset_info: Option<PropertyAssetInfo>, region_info: Option<RegionInfo>)
    requires
        pre.listings.contains_key(listing_id),
        pre.property_lawyers.contains_key(listing_id),
        !pre.refund_legal_expired.contains_key(listing_id),
        share_balance > 0,
        lawyer_info is Some,
        asset_info is Some,
        lawyer_info->0.region == asset_info->0.region,
    ensures
        ({
            let expired = pre.property_lawyers[listing_id].legal_process_expiry < now;
            let refund = withdraw_legal_expired_spec(pre, investor, listing_id, share_balance, now).1.failure;
            let confirm = confirm_documents_spec(pre, lawyer, listing_id, approve, now, asset_info, region_info).1.failure;
            let claim = lawyer_claim_spec(pre, lawyer, listing_id, side, costs, now, lawyer_info, asset_info).1.failure;
            &&& (refund == Some(MarketError::LegalProcessOngoing)) <==> !expired
            &&& (confirm == Some(MarketError::LegalProcessFailed)) <==> expired
            &&& (claim == Some(MarketError::LegalProcessFailed)) <==> expired
        }),
{
    reveal(settle_all_assets);
}

/// A refused primary-sale call changes nothing the marketplace stores.
pub proof fn law_refused_primary_sale_call_changes_nothing()
    ensures
        forall|pre: MarketView, signer: AccountId, share_price: Balance, share_amount: u32, metadata: Vec<u8>, by_developer: bool, now: BlockNumber, region_info: Option<RegionInfo>, located: bool, can_pay: bool, item_id: u32, asset_id: u32|
            #[trigger] list_property_spec(pre, signer, share_price, share_amount, metadata, by_developer, now, region_info, located, can_pay, item_id, asset_id).1.failure is Some
            ==> list_property_spec(pre, signer, share_price, share_amount, metadata, by_developer, now, region_info, located, can_pay, item_id, asset_id).0 == pre,
        forall|pre: MarketView, signer: AccountId, listing_id: ListingId, amount: u32, asset: u32, now: BlockNumber, info: Option<PropertyAssetInfo>, owned: u32|
            #[trigger] buy_spec(pre, signer, listing_id, amount, asset, now, info, owned).1.failure is Some
            ==> buy_spec(pre, signer, listing_id, amount, asset, now, info, owned).0 == pre,
        forall|pre: MarketView, signer: AccountId, listing_id: ListingId, now: BlockNumber|
            #[trigger] finalize_claim_window_spec(pre, signer, listing_id, now).1.failure is Some ==> finalize_claim_window_spec(pre, signer, listing_id, now).0 == pre,
        forall|pre: MarketView, listing_id: ListingId, now: BlockNumber|
            #[trigger] create_spv_spec(pre, listing_id, now).1.failure is Some ==> create_spv_spec(pre, listing_id, now).0 == pre,
        forall|pre: MarketView, signer: AccountId, listing_id: ListingId, now: BlockNumber|
            #[trigger] cancel_purchase_spec(pre, signer, listing_id, now).1.failure is Some ==> cancel_purchase_spec(pre, signer, listing_id, now).0 == pre,
        forall|pre: MarketView, signer: AccountId, listing_id: ListingId, now: BlockNumber|
            #[trigger] withdraw_expired_spec(pre, signer, listing_id, now).1.failure is Some ==> withdraw_expired_spec(pre, signer, listing_id, now).0 == pre,
        forall|pre: MarketView, signer: AccountId, listing_id: ListingId, now: BlockNumber|
            #[trigger] withdraw_deposit_unsold_spec(pre, signer, listing_id, now).1.failure is Some ==> withdraw_deposit_unsold_spec(pre, signer, listing_id, now).0 == pre,
        forall|pre: MarketView, signer: AccountId, listing_id: ListingId|
            #[trigger] withdraw_unclaimed_spec(pre, signer, listing_id).1.failure is Some ==> withdraw_unclaimed_spec(pre, signer, listing_id).0 == pre,
        forall|pre: MarketView, signer: AccountId, listing_id: ListingId, price: Balance, now: BlockNumber|
            #[trigger] upgrade_object_spec(pre, signer, listing_id, price, now).1.failure is Some ==> upgrade_object_spec(pre, signer, listing_id, price, now).0 == pre,
        forall|pre: MarketView, signer: AccountId, listing_id: ListingId, now: BlockNumber|
            #[trigger] claim_spec(pre, signer, listing_id, now).1.failure is Some ==> claim_spec(pre, signer, listing_id, now).0 == pre,
{
}

/// A refused resale call changes nothing the marketplace stores; sending shares
/// never changes it.
pub proof fn law_refused_resale_call_changes_nothing()
    ensures
        forall|pre: MarketView, signer: AccountId, asset_id: u32, price: Balance, amount: u32, info: Option<PropertyAssetInfo>|
            #[trigger] relist_shares_spec(pre, signer, asset_id, price, amount, info).1.failure is Some ==> relist_shares_spec(pre, signer, asset_id, price, amount, info).0 == pre,
        forall|pre: MarketView, buyer: AccountId, listing_id: ListingId, amount: u32, asset: u32, info: Option<PropertyAssetInfo>, owned: u32|
            #[trigger] buy_relisted_spec(pre, buyer, listing_id, amount, asset, info, owned).1.failure is Some ==> buy_relisted_spec(pre, buyer, listing_id, amount, asset, info, owned).0 == pre,
        forall|pre: MarketView, signer: AccountId, listing_id: ListingId, price: Balance, amount: u32, asset: u32|
            #[trigger] make_offer_spec(pre, signer, listing_id, price, amount, asset).1.failure is Some ==> make_offer_spec(pre, signer, listing_id, price, amount, asset).0 == pre,
        forall|pre: MarketView, signer: AccountId, listing_id: ListingId, offeror: AccountId, offer: Offer, nonce: u64, info: Option<PropertyAssetInfo>, owned: u32|
            #[trigger] handle_offer_spec(pre, signer, listing_id, offeror, offer, nonce, info, owned).1.failure is Some ==> handle_offer_spec(pre, signer, listing_id, offeror, offer, nonce, info, owned).0 == pre,
        forall|pre: MarketView, signer: AccountId, listing_id: ListingId|
            #[trigger] cancel_offer_spec(pre, signer, listing_id).1.failure is Some ==> cancel_offer_spec(pre, signer, listing_id).0 == pre,
        forall|pre: MarketView, signer: AccountId, listing_id: ListingId|
            #[trigger] delist_shares_spec(pre, signer, listing_id).1.failure is Some ==> delist_shares_spec(pre, signer, listing_id).0 == pre,
        forall|pre: MarketView, sender: AccountId, asset_id: u32, receiver: AccountId, amount: u32, compliant: bool, info: Option<PropertyAssetInfo>, owned: u32|
            #[trigger] send_property_shares_spec(pre, sender, asset_id, receiver, amount, compliant, info, owned).0 == pre,
{
}

/// A refused call of the legal process changes nothing the marketplace stores.
pub proof fn law_refused_legal_call_changes_nothing()
    ensures
        forall|pre: MarketView, signer: AccountId, listing_id: ListingId, side: LegalProperty, costs: Balance, now: BlockNumber, lawyer: Option<LawyerInfo>, info: Option<PropertyAssetInfo>|
            #[trigger] lawyer_claim_spec(pre, signer, listing_id, side, costs, now, lawyer, info).1.failure is Some ==> lawyer_claim_spec(pre, signer, listing_id, side, costs, now, lawyer, info).0 == pre,
        forall|pre: MarketView, signer: AccountId, listing_id: ListingId, vote: Vote, amount: u32, now: BlockNumber, power: u32|
            #[trigger] vote_spec(pre, signer, listing_id, vote, amount, now, power).1.failure is Some ==> vote_spec(pre, signer, listing_id, vote, amount, now, power).0 == pre,
        forall|pre: MarketView, signer: AccountId, listing_id: ListingId, approve: bool, now: BlockNumber|
            #[trigger] approve_developer_lawyer_spec(pre, signer, listing_id, approve, now).1.failure is Some ==> approve_developer_lawyer_spec(pre, signer, listing_id, approve, now).0 == pre,
        forall|pre: MarketView, listing_id: ListingId, now: BlockNumber, info: Option<PropertyAssetInfo>|
            #[trigger] finalize_spv_lawyer_spec(pre, listing_id, now, info).1.failure is Some ==> finalize_spv_lawyer_spec(pre, listing_id, now, info).0 == pre,
        forall|pre: MarketView, signer: AccountId, proposal_id: ProposalId, now: BlockNumber|
            #[trigger] unfreeze_vote_spec(pre, signer, proposal_id, now).1.failure is Some ==> unfreeze_vote_spec(pre, signer, proposal_id, now).0 == pre,
        forall|pre: MarketView, signer: AccountId, listing_id: ListingId, registered: bool|
            #[trigger] remove_lawyer_claim_spec(pre, signer, listing_id, registered).1.failure is Some ==> remove_lawyer_claim_spec(pre, signer, listing_id, registered).0 == pre,
        forall|pre: MarketView, signer: AccountId, listing_id: ListingId, approve: bool, now: BlockNumber, info: Option<PropertyAssetInfo>, region: Option<RegionInfo>|
            #[trigger] confirm_documents_spec(pre, signer, listing_id, approve, now, info, region).1.failure is Some ==> confirm_documents_spec(pre, signer, listing_id, approve, now, info, region).0 == pre,
        forall|pre: MarketView, signer: AccountId, listing_id: ListingId, balance: u32|
            #[trigger] withdraw_rejected_spec(pre, signer, listing_id, balance).1.failure is Some ==> withdraw_rejected_spec(pre, signer, listing_id, balance).0 == pre,
        forall|pre: MarketView, signer: AccountId, listing_id: ListingId, balance: u32, now: BlockNumber|
            #[trigger] withdraw_legal_expired_spec(pre, signer, listing_id, balance, now).1.failure is Some ==> withdraw_legal_expired_spec(pre, signer, listing_id, balance, now).0 == pre,
        forall|pre: MarketView, signer: AccountId, listing_id: ListingId, balance: u32|
            #[trigger] withdraw_claiming_expired_spec(pre, signer, listing_id, balance).1.failure is Some ==> withdraw_claiming_expired_spec(pre, signer, listing_id, balance).0 == pre,
{
}

/// Every primary-sale and resale listing has its own id, below the next id
/// to be given out.
pub open spec fn listing_ids_fresh(m: MarketView) -> bool {
    &&& forall|id: ListingId| #[trigger] m.listings.contains_key(id) ==> id < m.next_listing_id
    &&& forall|id: ListingId| #[trigger] m.share_listings.contains_key(id) ==> id < m.next_listing_id
    &&& forall|id: ListingId| m.listings.contains_key(id) ==> !(#[trigger] m.share_listings.contains_key(id))
}

/// Listing ids are never reused: every call of the primary sale keeps each
/// listing's id distinct and below the next id to be given out.
pub proof fn law_primary_sale_keeps_listing_ids_fresh()
    ensures
        forall|pre: MarketView, signer: AccountId, share_price: Balance, share_amount: u32, metadata: Vec<u8>, by_developer: bool, now: BlockNumber, region_info: Option<RegionInfo>, located: bool, can_pay: bool, item_id: u32, asset_id: u32|
            listing_ids_fresh(pre) ==> listing_ids_fresh(#[trigger] list_property_spec(pre, signer, share_price, share_amount, metadata, by_developer, now, region_info, located, can_pay, item_id, asset_id).0),
        forall|pre: MarketView, signer: AccountId, listing_id: ListingId, amount: u32, asset: u32, now: BlockNumber, info: Option<PropertyAssetInfo>, owned: u32|
            listing_ids_fresh(pre) ==> listing_ids_fresh(#[trigger] buy_spec(pre, signer, listing_id, amount, asset, now, info, owned).0),
        forall|pre: MarketView, signer: AccountId, listing_id: ListingId, now: BlockNumber|
            listing_ids_fresh(pre) ==> listing_ids_fresh(#[trigger] finalize_claim_window_spec(pre, signer, listing_id, now).0),
        forall|pre: MarketView, listing_id: ListingId, now: BlockNumber|
            listing_ids_fresh(pre) ==> listing_ids_fresh(#[trigger] create_spv_spec(pre, listing_id, now).0),
        forall|pre: MarketView, signer: AccountId, listing_id: ListingId, now: BlockNumber|
            listing_ids_fresh(pre) ==> listing_ids_fresh(#[trigger] cancel_purchase_spec(pre, signer, listing_id, now).0),
        forall|pre: MarketView, signer: AccountId, listing_id: ListingId, now: BlockNumber|
            listing_ids_fresh(pre) ==> listing_ids_fresh(#[trigger] withdraw_expired_spec(pre, signer, listing_id, now).0),
        forall|pre: MarketView, signer: AccountId, listing_id: ListingId, now: BlockNumber|
            listing_ids_fresh(pre) ==> listing_ids_fresh(#[trigger] withdraw_deposit_unsold_spec(pre, signer, listing_id, now).0),
        forall|pre: MarketView, signer: AccountId, listing_id: ListingId|
            listing_ids_fresh(pre) ==> listing_ids_fresh(#[trigger] withdraw_unclaimed_spec(pre, signer, listing_id).0),
        forall|pre: MarketView, signer: AccountId, listing_id: ListingId, price: Balance, now: BlockNumber|
            listing_ids_fresh(pre) ==> listing_ids_fresh(#[trigger] upgrade_object_spec(pre, signer, listing_id, price, now).0),
        forall|pre: MarketView, signer: AccountId, listing_id: ListingId, now: BlockNumber|
            listing_ids_fresh(pre) ==> listing_ids_fresh(#[trigger] claim_spec(pre, signer, listing_id, now).0),
{
}

/// Listing ids are never reused: every resale call keeps each listing's id
/// distinct and below the next id to be given out.
pub proof fn law_resale_keeps_listing_ids_fresh()
    ensures
        forall|pre: MarketView, signer: AccountId, asset_id: u32, price: Balance, amount: u32, info: Option<PropertyAssetInfo>|
            listing_ids_fresh(pre) ==> listing_ids_fresh(#[trigger] relist_shares_spec(pre, signer, asset_id, price, amount, info).0),
        forall|pre: MarketView, buyer: AccountId, listing_id: ListingId, amount: u32, asset: u32, info: Option<PropertyAssetInfo>, owned: u32|
            listing_ids_fresh(pre) ==> listing_ids_fresh(#[trigger] buy_relisted_spec(pre, buyer, listing_id, amount, asset, info, owned).0),
        forall|pre: MarketView, signer: AccountId, listing_id: ListingId, price: Balance, amount: u32, asset: u32|
            listing_ids_fresh(pre) ==> listing_ids_fresh(#[trigger] make_offer_spec(pre, signer, listing_id, price, amount, asset).0),
        forall|pre: MarketView, signer: AccountId, listing_id: ListingId, offeror: AccountId, offer: Offer, nonce: u64, info: Option<PropertyAssetInfo>, owned: u32|
            listing_ids_fresh(pre) ==> listing_ids_fresh(#[trigger] handle_offer_spec(pre, signer, listing_id, offeror, offer, nonce, info, owned).0),
        forall|pre: MarketView, signer: AccountId, listing_id: ListingId|
            listing_ids_fresh(pre) ==> listing_ids_fresh(#[trigger] cancel_offer_spec(pre, signer, listing_id).0),
        forall|pre: MarketView, signer: AccountId, listing_id: ListingId|
            listing_ids_fresh(pre) ==> listing_ids_fresh(#[trigger] delist_shares_spec(pre, signer, listing_id).0),
{
}

/// Listing ids are never reused: every call of the legal process keeps each
/// listing's id distinct and below the next id to be given out.
pub proof fn law_legal_process_keeps_listing_ids_fresh()
    ensures
        forall|pre: MarketView, signer: AccountId, listing_id: ListingId, side: LegalProperty, costs: Balance, now: BlockNumber, lawyer: Option<LawyerInfo>, info: Option<PropertyAssetInfo>|
            listing_ids_fresh(pre) ==> listing_ids_fresh(#[trigger] lawyer_claim_spec(pre, signer, listing_id, side, costs, now, lawyer, info).0),
        forall|pre: MarketView, signer: AccountId, listing_id: ListingId, vote: Vote, amount: u32, now: BlockNumber, power: u32|
            listing_ids_fresh(pre) ==> listing_ids_fresh(#[trigger] vote_spec(pre, signer, listing_id, vote, amount, now, power).0),
        forall|pre: MarketView, signer: AccountId, listing_id: ListingId, approve: bool, now: BlockNumber|
            listing_ids_fresh(pre) ==> listing_ids_fresh(#[trigger] approve_developer_lawyer_spec(pre, signer, listing_id, approve, now).0),
        forall|pre: MarketView, listing_id: ListingId, now: BlockNumber, info: Option<PropertyAssetInfo>|
            listing_ids_fresh(pre) ==> listing_ids_fresh(#[trigger] finalize_spv_lawyer_spec(pre, listing_id, now, info).0),
        forall|pre: MarketView, signer: AccountId, proposal_id: ProposalId, now: BlockNumber|
            listing_ids_fresh(pre) ==> listing_ids_fresh(#[trigger] unfreeze_vote_spec(pre, signer, proposal_id, now).0),
        forall|pre: MarketView, signer: AccountId, listing_id: ListingId, registered: bool|
            listing_ids_fresh(pre) ==> listing_ids_fresh(#[trigger] remove_lawyer_claim_spec(pre, signer, listing_id, registered).0),
        forall|pre: MarketView, signer: AccountId, listing_id: ListingId, approve: bool, now: BlockNumber, info: Option<PropertyAssetInfo>, region: Option<RegionInfo>|
            listing_ids_fresh(pre) ==> listing_ids_fresh(#[trigger] confirm_documents_spec(pre, signer, listing_id, approve, now, info, region).0),
        forall|pre: MarketView, signer: AccountId, listing_id: ListingId, balance: u32|
            listing_ids_fresh(pre) ==> listing_ids_fresh(#[trigger] withdraw_rejected_spec(pre, signer, listing_id, balance).0),
        forall|pre: MarketView, signer: AccountId, listing_id: ListingId, balance: u32, now: BlockNumber|
            listing_ids_fresh(pre) ==> listing_ids_fresh(#[trigger] withdraw_legal_expired_spec(pre, signer, listing_id, balance, now).0),
        forall|pre: MarketView, signer: AccountId, listing_id: ListingId, balance: u32|
            listing_ids_fresh(pre) ==> listing_ids_fresh(#[trigger] withdraw_claiming_expired_spec(pre, signer, listing_id, balance).0),
{
}

/// A marketplace without listings meets the listing-id invariant.
pub proof fn law_empty_marketplace_has_fresh_ids(m: MarketView)
    requires
        m.listings.is_empty(),
        m.share_listings.is_empty(),
    ensures
        listing_ids_fresh(m),
{
}

/// Closing a listing of which nothing was sold, once it expired, releases
/// exactly the deposit that listing it put on hold, and removes the listing.
pub proof fn law_unsold_listing_returns_its_deposit(pre: MarketView, signer: AccountId, share_price: Balance, share_amount: u32, metadata: Vec<u8>, by_developer: bool, now: BlockNumber, region_info: Option<RegionInfo>, located: bool, can_pay: bool, item_id: u32, asset_id: u32, later: BlockNumber)
    requires
        list_property_spec(pre, signer, share_price, share_amount, metadata, by_developer, now, region_info, located, can_pay, item_id, asset_id).1.failure is None,
        listing_ids_fresh(pre),
        later > sat_add(now, region_info->0.listing_duration),
    ensures
        ({
            let (mid, listed) = list_property_spec(pre, signer, share_price, share_amount, metadata, by_developer, now, region_info, located, can_pay, item_id, asset_id);
            let (post, closed) = withdraw_deposit_unsold_spec(mid, signer, pre.next_listing_id, later);
            &&& listed.actions == seq![Action::HoldDeposit { who: signer, amount: pre.config.listing_deposit }]
            &&& closed.failure is None
            &&& closed.actions == seq![
                Action::BurnPropertyShares { asset_id },
                Action::ReleaseDeposit { who: signer, amount: pre.config.listing_deposit },
                Action::SweepNative { asset_id, to: signer },
            ]
            &&& post.listings == pre.listings
        }),
{
    let (mid, listed) = list_property_spec(pre, signer, share_price, share_amount, metadata, by_developer, now, region_info, located, can_pay, item_id, asset_id);
    let (post, closed) = withdraw_deposit_unsold_spec(mid, signer, pre.next_listing_id, later);
    assert(post.listings =~= pre.listings);
}

/// The marketplace fee never undercharges: it is the fee share of the price
/// rounded up to a whole unit, and never more than the price.
pub proof fn law_fee_rounds_up(cfg: MarketConfig, price: Balance)
    requires
        cfg.marketplace_fee.value() <= PERBILL_ACCURACY,
    ensures
        fee_on(cfg, price) * PERBILL_ACCURACY >= price * cfg.marketplace_fee.value(),
        (fee_on(cfg, price) - 1) * PERBILL_ACCURACY < price * cfg.marketplace_fee.value(),
        0 <= fee_on(cfg, price) <= price,
{
    let x = price as int;
    let p = cfg.marketplace_fee.value() as int;
    let a = PERBILL_ACCURACY as int;
    let n = x * p + a - 1;
    let q = fee_on(cfg, price);
    assert(0 <= x * p) by (nonlinear_arith)
        requires
            0 <= x,
            0 <= p,
    ;
    lemma_fundamental_div_mod(n, a);
    assert(q == n / a);
    assert(n == a * q + n % a);
    assert(0 <= n % a < a);
    assert(q * a == a * q) by (nonlinear_arith);
    assert((q - 1) * a == q * a - a) by (nonlinear_arith);
    assert(0 <= q) by (nonlinear_arith)
        requires
            n == a * q + n % a,
            0 <= n % a < a,
            n >= a - 1,
            a > 0,
    ;
    assert(q <= x) by (nonlinear_arith)
        requires
            n == a * q + n % a,
            0 <= n % a,
            n == x * p + a - 1,
            0 <= p <= a,
            0 <= x,
            a > 0,
    ;
}

/// The total amount that `acts` transfer.
pub open spec fn transferred(acts: Seq<Action>) -> int
    decreases acts.len(),
{
    if acts.len() == 0 {
        0
    } else {
        transferred(acts.drop_last()) + match acts.last() {
            Action::Transfer { amount, .. } => amount as int,
            _ => 0,
        }
    }
}

proof fn lemma_transferred_concat(a: Seq<Action>, b: Seq<Action>)
    ensures
        transferred(a + b) == transferred(a) + transferred(b),
    decreases b.len(),
{
    if b.len() == 0 {
        assert(a + b =~= a);
    } else {
        lemma_transferred_concat(a, b.drop_last());
        assert((a + b).drop_last() =~= a + b.drop_last());
        assert((a + b).last() == b.last());
    }
}

proof fn lemma_transferred_one(asset: u32, from: AccountRef, to: AccountRef, amount: Balance)
    ensures
        transferred(transfer_spec(asset, from, to, amount)) == amount,
{
    assert(transferred(Seq::<Action>::empty()) == 0);
    if amount != 0 {
        let s = transfer_spec(asset, from, to, amount);
        assert(s.drop_last() =~= Seq::<Action>::empty());
        assert(s.last() == Action::Transfer { asset, from, to, amount });
    }
}

proof fn lemma_developer_and_protocol_share(t: int, g: int, gross: int, hundredth: int)
    requires
        0 <= t,
        0 <= g <= 990_000_000,
        gross == (t * g) / 1_000_000_000,
        hundredth == t / 100,
    ensures
        gross + hundredth <= t,
{
    lemma_fundamental_div_mod(t * g, 1_000_000_000);
    lemma_fundamental_div_mod(t, 100);
    assert(gross + hundredth <= t) by (nonlinear_arith)
        requires
            0 <= t,
            0 <= g <= 990_000_000,
            t * g == 1_000_000_000 * gross + (t * g) % 1_000_000_000,
            0 <= (t * g) % 1_000_000_000,
            t == 100 * hundredth + t % 100,
            0 <= t % 100,
    ;
}

/// What the transfers of one asset total when a sale completes: the
/// developer's gross share of the collected funds, a hundredth of the funds,
/// the collected fees and, where the investors paid it, the tax.
proof fn lemma_settled_total(cfg: MarketConfig, l: ListingView, d: PropertyLawyerDetails, dev_lawyer: AccountId, p: FinalSettlementPayouts, asset: u32)
    requires
        settle_asset(cfg, l, d, dev_lawyer, p, asset) is Ok,
        d.spv_lawyer_costs.spec_get(cfg.accepted_assets, asset)->0 <= l.collected_fees.spec_get(cfg.accepted_assets, asset)->0,
    ensures
        ({
            let acc = cfg.accepted_assets;
            let funds = l.collected_funds.spec_get(acc, asset)->0;
            let fees = l.collected_fees.spec_get(acc, asset)->0;
            let tax = l.collected_tax.spec_get(acc, asset)->0;
            let gross = (funds * (PERBILL_ACCURACY - cfg.marketplace_fee.value())) / (PERBILL_ACCURACY as int);
            transferred(settle_asset(cfg, l, d, dev_lawyer, p, asset)->Ok_0.1)
                == gross + funds / 100 + fees + (if l.tax_paid_by_developer { 0 } else { tax as int })
        }),
{
    let acc = cfg.accepted_assets;
    let total = l.collected_funds.spec_get(acc, asset)->0;
    let costs = d.spv_lawyer_costs.spec_get(acc, asset)->0;
    let tax = l.collected_tax.spec_get(acc, asset)->0;
    let fees = l.collected_fees.spec_get(acc, asset)->0;
    let g = PERBILL_ACCURACY - cfg.marketplace_fee.value();
    let gross = mul_floor_spec(total as int, g, PERBILL_ACCURACY as int);
    assert(0 <= gross <= total) by (nonlinear_arith)
        requires gross == (total * g) / 1_000_000_000, 0 <= g <= 1_000_000_000, 0 <= total;
    let developer_amount = (if l.tax_paid_by_developer { gross - tax } else { gross }) as u128;
    let developer_lawyer_tax: u128 = if l.tax_paid_by_developer { tax } else { 0 };
    let spv_lawyer_tax: u128 = if l.tax_paid_by_developer { 0 } else { tax };
    let spv_lawyer_amount = (costs + spv_lawyer_tax) as u128;
    let protocol_fees = (total / 100 + fees - costs) as u128;
    let region_owner_amount = (protocol_fees / 2) as u128;
    let treasury_amount = (protocol_fees - region_owner_amount) as u128;
    let from = AccountRef::Property(l.asset_id);
    let t1 = transfer_spec(asset, from, AccountRef::User(l.real_estate_developer), developer_amount);
    let t2 = transfer_spec(asset, from, AccountRef::User(dev_lawyer), developer_lawyer_tax);
    let t3 = transfer_spec(asset, from, AccountRef::User(p.spv_lawyer_account), spv_lawyer_amount);
    let t4 = transfer_spec(asset, from, AccountRef::Treasury, treasury_amount);
    let t5 = transfer_spec(asset, from, AccountRef::User(p.region_owner_account), region_owner_amount);
    assert(settle_asset(cfg, l, d, dev_lawyer, p, asset)->Ok_0.1 == t1 + t2 + t3 + t4 + t5);
    lemma_transferred_concat(t1 + t2 + t3 + t4, t5);
    lemma_transferred_concat(t1 + t2 + t3, t4);
    lemma_transferred_concat(t1 + t2, t3);
    lemma_transferred_concat(t1, t2);
    lemma_transferred_one(asset, from, AccountRef::User(l.real_estate_developer), developer_amount);
    lemma_transferred_one(asset, from, AccountRef::User(dev_lawyer), developer_lawyer_tax);
    lemma_transferred_one(asset, from, AccountRef::User(p.spv_lawyer_account), spv_lawyer_amount);
    lemma_transferred_one(asset, from, AccountRef::Treasury, treasury_amount);
    lemma_transferred_one(asset, from, AccountRef::User(p.region_owner_account), region_owner_amount);
}

/// Completing a sale never pays out more than was collected: when the
/// marketplace fee is at least one percent and the SPV lawyer's costs in an
/// asset are covered by the fees collected in it, the transfers of that asset
/// total exactly the developer's gross share of the collected funds, a
/// hundredth of the funds, the fees and (where the investors paid it) the tax,
/// which is at most the collected funds and fees plus that tax.
pub proof fn law_settlement_pays_out_at_most_what_was_collected(cfg: MarketConfig, l: ListingView, d: PropertyLawyerDetails, dev_lawyer: AccountId, p: FinalSettlementPayouts, asset: u32)
    requires
        PERBILL_ACCURACY / 100 <= cfg.marketplace_fee.value() <= PERBILL_ACCURACY,
        settle_asset(cfg, l, d, dev_lawyer, p, asset) is Ok,
        d.spv_lawyer_costs.spec_get(cfg.accepted_assets, asset)->0 <= l.collected_fees.spec_get(cfg.accepted_assets, asset)->0,
    ensures
        ({
            let acc = cfg.accepted_assets;
            let funds = l.collected_funds.spec_get(acc, asset)->0;
            let fees = l.collected_fees.spec_get(acc, asset)->0;
            let tax = l.collected_tax.spec_get(acc, asset)->0;
            let paid_tax = if l.tax_paid_by_developer { 0 } else { tax as int };
            let gross = (funds * (PERBILL_ACCURACY - cfg.marketplace_fee.value())) / (PERBILL_ACCURACY as int);
            let out = transferred(settle_asset(cfg, l, d, dev_lawyer, p, asset)->Ok_0.1);
            &&& out == gross + funds / 100 + fees + paid_tax
            &&& out <= funds + fees + paid_tax
        }),
{
    let acc = cfg.accepted_assets;
    let total = l.collected_funds.spec_get(acc, asset)->0;
    let g = PERBILL_ACCURACY - cfg.marketplace_fee.value();
    let gross = (total * g) / (PERBILL_ACCURACY as int);
    lemma_settled_total(cfg, l, d, dev_lawyer, p, asset);
    lemma_developer_and_protocol_share(total as int, g, gross, (total / 100) as int);
}

proof fn lemma_ninety_nine_hundredths(t: int)
    requires
        0 <= t,
    ensures
        (t * 990_000_000) / 1_000_000_000 + t / 100 == t - (if t % 100 == 0 { 0int } else { 1int }),
{
    lemma_fundamental_div_mod(t * 990_000_000, 1_000_000_000);
    lemma_fundamental_div_mod(t, 100);
    let q = t / 100;
    let r = t % 100;
    assert(t * 990_000_000 == 1_000_000_000 * (99 * q) + 990_000_000 * r) by (nonlinear_arith)
        requires t == 100 * q + r;
    if r == 0 {
        assert((t * 990_000_000) / 1_000_000_000 == 99 * q) by (nonlinear_arith)
            requires t * 990_000_000 == 1_000_000_000 * (99 * q) + 990_000_000 * r, r == 0;
    } else {
        assert((t * 990_000_000) / 1_000_000_000 == 99 * q + r - 1) by (nonlinear_arith)
            requires t * 990_000_000 == 1_000_000_000 * (99 * q) + 990_000_000 * r, 0 < r < 100;
    }
}

/// With the one-percent marketplace fee, completing a sale pays out of the
/// property's account, in each asset, everything collected in it (funds, fees
/// and, where the investors paid it, the tax) except one unit of rounding when
/// the funds are not a multiple of a hundred.
pub proof fn law_settlement_pays_out_what_was_collected(cfg: MarketConfig, l: ListingView, d: PropertyLawyerDetails, dev_lawyer: AccountId, p: FinalSettlementPayouts, asset: u32)
    requires
        cfg.marketplace_fee.value() == PERBILL_ACCURACY / 100,
        settle_asset(cfg, l, d, dev_lawyer, p, asset) is Ok,
        d.spv_lawyer_costs.spec_get(cfg.accepted_assets, asset)->0 <= l.collected_fees.spec_get(cfg.accepted_assets, asset)->0,
    ensures
        ({
            let acc = cfg.accepted_assets;
            let funds = l.collected_funds.spec_get(acc, asset)->0;
            let fees = l.collected_fees.spec_get(acc, asset)->0;
            let tax = l.collected_tax.spec_get(acc, asset)->0;
            transferred(settle_asset(cfg, l, d, dev_lawyer, p, asset)->Ok_0.1)
                == funds + fees + (if l.tax_paid_by_developer { 0 } else { tax as int })
                    - (if funds % 100 == 0 { 0int } else { 1int })
        }),
{
    let total = l.collected_funds.spec_get(cfg.accepted_assets, asset)->0;
    lemma_settled_total(cfg, l, d, dev_lawyer, p, asset);
    lemma_ninety_nine_hundredths(total as int);
}

/// Whether `s` is the developer's lawyer of listing `l`, or proposed as such.
pub open spec fn on_developer_side(lawyers: Map<ListingId, PropertyLawyerDetails>, proposed: Map<ListingId, ProposedDeveloperLawyer>, l: ListingId, s: AccountId) -> bool {
    ||| lawyers.contains_key(l) && lawyers[l].real_estate_developer_lawyer == Some(s)
    ||| proposed.contains_key(l) && proposed[l].lawyer == s
}

/// Whether `s` is the SPV's lawyer of listing `l`, or proposed as such.
pub open spec fn on_spv_side(lawyers: Map<ListingId, PropertyLawyerDetails>, listing_proposal: Map<ListingId, ProposalId>, proposals: Map<ProposalId, ProposedSpvLawyer>, l: ListingId, s: AccountId) -> bool {
    ||| lawyers.contains_key(l) && lawyers[l].spv_lawyer == Some(s)
    ||| listing_proposal.contains_key(l) && proposals.contains_key(listing_proposal[l]) && proposals[listing_proposal[l]].lawyer == s
}

/// No lawyer is at once assigned or proposed for both sides of one listing,
/// and every listing's SPV lawyer proposal has an id below the next one to be
/// given out.
pub open spec fn lawyer_sides_apart(m: MarketView) -> bool {
    &&& forall|l: ListingId, s: AccountId|
        !(#[trigger] on_developer_side(m.property_lawyers, m.proposed_lawyers, l, s)
            && #[trigger] on_spv_side(m.property_lawyers, m.listing_spv_proposal, m.spv_lawyer_proposals, l, s))
    &&& forall|l: ListingId| #[trigger] m.listing_spv_proposal.contains_key(l) ==> m.listing_spv_proposal[l] < m.proposal_counter
}

proof fn lemma_sides_apart_shrink(pre: MarketView, post: MarketView)
    requires
        lawyer_sides_apart(pre),
        forall|l: ListingId, s: AccountId| #[trigger] on_developer_side(post.property_lawyers, post.proposed_lawyers, l, s)
            ==> on_developer_side(pre.property_lawyers, pre.proposed_lawyers, l, s),
        forall|l: ListingId, s: AccountId| #[trigger] on_spv_side(post.property_lawyers, post.listing_spv_proposal, post.spv_lawyer_proposals, l, s)
            ==> on_spv_side(pre.property_lawyers, pre.listing_spv_proposal, pre.spv_lawyer_proposals, l, s),
        forall|l: ListingId| #[trigger] post.listing_spv_proposal.contains_key(l) ==> post.listing_spv_proposal[l] < post.proposal_counter,
    ensures
        lawyer_sides_apart(post),
{
    assert forall|l: ListingId, s: AccountId|
        !(#[trigger] on_developer_side(post.property_lawyers, post.proposed_lawyers, l, s)
            && #[trigger] on_spv_side(post.property_lawyers, post.listing_spv_proposal, post.spv_lawyer_proposals, l, s)) by {
        if on_developer_side(post.property_lawyers, post.proposed_lawyers, l, s) && on_spv_side(post.property_lawyers, post.listing_spv_proposal, post.spv_lawyer_proposals, l, s) {
            assert(on_developer_side(pre.property_lawyers, pre.proposed_lawyers, l, s));
            assert(on_spv_side(pre.property_lawyers, pre.listing_spv_proposal, pre.spv_lawyer_proposals, l, s));
        }
    }
}

proof fn lemma_claim_keeps_sides_apart(pre: MarketView, signer: AccountId, listing_id: ListingId, now: BlockNumber)
    requires
        lawyer_sides_apart(pre),
    ensures
        lawyer_sides_apart(claim_spec(pre, signer, listing_id, now).0),
{
    let post = claim_spec(pre, signer, listing_id, now).0;
    lemma_sides_apart_shrink(pre, post);
}

proof fn lemma_lawyer_claim_keeps_sides_apart(pre: MarketView, signer: AccountId, listing_id: ListingId, side: LegalProperty, costs: Balance, now: BlockNumber, lawyer: Option<LawyerInfo>, info: Option<PropertyAssetInfo>)
    requires
        lawyer_sides_apart(pre),
    ensures
        lawyer_sides_apart(lawyer_claim_spec(pre, signer, listing_id, side, costs, now, lawyer, info).0),
{
    let post = lawyer_claim_spec(pre, signer, listing_id, side, costs, now, lawyer, info).0;
    assert forall|l: ListingId, s: AccountId|
        !(#[trigger] on_developer_side(post.property_lawyers, post.proposed_lawyers, l, s)
            && #[trigger] on_spv_side(post.property_lawyers, post.listing_spv_proposal, post.spv_lawyer_proposals, l, s)) by {
        assert(!(on_developer_side(pre.property_lawyers, pre.proposed_lawyers, l, s)
            && on_spv_side(pre.property_lawyers, pre.listing_spv_proposal, pre.spv_lawyer_proposals, l, s)));
        if pre.listing_spv_proposal.contains_key(l) {
            assert(pre.listing_spv_proposal[l] < pre.proposal_counter);
        }
    }
}

proof fn lemma_approve_keeps_sides_apart(pre: MarketView, signer: AccountId, listing_id: ListingId, approve: bool, now: BlockNumber)
    requires
        lawyer_sides_apart(pre),
    ensures
        lawyer_sides_apart(approve_developer_lawyer_spec(pre, signer, listing_id, approve, now).0),
{
    let post = approve_developer_lawyer_spec(pre, signer, listing_id, approve, now).0;
    lemma_sides_apart_shrink(pre, post);
}

proof fn lemma_finalize_spv_keeps_sides_apart(pre: MarketView, listing_id: ListingId, now: BlockNumber, info: Option<PropertyAssetInfo>)
    requires
        lawyer_sides_apart(pre),
    ensures
        lawyer_sides_apart(finalize_spv_lawyer_spec(pre, listing_id, now, info).0),
{
    let post = finalize_spv_lawyer_spec(pre, listing_id, now, info).0;
    lemma_sides_apart_shrink(pre, post);
}

proof fn lemma_remove_claim_keeps_sides_apart(pre: MarketView, signer: AccountId, listing_id: ListingId, registered: bool)
    requires
        lawyer_sides_apart(pre),
    ensures
        lawyer_sides_apart(remove_lawyer_claim_spec(pre, signer, listing_id, registered).0),
{
    let post = remove_lawyer_claim_spec(pre, signer, listing_id, registered).0;
    lemma_sides_apart_shrink(pre, post);
}

proof fn lemma_confirm_keeps_sides_apart(pre: MarketView, signer: AccountId, listing_id: ListingId, approve: bool, now: BlockNumber, info: Option<PropertyAssetInfo>, region: Option<RegionInfo>)
    requires
        lawyer_sides_apart(pre),
    ensures
        lawyer_sides_apart(confirm_documents_spec(pre, signer, listing_id, approve, now, info, region).0),
{
    reveal(settle_all_assets);
    let post = confirm_documents_spec(pre, signer, listing_id, approve, now, info, region).0;
    lemma_sides_apart_shrink(pre, post);
}

proof fn lemma_legal_expiry_keeps_sides_apart(pre: MarketView, signer: AccountId, listing_id: ListingId, balance: u32, now: BlockNumber)
    requires
        lawyer_sides_apart(pre),
    ensures
        lawyer_sides_apart(withdraw_legal_expired_spec(pre, signer, listing_id, balance, now).0),
{
    let post = withdraw_legal_expired_spec(pre, signer, listing_id, balance, now).0;
    lemma_sides_apart_shrink(pre, post);
}

/// A marketplace without lawyers or proposals meets the lawyer-sides invariant.
pub proof fn law_empty_marketplace_has_lawyer_sides_apart(m: MarketView)
    requires
        m.property_lawyers.is_empty(),
        m.proposed_lawyers.is_empty(),
        m.listing_spv_proposal.is_empty(),
    ensures
        lawyer_sides_apart(m),
{
}

/// No lawyer is ever at once assigned or proposed for both sides of one
/// listing: every call of the primary sale keeps this.
pub proof fn law_primary_sale_keeps_lawyer_sides_apart()
    ensures
        forall|pre: MarketView, signer: AccountId, share_price: Balance, share_amount: u32, metadata: Vec<u8>, by_developer: bool, now: BlockNumber, region_info: Option<RegionInfo>, located: bool, can_pay: bool, item_id: u32, asset_id: u32|
            lawyer_sides_apart(pre) ==> lawyer_sides_apart(#[trigger] list_property_spec(pre, signer, share_price, share_amount, metadata, by_developer, now, region_info, located, can_pay, item_id, asset_id).0),
        forall|pre: MarketView, signer: AccountId, listing_id: ListingId, amount: u32, asset: u32, now: BlockNumber, info: Option<PropertyAssetInfo>, owned: u32|
            lawyer_sides_apart(pre) ==> lawyer_sides_apart(#[trigger] buy_spec(pre, signer, listing_id, amount, asset, now, info, owned).0),
        forall|pre: MarketView, signer: AccountId, listing_id: ListingId, now: BlockNumber|
            lawyer_sides_apart(pre) ==> lawyer_sides_apart(#[trigger] finalize_claim_window_spec(pre, signer, listing_id, now).0),
        forall|pre: MarketView, listing_id: ListingId, now: BlockNumber|
            lawyer_sides_apart(pre) ==> lawyer_sides_apart(#[trigger] create_spv_spec(pre, listing_id, now).0),
        forall|pre: MarketView, signer: AccountId, listing_id: ListingId, now: BlockNumber|
            lawyer_sides_apart(pre) ==> lawyer_sides_apart(#[trigger] cancel_purchase_spec(pre, signer, listing_id, now).0),
        forall|pre: MarketView, signer: AccountId, listing_id: ListingId, now: BlockNumber|
            lawyer_sides_apart(pre) ==> lawyer_sides_apart(#[trigger] withdraw_expired_spec(pre, signer, listing_id, now).0),
        forall|pre: MarketView, signer: AccountId, listing_id: ListingId, now: BlockNumber|
            lawyer_sides_apart(pre) ==> lawyer_sides_apart(#[trigger] withdraw_deposit_unsold_spec(pre, signer, listing_id, now).0),
        forall|pre: MarketView, signer: AccountId, listing_id: ListingId|
            lawyer_sides_apart(pre) ==> lawyer_sides_apart(#[trigger] withdraw_unclaimed_spec(pre, signer, listing_id).0),
        forall|pre: MarketView, signer: AccountId, listing_id: ListingId, price: Balance, now: BlockNumber|
            lawyer_sides_apart(pre) ==> lawyer_sides_apart(#[trigger] upgrade_object_spec(pre, signer, listing_id, price, now).0),
        forall|pre: MarketView, signer: AccountId, listing_id: ListingId, now: BlockNumber|
            lawyer_sides_apart(pre) ==> lawyer_sides_apart(#[trigger] claim_spec(pre, signer, listing_id, now).0),
{
    assert forall|pre: MarketView, signer: AccountId, listing_id: ListingId, now: BlockNumber|
        lawyer_sides_apart(pre) implies lawyer_sides_apart(#[trigger] claim_spec(pre, signer, listing_id, now).0) by {
        lemma_claim_keeps_sides_apart(pre, signer, listing_id, now);
    }
}

/// No lawyer is ever at once assigned or proposed for both sides of one
/// listing: every resale call keeps this.
pub proof fn law_resale_keeps_lawyer_sides_apart()
    ensures
        forall|pre: MarketView, signer: AccountId, asset_id: u32, price: Balance, amount: u32, info: Option<PropertyAssetInfo>|
            lawyer_sides_apart(pre) ==> lawyer_sides_apart(#[trigger] relist_shares_spec(pre, signer, asset_id, price, amount, info).0),
        forall|pre: MarketView, buyer: AccountId, listing_id: ListingId, amount: u32, asset: u32, info: Option<PropertyAssetInfo>, owned: u32|
            lawyer_sides_apart(pre) ==> lawyer_sides_apart(#[trigger] buy_relisted_spec(pre, buyer, listing_id, amount, asset, info, owned).0),
        forall|pre: MarketView, signer: AccountId, listing_id: ListingId, price: Balance, amount: u32, asset: u32|
            lawyer_sides_apart(pre) ==> lawyer_sides_apart(#[trigger] make_offer_spec(pre, signer, listing_id, price, amount, asset).0),
        forall|pre: MarketView, signer: AccountId, listing_id: ListingId, offeror: AccountId, offer: Offer, nonce: u64, info: Option<PropertyAssetInfo>, owned: u32|
            lawyer_sides_apart(pre) ==> lawyer_sides_apart(#[trigger] handle_offer_spec(pre, signer, listing_id, offeror, offer, nonce, info, owned).0),
        forall|pre: MarketView, signer: AccountId, listing_id: ListingId|
            lawyer_sides_apart(pre) ==> lawyer_sides_apart(#[trigger] cancel_offer_spec(pre, signer, listing_id).0),
        forall|pre: MarketView, signer: AccountId, listing_id: ListingId|
            lawyer_sides_apart(pre) ==> lawyer_sides_apart(#[trigger] delist_shares_spec(pre, signer, listing_id).0),
{
}

/// No lawyer is ever at once assigned or proposed for both sides of one
/// listing: every call of the legal process keeps this.
pub proof fn law_legal_process_keeps_lawyer_sides_apart()
    ensures
        forall|pre: MarketView, signer: AccountId, listing_id: ListingId, side: LegalProperty, costs: Balance, now: BlockNumber, lawyer: Option<LawyerInfo>, info: Option<PropertyAssetInfo>|
            lawyer_sides_apart(pre) ==> lawyer_sides_apart(#[trigger] lawyer_claim_spec(pre, signer, listing_id, side, costs, now, lawyer, info).0),
        forall|pre: MarketView, signer: AccountId, listing_id: ListingId, vote: Vote, amount: u32, now: BlockNumber, power: u32|
            lawyer_sides_apart(pre) ==> lawyer_sides_apart(#[trigger] vote_spec(pre, signer, listing_id, vote, amount, now, power).0),
        forall|pre: MarketView, signer: AccountId, listing_id: ListingId, approve: bool, now: BlockNumber|
            lawyer_sides_apart(pre) ==> lawyer_sides_apart(#[trigger] approve_developer_lawyer_spec(pre, signer, listing_id, approve, now).0),
        forall|pre: MarketView, listing_id: ListingId, now: BlockNumber, info: Option<PropertyAssetInfo>|
            lawyer_sides_apart(pre) ==> lawyer_sides_apart(#[trigger] finalize_spv_lawyer_spec(pre, listing_id, now, info).0),
        forall|pre: MarketView, signer: AccountId, proposal_id: ProposalId, now: BlockNumber|
            lawyer_sides_apart(pre) ==> lawyer_sides_apart(#[trigger] unfreeze_vote_spec(pre, signer, proposal_id, now).0),
        forall|pre: MarketView, signer: AccountId, listing_id: ListingId, registered: bool|
            lawyer_sides_apart(pre) ==> lawyer_sides_apart(#[trigger] remove_lawyer_claim_spec(pre, signer, listing_id, registered).0),
        forall|pre: MarketView, signer: AccountId, listing_id: ListingId, approve: bool, now: BlockNumber, info: Option<PropertyAssetInfo>, region: Option<RegionInfo>|
            lawyer_sides_apart(pre) ==> lawyer_sides_apart(#[trigger] confirm_documents_spec(pre, signer, listing_id, approve, now, info, region).0),
        forall|pre: MarketView, signer: AccountId, listing_id: ListingId, balance: u32|
            lawyer_sides_apart(pre) ==> lawyer_sides_apart(#[trigger] withdraw_rejected_spec(pre, signer, listing_id, balance).0),
        forall|pre: MarketView, signer: AccountId, listing_id: ListingId, balance: u32, now: BlockNumber|
            lawyer_sides_apart(pre) ==> lawyer_sides_apart(#[trigger] withdraw_legal_expired_spec(pre, signer, listing_id, balance, now).0),
        forall|pre: MarketView, signer: AccountId, listing_id: ListingId, balance: u32|
            lawyer_sides_apart(pre) ==> lawyer_sides_apart(#[trigger] withdraw_claiming_expired_spec(pre, signer, listing_id, balance).0),
{
    assert forall|pre: MarketView, signer: AccountId, listing_id: ListingId, side: LegalProperty, costs: Balance, now: BlockNumber, lawyer: Option<LawyerInfo>, info: Option<PropertyAssetInfo>|
        lawyer_sides_apart(pre) implies lawyer_sides_apart(#[trigger] lawyer_claim_spec(pre, signer, listing_id, side, costs, now, lawyer, info).0) by {
        lemma_lawyer_claim_keeps_sides_apart(pre, signer, listing_id, side, costs, now, lawyer, info);
    }
    assert forall|pre: MarketView, signer: AccountId, listing_id: ListingId, approve: bool, now: BlockNumber|
        lawyer_sides_apart(pre) implies lawyer_sides_apart(#[trigger] approve_developer_lawyer_spec(pre, signer, listing_id, approve, now).0) by {
        lemma_approve_keeps_sides_apart(pre, signer, listing_id, approve, now);
    }
    assert forall|pre: MarketView, listing_id: ListingId, now: BlockNumber, info: Option<PropertyAssetInfo>|
        lawyer_sides_apart(pre) implies lawyer_sides_apart(#[trigger] finalize_spv_lawyer_spec(pre, listing_id, now, info).0) by {
        lemma_finalize_spv_keeps_sides_apart(pre, listing_id, now, info);
    }
    assert forall|pre: MarketView, signer: AccountId, listing_id: ListingId, registered: bool|
        lawyer_sides_apart(pre) implies lawyer_sides_apart(#[trigger] remove_lawyer_claim_spec(pre, signer, listing_id, registered).0) by {
        lemma_remove_claim_keeps_sides_apart(pre, signer, listing_id, registered);
    }
    assert forall|pre: MarketView, signer: AccountId, listing_id: ListingId, approve: bool, now: BlockNumber, info: Option<PropertyAssetInfo>, region: Option<RegionInfo>|
        lawyer_sides_apart(pre) implies lawyer_sides_apart(#[trigger] confirm_documents_spec(pre, signer, listing_id, approve, now, info, region).0) by {
        lemma_confirm_keeps_sides_apart(pre, signer, listing_id, approve, now, info, region);
    }
    assert forall|pre: MarketView, signer: AccountId, listing_id: ListingId, balance: u32, now: BlockNumber|
        lawyer_sides_apart(pre) implies lawyer_sides_apart(#[trigger] withdraw_legal_expired_spec(pre, signer, listing_id, balance, now).0) by {
        lemma_legal_expiry_keeps_sides_apart(pre, signer, listing_id, balance, now);
    }
}

} // verus!
