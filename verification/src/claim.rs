//! Claiming purchased shares once the SPV exists.
use vstd::prelude::*;
use std::collections::BTreeMap;
use crate::asset_map::{create_initial_funds, spec_initial_funds, spec_update, update_map, AssetMap};
use crate::common::{ascending, ascending_assets, fee_on, sat_add, transfer_funds, transfer_spec};
use crate::per_thing::{mul_ceil_spec, PERBILL_ACCURACY, PERMILL_ACCURACY};
use crate::state::{accepted, lemma_listings_view_insert, refusal, refusal_after, refused, single, success, MarketView, Marketplace};
use crate::types::{
    AccountId, AccountRef, Action, Balance, BlockNumber, DocumentStatus, Event, ListingId,
    ListingView, MarketConfig, MarketError, Outcome, OutcomeView, PropertyLawyerDetails,
    PropertyListingDetails, ShareOwnerDetails, ShareOwnerFunds,
};

verus! {

broadcast use vstd::std_specs::btree::group_btree_axioms;

/// Either the state reached so far, or the actions asked so far and the error that stopped.
pub type Progress<S> = Result<(S, Seq<Action>), (Seq<Action>, MarketError)>;

/// Records what an investor contributed in `asset` (`net` principal and tax, `fee`).
pub open spec fn add_investor_funds(cfg: MarketConfig, funds: Map<AccountId, ShareOwnerFunds>, investor: AccountId, asset: u32, net: Balance, fee: Balance) -> Result<Map<AccountId, ShareOwnerFunds>, MarketError> {
    let acc = cfg.accepted_assets;
    let bound = cfg.max_accepted_assets;
    if funds.contains_key(investor) {
        let f = funds[investor];
        match spec_update(f.paid_funds, acc, asset, net, bound) {
            Err(e) => Err(e),
            Ok(paid_funds) => match spec_update(f.paid_fee, acc, asset, fee, bound) {
                Err(e) => Err(e),
                Ok(paid_fee) => Ok(funds.insert(investor, ShareOwnerFunds { paid_funds, paid_fee })),
            },
        }
    } else {
        let empty = AssetMap::<Balance> { first: None, second: None };
        if !empty.spec_can_insert(acc, asset, bound) {
            Err(MarketError::ExceedsMaxEntries)
        } else if funds.len() < cfg.max_property_shares {
            Ok(funds.insert(investor, ShareOwnerFunds {
                paid_funds: empty.spec_set(acc, asset, net),
                paid_fee: empty.spec_set(acc, asset, fee),
            }))
        } else {
            Err(MarketError::ExceedsMaxEntries)
        }
    }
}

/// Settles one payment asset of a claim: what is collected, released and moved.
pub open spec fn claim_asset(cfg: MarketConfig, l: ListingView, d: ShareOwnerDetails, signer: AccountId, asset: u32) -> Progress<ListingView> {
    let acc = cfg.accepted_assets;
    let bound = cfg.max_accepted_assets;
    let paid = d.paid_funds.spec_get(acc, asset)->0;
    let paid_tax = match d.paid_tax.spec_get(acc, asset) {
        Some(t) => t,
        None => 0,
    };
    let fee = fee_on(cfg, paid) as u128;
    let tax = if !l.tax_paid_by_developer {
        paid_tax
    } else {
        mul_ceil_spec(paid as int, l.tax.value() as int, PERMILL_ACCURACY as int) as u128
    };
    match spec_update(l.collected_funds, acc, asset, paid, bound) {
        Err(e) => Err((Seq::empty(), e)),
        Ok(collected_funds) => match spec_update(l.collected_fees, acc, asset, fee, bound) {
            Err(e) => Err((Seq::empty(), e)),
            Ok(collected_fees) => match spec_update(l.collected_tax, acc, asset, tax, bound) {
                Err(e) => Err((Seq::empty(), e)),
                Ok(collected_tax) => if paid + fee + paid_tax > u128::MAX {
                    Err((Seq::empty(), MarketError::ArithmeticOverflow))
                } else {
                    let total = (paid + fee + paid_tax) as u128;
                    let acts = seq![Action::ReleaseFunds { asset, who: signer, amount: total }]
                        + transfer_spec(asset, AccountRef::User(signer), AccountRef::Property(l.asset_id), total);
                    if paid + paid_tax > u128::MAX {
                        Err((acts, MarketError::ArithmeticOverflow))
                    } else {
                        match add_investor_funds(cfg, l.investor_funds, signer, asset, (paid + paid_tax) as u128, fee) {
                            Err(e) => Err((acts, e)),
                            Ok(investor_funds) => Ok((ListingView {
                                collected_funds,
                                collected_fees,
                                collected_tax,
                                investor_funds,
                                ..l
                            }, acts)),
                        }
                    }
                },
            },
        },
    }
}

/// Visits `asset` in a claim: settles it when the investor paid a non-zero amount in it.
pub open spec fn claim_visit(cfg: MarketConfig, st: Progress<ListingView>, d: ShareOwnerDetails, signer: AccountId, asset: u32) -> Progress<ListingView> {
    match st {
        Err(x) => Err(x),
        Ok((l, acts)) => match d.paid_funds.spec_get(cfg.accepted_assets, asset) {
            Some(p) => if p == 0 {
                st
            } else {
                match claim_asset(cfg, l, d, signer, asset) {
                    Err((a, e)) => Err((acts + a, e)),
                    Ok((l2, a)) => Ok((l2, acts + a)),
                }
            },
            None => st,
        },
    }
}

/// `r` with `p` put before the actions it records.
pub open spec fn shifted<S>(p: Seq<Action>, r: Progress<S>) -> Progress<S> {
    match r {
        Ok((x, a)) => Ok((x, p + a)),
        Err((a, e)) => Err((p + a, e)),
    }
}

pub proof fn lemma_visit_shift(cfg: MarketConfig, l: ListingView, p: Seq<Action>, d: ShareOwnerDetails, signer: AccountId, asset: u32)
    ensures
        claim_visit(cfg, Ok((l, p)), d, signer, asset) == shifted(p, claim_visit(cfg, Ok((l, Seq::empty())), d, signer, asset)),
{
    assert(p + Seq::<Action>::empty() =~= p);
    match claim_asset(cfg, l, d, signer, asset) {
        Ok((l2, a)) => {
            assert(Seq::<Action>::empty() + a =~= a);
        },
        Err((a, e)) => {
            assert(Seq::<Action>::empty() + a =~= a);
        },
    }
}

/// Settles every payment asset of a claim, in ascending asset order.
#[verifier::opaque]
pub open spec fn claim_all_assets(cfg: MarketConfig, l: ListingView, d: ShareOwnerDetails, signer: AccountId) -> Progress<ListingView> {
    let (lo, hi) = ascending(cfg.accepted_assets);
    let first = claim_visit(cfg, Ok((l, Seq::empty())), d, signer, lo);
    if hi == lo {
        first
    } else {
        claim_visit(cfg, first, d, signer, hi)
    }
}

/// The legal process opened once every share of a listing has been claimed.
pub open spec fn opened_legal_process(funds: AssetMap<Balance>, expiry: BlockNumber) -> PropertyLawyerDetails {
    PropertyLawyerDetails {
        real_estate_developer_lawyer: None,
        spv_lawyer: None,
        real_estate_developer_status: DocumentStatus::Pending,
        spv_status: DocumentStatus::Pending,
        real_estate_developer_lawyer_costs: funds,
        spv_lawyer_costs: funds,
        legal_process_expiry: expiry,
        second_attempt: false,
    }
}

/// What `claim_property_shares` does.
pub open spec fn claim_spec(pre: MarketView, signer: AccountId, listing_id: ListingId, now: BlockNumber) -> (MarketView, OutcomeView) {
    let cfg = pre.config;
    if !pre.listings.contains_key(listing_id) {
        refused(pre, Seq::empty(), MarketError::ListingNotFound)
    } else {
        let l = pre.listings[listing_id];
        let acts = seq![Action::EnsureSpvCreated { asset_id: l.asset_id }];
        match l.claim_expiry {
            None => refused(pre, acts, MarketError::NoClaimWindow),
            Some(claim_expiry) => if !(now < claim_expiry) {
                refused(pre, acts, MarketError::ClaimWindowExpired)
            } else if !pre.share_owners.contains_key((signer, listing_id)) {
                refused(pre, acts, MarketError::ShareOwnerNotFound)
            } else {
                let d = pre.share_owners[(signer, listing_id)];
                if d.relist_count != l.relist_count {
                    refused(pre, acts, MarketError::NoValidSharesToClaim)
                } else if cfg.marketplace_fee.value() >= PERBILL_ACCURACY {
                    refused(pre, acts, MarketError::InvalidFeePercentage)
                } else {
                    match claim_all_assets(cfg, l, d, signer) {
                        Err((a, e)) => refused(pre, acts + a, e),
                        Ok((l2, a)) => {
                            let acts2 = acts + a + seq![Action::DistributeShares { asset_id: l.asset_id, owner: signer, amount: d.share_amount }];
                            if l2.unclaimed_share_amount < d.share_amount {
                                refused(pre, acts2, MarketError::ArithmeticUnderflow)
                            } else {
                                let unclaimed = (l2.unclaimed_share_amount - d.share_amount) as u32;
                                let claimed = Event::PropertySharesClaimed { listing_id, asset_id: l.asset_id, owner: signer, amount: d.share_amount };
                                if unclaimed != 0 {
                                    accepted(MarketView {
                                        listings: pre.listings.insert(listing_id, ListingView { unclaimed_share_amount: unclaimed, ..l2 }),
                                        share_owners: pre.share_owners.remove((signer, listing_id)),
                                        ..pre
                                    }, acts2, seq![claimed])
                                } else if pre.property_lawyers.contains_key(listing_id) {
                                    refused(pre, acts2, MarketError::LegalProcessOngoing)
                                } else {
                                    match spec_initial_funds(cfg.accepted_assets, cfg.max_accepted_assets) {
                                        Err(e) => refused(pre, acts2, e),
                                        Ok(funds) => {
                                            let expiry = sat_add(now, cfg.legal_process_time);
                                            accepted(MarketView {
                                                listings: pre.listings.insert(listing_id, ListingView { unclaimed_share_amount: 0, claim_expiry: None, ..l2 }),
                                                share_owners: pre.share_owners.remove((signer, listing_id)),
                                                property_lawyers: pre.property_lawyers.insert(listing_id, opened_legal_process(funds, expiry)),
                                                ..pre
                                            }, acts2, seq![
                                                Event::AllPropertySharesClaimed { listing_id, asset_id: l.asset_id, legal_process_expiry_block: expiry },
                                                claimed,
                                            ])
                                        },
                                    }
                                }
                            }
                        },
                    }
                }
            },
        }
    }
}

/// Records what an investor contributed in `asset`.
fn record_investor_funds(cfg: &MarketConfig, funds: &mut BTreeMap<AccountId, ShareOwnerFunds>, investor: AccountId, asset: u32, net: Balance, fee: Balance) -> (r: Result<(), MarketError>)
    requires
        cfg.accepted_assets.spec_contains(asset),
    ensures
        match add_investor_funds(*cfg, old(funds)@, investor, asset, net, fee) {
            Ok(m) => r is Ok && final(funds)@ == m,
            Err(e) => r == Err::<(), MarketError>(e),
        },
{
    let acc = &cfg.accepted_assets;
    let bound = cfg.max_accepted_assets;
    match funds.get(&investor) {
        Some(f) => {
            let mut entry = *f;
            update_map(&mut entry.paid_funds, acc, asset, net, bound)?;
            update_map(&mut entry.paid_fee, acc, asset, fee, bound)?;
            funds.insert(investor, entry);
            Ok(())
        },
        None => {
            let mut paid_funds: AssetMap<Balance> = AssetMap::new();
            if !paid_funds.try_insert(acc, asset, net, bound) {
                return Err(MarketError::ExceedsMaxEntries);
            }
            let mut paid_fee: AssetMap<Balance> = AssetMap::new();
            let ok = paid_fee.try_insert(acc, asset, fee, bound);
            if funds.len() < cfg.max_property_shares as usize {
                funds.insert(investor, ShareOwnerFunds { paid_funds, paid_fee });
                Ok(())
            } else {
                Err(MarketError::ExceedsMaxEntries)
            }
        },
    }
}

/// Settles one payment asset of a claim on a working copy of the listing.
fn settle_claimed_asset(cfg: &MarketConfig, l: &mut PropertyListingDetails, actions: &mut Vec<Action>, d: &ShareOwnerDetails, signer: AccountId, asset: u32, fee_parts: u32, tax_parts: u32) -> (r: Result<(), MarketError>)
    requires
        cfg.accepted_assets.spec_contains(asset),
        d.paid_funds.spec_get(cfg.accepted_assets, asset) is Some,
        fee_parts == cfg.marketplace_fee.value(),
        fee_parts < PERBILL_ACCURACY,
        tax_parts == old(l).tax.value(),
        tax_parts <= PERMILL_ACCURACY,
    ensures
        final(l).asset_id == old(l).asset_id,
        final(l).tax == old(l).tax,
        match claim_asset(*cfg, old(l)@, *d, signer, asset) {
            Ok((l2, a)) => r is Ok && final(l)@ == l2 && final(actions)@ == old(actions)@ + a,
            Err((a, e)) => r == Err::<(), MarketError>(e) && final(actions)@ == old(actions)@ + a,
        },
{
    let acc = &cfg.accepted_assets;
    let bound = cfg.max_accepted_assets;
    let paid = match d.paid_funds.get(acc, asset) {
        Some(p) => p,
        None => 0,
    };
    let paid_tax = match d.paid_tax.get(acc, asset) {
        Some(t) => t,
        None => 0,
    };
    let fee = cfg.marketplace_fee.mul_ceil(paid);
    let tax = if !l.tax_paid_by_developer {
        paid_tax
    } else {
        l.tax.mul_ceil(paid)
    };
    let ghost l0 = l@;
    let ghost a0 = actions@;
    let mut collected_funds = l.collected_funds;
    update_map(&mut collected_funds, acc, asset, paid, bound)?;
    let mut collected_fees = l.collected_fees;
    update_map(&mut collected_fees, acc, asset, fee, bound)?;
    let mut collected_tax = l.collected_tax;
    update_map(&mut collected_tax, acc, asset, tax, bound)?;
    let total = match paid.checked_add(fee) {
        Some(x) => match x.checked_add(paid_tax) {
            Some(y) => y,
            None => return Err(MarketError::ArithmeticOverflow),
        },
        None => return Err(MarketError::ArithmeticOverflow),
    };
    actions.push(Action::ReleaseFunds { asset, who: signer, amount: total });
    transfer_funds(actions, asset, AccountRef::User(signer), AccountRef::Property(l.asset_id), total);
    assert(actions@ =~= a0 + (seq![Action::ReleaseFunds { asset, who: signer, amount: total }]
        + transfer_spec(asset, AccountRef::User(signer), AccountRef::Property(l0.asset_id), total)));
    let net = match paid.checked_add(paid_tax) {
        Some(x) => x,
        None => return Err(MarketError::ArithmeticOverflow),
    };
    record_investor_funds(cfg, &mut l.investor_funds, signer, asset, net, fee)?;
    l.collected_funds = collected_funds;
    l.collected_fees = collected_fees;
    l.collected_tax = collected_tax;
    Ok(())
}

/// Visits `asset` in a claim.
fn visit_claimed_asset(cfg: &MarketConfig, l: &mut PropertyListingDetails, actions: &mut Vec<Action>, d: &ShareOwnerDetails, signer: AccountId, asset: u32, fee_parts: u32, tax_parts: u32) -> (r: Result<(), MarketError>)
    requires
        cfg.accepted_assets.spec_contains(asset),
        fee_parts == cfg.marketplace_fee.value(),
        fee_parts < PERBILL_ACCURACY,
        tax_parts == old(l).tax.value(),
        tax_parts <= PERMILL_ACCURACY,
    ensures
        final(l).asset_id == old(l).asset_id,
        final(l).tax == old(l).tax,
        match claim_visit(*cfg, Ok((old(l)@, old(actions)@)), *d, signer, asset) {
            Ok((l2, a)) => r is Ok && final(l)@ == l2 && final(actions)@ == a,
            Err((a, e)) => r == Err::<(), MarketError>(e) && final(actions)@ == a,
        },
{
    match d.paid_funds.get(&cfg.accepted_assets, asset) {
        Some(p) => {
            if p == 0 {
                Ok(())
            } else {
                settle_claimed_asset(cfg, l, actions, d, signer, asset, fee_parts, tax_parts)
            }
        },
        None => Ok(()),
    }
}

/// Settles every payment asset of a claim on a working copy of the listing.
fn settle_all_claimed_assets(cfg: &MarketConfig, l: &mut PropertyListingDetails, actions: &mut Vec<Action>, d: &ShareOwnerDetails, signer: AccountId, fee_parts: u32, tax_parts: u32) -> (r: Result<(), MarketError>)
    requires
        fee_parts == cfg.marketplace_fee.value(),
        fee_parts < PERBILL_ACCURACY,
        tax_parts == old(l).tax.value(),
        tax_parts <= PERMILL_ACCURACY,
    ensures
        final(l).asset_id == old(l).asset_id,
        match claim_all_assets(*cfg, old(l)@, *d, signer) {
            Ok((l2, a)) => r is Ok && final(l)@ == l2 && final(actions)@ == old(actions)@ + a,
            Err((a, e)) => r == Err::<(), MarketError>(e) && final(actions)@ == old(actions)@ + a,
        },
{
    reveal(claim_all_assets);
    let ghost l0 = l@;
    let ghost p = actions@;
    let (lo, hi) = ascending_assets(&cfg.accepted_assets);
    proof {
        lemma_visit_shift(*cfg, l0, p, *d, signer, lo);
    }
    let ghost first = claim_visit(*cfg, Ok((l0, Seq::empty())), *d, signer, lo);
    if let Err(e) = visit_claimed_asset(cfg, l, actions, d, signer, lo, fee_parts, tax_parts) {
        return Err(e);
    }
    if hi != lo {
        let ghost l1 = l@;
        let ghost a1 = first->Ok_0.1;
        proof {
            lemma_visit_shift(*cfg, l1, actions@, *d, signer, hi);
            lemma_visit_shift(*cfg, l1, a1, *d, signer, hi);
            let second = claim_visit(*cfg, Ok((l1, Seq::empty())), *d, signer, hi);
            match second {
                Ok((l2, a2)) => {
                    assert(p + a1 + a2 =~= p + (a1 + a2));
                },
                Err((a2, e)) => {
                    assert(p + a1 + a2 =~= p + (a1 + a2));
                },
            }
        }
        if let Err(e) = visit_claimed_asset(cfg, l, actions, d, signer, hi, fee_parts, tax_parts) {
            return Err(e);
        }
    }
    Ok(())
}

impl Marketplace {
    /// Claims the shares an investor bought in a primary sale, once the SPV exists
    /// and while the claim window is open: the investor's held payment moves to
    /// the property account, and the shares are handed over. The last claim opens
    /// the legal process.
    pub fn claim_property_shares(&mut self, signer: AccountId, listing_id: ListingId, now: BlockNumber) -> (out: Outcome)
        ensures
            final(self)@ == claim_spec(old(self)@, signer, listing_id, now).0,
            out@ == claim_spec(old(self)@, signer, listing_id, now).1,
    {
        let ghost pre = self@;
        let mut listing = match self.listings.get(&listing_id) {
            Some(l) => l.duplicate(),
            None => return refusal(MarketError::ListingNotFound),
        };
        let mut actions = single(Action::EnsureSpvCreated { asset_id: listing.asset_id });
        let claim_expiry = match listing.claim_expiry {
            Some(e) => e,
            None => return refusal_after(actions, MarketError::NoClaimWindow),
        };
        if !(now < claim_expiry) {
            return refusal_after(actions, MarketError::ClaimWindowExpired);
        }
        let d = match self.share_owners.get(&(signer, listing_id)) {
            Some(d) => *d,
            None => return refusal_after(actions, MarketError::ShareOwnerNotFound),
        };
        if d.relist_count != listing.relist_count {
            return refusal_after(actions, MarketError::NoValidSharesToClaim);
        }
        let fee_parts = self.config.marketplace_fee.deconstruct();
        if fee_parts >= PERBILL_ACCURACY {
            return refusal_after(actions, MarketError::InvalidFeePercentage);
        }
        let tax_parts = listing.tax.deconstruct();
        let cfg = self.config;
        let ghost acts0 = actions@;
        if let Err(e) = settle_all_claimed_assets(&cfg, &mut listing, &mut actions, &d, signer, fee_parts, tax_parts) {
            return refusal_after(actions, e);
        }
        let ghost a = claim_all_assets(cfg, pre.listings[listing_id], d, signer)->Ok_0.1;
        actions.push(Action::DistributeShares { asset_id: listing.asset_id, owner: signer, amount: d.share_amount });
        assert(actions@ =~= acts0 + a + seq![Action::DistributeShares { asset_id: listing.asset_id, owner: signer, amount: d.share_amount }]);
        let unclaimed = match listing.unclaimed_share_amount.checked_sub(d.share_amount) {
            Some(u) => u,
            None => return refusal_after(actions, MarketError::ArithmeticUnderflow),
        };
        listing.unclaimed_share_amount = unclaimed;
        let mut events: Vec<Event> = Vec::new();
        if unclaimed == 0 {
            if self.property_lawyers.contains_key(&listing_id) {
                return refusal_after(actions, MarketError::LegalProcessOngoing);
            }
            let funds = match create_initial_funds(&cfg.accepted_assets, cfg.max_accepted_assets) {
                Ok(f) => f,
                Err(e) => return refusal_after(actions, e),
            };
            let expiry = now.saturating_add(cfg.legal_process_time);
            listing.claim_expiry = None;
            self.property_lawyers.insert(listing_id, PropertyLawyerDetails {
                real_estate_developer_lawyer: None,
                spv_lawyer: None,
                real_estate_developer_status: DocumentStatus::Pending,
                spv_status: DocumentStatus::Pending,
                real_estate_developer_lawyer_costs: funds,
                spv_lawyer_costs: funds,
                legal_process_expiry: expiry,
                second_attempt: false,
            });
            events.push(Event::AllPropertySharesClaimed { listing_id, asset_id: listing.asset_id, legal_process_expiry_block: expiry });
        }
        let asset_id = listing.asset_id;
        self.share_owners.remove(&(signer, listing_id));
        proof {
            lemma_listings_view_insert(self.listings@, listing_id, listing);
        }
        self.listings.insert(listing_id, listing);
        let ghost ev0 = events@;
        events.push(Event::PropertySharesClaimed { listing_id, asset_id, owner: signer, amount: d.share_amount });
        proof {
            let claimed = Event::PropertySharesClaimed { listing_id, asset_id, owner: signer, amount: d.share_amount };
            if unclaimed == 0 {
                let expiry = sat_add(now, cfg.legal_process_time);
                assert(events@ =~= seq![Event::AllPropertySharesClaimed { listing_id, asset_id, legal_process_expiry_block: expiry }, claimed]);
            } else {
                assert(events@ =~= seq![claimed]);
            }
        }
        success(actions, events)
    }
}

} // verus!
