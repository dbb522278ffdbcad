//! The primary sale of a property: listing, buying, cancelling, relisting
//! unclaimed shares and closing unsold or expired listings.
use vstd::prelude::*;
use std::collections::BTreeMap;
use crate::asset_map::{create_initial_funds, spec_initial_funds, spec_update, update_map};
use crate::common::{fee_on, max_shares, next_listing_id, sat_add, sat_sub_u32, spec_next_listing_id};
use crate::per_thing::{mul_ceil_spec, PERBILL_ACCURACY, PERMILL_ACCURACY};
use crate::refunds::{unfreeze_all, unfreeze_shares};
use crate::state::{
    accepted, lemma_listings_view_insert, lemma_listings_view_remove, refusal, refusal_after,
    refused, single, success, MarketView, Marketplace,
};
use crate::types::{
    AccountId, Action, Balance, BlockNumber, Event, ListingId, ListingView, MarketError, Outcome,
    OutcomeView, PropertyAssetInfo, PropertyListingDetails, RegionInfo,
    ShareOwnerDetails,
};

verus! {

broadcast use vstd::std_specs::btree::group_btree_axioms;

/// The checks of a new listing, and its total valuation when they pass.
pub open spec fn prepare_listing_spec(pre: MarketView, share_price: Balance, share_amount: u32, region_info: Option<RegionInfo>, location_registered: bool, can_pay_deposit: bool) -> Result<Balance, MarketError> {
    let cfg = pre.config;
    if share_amount == 0 {
        Err(MarketError::AmountCannotBeZero)
    } else if share_amount > cfg.max_property_shares {
        Err(MarketError::TooManyShares)
    } else if share_amount < cfg.min_property_shares {
        Err(MarketError::ShareAmountTooLow)
    } else if share_price == 0 {
        Err(MarketError::InvalidSharePrice)
    } else if region_info is None {
        Err(MarketError::RegionUnknown)
    } else if !location_registered {
        Err(MarketError::LocationUnknown)
    } else if spec_initial_funds(cfg.accepted_assets, cfg.max_accepted_assets) is Err {
        Err(MarketError::ExceedsMaxEntries)
    } else if share_price * share_amount > u128::MAX {
        Err(MarketError::MultiplyError)
    } else if !can_pay_deposit {
        Err(MarketError::NotEnoughFunds)
    } else {
        Ok((share_price * share_amount) as u128)
    }
}

/// What `list_property` does once the property's shares exist as `item_id` and `asset_id`.
pub open spec fn list_property_spec(pre: MarketView, signer: AccountId, share_price: Balance, share_amount: u32, metadata_blob: Vec<u8>, tax_paid_by_developer: bool, now: BlockNumber, region_info: Option<RegionInfo>, location_registered: bool, can_pay_deposit: bool, item_id: u32, asset_id: u32) -> (MarketView, OutcomeView) {
    let cfg = pre.config;
    match prepare_listing_spec(pre, share_price, share_amount, region_info, location_registered, can_pay_deposit) {
        Err(e) => refused(pre, Seq::empty(), e),
        Ok(valuation) => {
            let region = region_info->0;
            let funds = spec_initial_funds(cfg.accepted_assets, cfg.max_accepted_assets)->Ok_0;
            let listing_id = pre.next_listing_id;
            let expiry = sat_add(now, region.listing_duration);
            let acts = seq![Action::HoldDeposit { who: signer, amount: cfg.listing_deposit }];
            match spec_next_listing_id(listing_id) {
                Err(e) => refused(pre, acts, e),
                Ok(next) => accepted(MarketView {
                    listings: pre.listings.insert(listing_id, ListingView {
                        real_estate_developer: signer,
                        share_price,
                        collected_funds: funds,
                        collected_tax: funds,
                        collected_fees: funds,
                        asset_id,
                        item_id,
                        collection_id: region.collection_id,
                        share_amount,
                        listed_share_amount: share_amount,
                        tax_paid_by_developer,
                        tax: region.tax,
                        listing_expiry: expiry,
                        investor_funds: Map::empty(),
                        claim_expiry: None,
                        relist_count: 0,
                        unclaimed_share_amount: 0,
                    }),
                    listing_deposits: pre.listing_deposits.insert(listing_id, (signer, cfg.listing_deposit)),
                    next_listing_id: next,
                    ..pre
                }, acts, seq![Event::ObjectListed {
                    listing_index: listing_id,
                    collection_index: region.collection_id,
                    item_index: item_id,
                    asset_id,
                    share_price,
                    share_amount,
                    total_valuation: valuation,
                    seller: signer,
                    tax_paid_by_developer,
                    listing_expiry: expiry,
                    metadata_blob,
                }]),
            }
        },
    }
}

/// The investor's purchase record after buying `amount` more shares for
/// `price`, `fee` and `tax`.
pub open spec fn bought_shares(pre: MarketView, o: ShareOwnerDetails, amount: u32, asset: u32, price: Balance, fee: Balance, tax: Balance, tax_paid_by_developer: bool) -> Result<ShareOwnerDetails, MarketError> {
    let cfg = pre.config;
    let acc = cfg.accepted_assets;
    let bound = cfg.max_accepted_assets;
    match spec_update(o.paid_funds, acc, asset, price, bound) {
        Err(e) => Err(e),
        Ok(paid_funds) => match spec_update(o.paid_fees, acc, asset, fee, bound) {
            Err(e) => Err(e),
            Ok(paid_fees) => if tax_paid_by_developer {
                Ok(ShareOwnerDetails { share_amount: (o.share_amount + amount) as u32, paid_funds, paid_fees, ..o })
            } else {
                match spec_update(o.paid_tax, acc, asset, tax, bound) {
                    Err(e) => Err(e),
                    Ok(paid_tax) => Ok(ShareOwnerDetails { share_amount: (o.share_amount + amount) as u32, paid_funds, paid_fees, paid_tax, ..o }),
                }
            },
        },
    }
}

/// What `buy_property_shares` does.
pub open spec fn buy_spec(pre: MarketView, signer: AccountId, listing_id: ListingId, amount: u32, payment_asset: u32, now: BlockNumber, asset_info: Option<PropertyAssetInfo>, owned_shares: u32) -> (MarketView, OutcomeView) {
    let cfg = pre.config;
    if amount == 0 {
        refused(pre, Seq::empty(), MarketError::AmountCannotBeZero)
    } else if !cfg.accepted_assets.spec_contains(payment_asset) {
        refused(pre, Seq::empty(), MarketError::PaymentAssetNotSupported)
    } else if !pre.listings.contains_key(listing_id) {
        refused(pre, Seq::empty(), MarketError::ShareNotForSale)
    } else {
        let l = pre.listings[listing_id];
        if l.listed_share_amount < amount {
            refused(pre, Seq::empty(), MarketError::NotEnoughSharesAvailable)
        } else if !(l.listing_expiry > now) {
            refused(pre, Seq::empty(), MarketError::ListingExpired)
        } else if asset_info is None {
            refused(pre, Seq::empty(), MarketError::NoObjectFound)
        } else if cfg.marketplace_fee.value() >= PERBILL_ACCURACY {
            refused(pre, Seq::empty(), MarketError::InvalidFeePercentage)
        } else if l.share_price * amount > u128::MAX {
            refused(pre, Seq::empty(), MarketError::MultiplyError)
        } else {
            let price = (l.share_price * amount) as u128;
            let fee = fee_on(cfg, price);
            let tax = mul_ceil_spec(price as int, l.tax.value() as int, PERMILL_ACCURACY as int);
            if price + fee > u128::MAX || (!l.tax_paid_by_developer && price + fee + tax > u128::MAX) {
                refused(pre, Seq::empty(), MarketError::ArithmeticOverflow)
            } else {
                let total = (if l.tax_paid_by_developer { price + fee } else { price + fee + tax }) as u128;
                let acts = seq![Action::HoldFunds { asset: payment_asset, who: signer, amount: total }];
                let listed = (l.listed_share_amount - amount) as u32;
                if l.unclaimed_share_amount + amount > u32::MAX {
                    refused(pre, acts, MarketError::ArithmeticOverflow)
                } else if !pre.share_owners.contains_key((signer, listing_id))
                    && spec_initial_funds(cfg.accepted_assets, cfg.max_accepted_assets) is Err {
                    refused(pre, acts, MarketError::ExceedsMaxEntries)
                } else {
                    let funds = spec_initial_funds(cfg.accepted_assets, cfg.max_accepted_assets)->Ok_0;
                    let o = if pre.share_owners.contains_key((signer, listing_id)) {
                        pre.share_owners[(signer, listing_id)]
                    } else {
                        ShareOwnerDetails { share_amount: 0, paid_funds: funds, paid_fees: funds, paid_tax: funds, relist_count: l.relist_count }
                    };
                    if o.relist_count != l.relist_count {
                        refused(pre, acts, MarketError::StillHasUnclaimedShares)
                    } else if o.share_amount + amount > u32::MAX || o.share_amount + amount + owned_shares > u32::MAX {
                        refused(pre, acts, MarketError::ArithmeticOverflow)
                    } else if !(o.share_amount + amount + owned_shares < max_shares(cfg, l.share_amount)) {
                        refused(pre, acts, MarketError::ExceedsMaxOwnership)
                    } else {
                        match bought_shares(pre, o, amount, payment_asset, price, fee as u128, tax as u128, l.tax_paid_by_developer) {
                            Err(e) => refused(pre, acts, e),
                            Ok(o2) => {
                                let claim_expiry = if listed == 0 && asset_info->0.spv_created {
                                    Some(sat_add(now, cfg.claim_window))
                                } else {
                                    l.claim_expiry
                                };
                                let bought = Event::PropertySharesBought {
                                    listing_index: listing_id,
                                    asset_id: l.asset_id,
                                    buyer: signer,
                                    amount_purchased: amount,
                                    price_paid: price,
                                    tax_paid: if !l.tax_paid_by_developer { tax as u128 } else { 0 },
                                    payment_asset,
                                    new_shares_remaining: listed,
                                };
                                accepted(MarketView {
                                    listings: pre.listings.insert(listing_id, ListingView {
                                        listed_share_amount: listed,
                                        unclaimed_share_amount: (l.unclaimed_share_amount + amount) as u32,
                                        claim_expiry,
                                        ..l
                                    }),
                                    share_owners: pre.share_owners.insert((signer, listing_id), o2),
                                    ..pre
                                }, acts, if listed == 0 {
                                    seq![Event::PrimarySaleSoldOut { listing_id, asset_id: l.asset_id }, bought]
                                } else {
                                    seq![bought]
                                })
                            },
                        }
                    }
                }
            }
        }
    }
}

/// The report that closing the claim window of `l` by `signer` makes: the
/// shares sold and claimed by the end of the window.
pub open spec fn window_claims(l: ListingView, listing_id: ListingId, signer: AccountId) -> Event {
    Event::PropertySharesClaimed {
        listing_id,
        asset_id: l.asset_id,
        owner: signer,
        amount: sat_sub_u32(l.share_amount, l.unclaimed_share_amount),
    }
}

/// What `finalize_claim_window` does.
pub open spec fn finalize_claim_window_spec(pre: MarketView, signer: AccountId, listing_id: ListingId, now: BlockNumber) -> (MarketView, OutcomeView) {
    let cfg = pre.config;
    if !pre.listings.contains_key(listing_id) {
        refused(pre, Seq::empty(), MarketError::ListingNotFound)
    } else {
        let l = pre.listings[listing_id];
        let unclaimed = l.unclaimed_share_amount;
        if l.claim_expiry is None {
            refused(pre, Seq::empty(), MarketError::NoClaimWindow)
        } else if !(now > l.claim_expiry->0) {
            refused(pre, Seq::empty(), MarketError::ClaimWindowNotExpired)
        } else if unclaimed == 0 {
            refused(pre, Seq::empty(), MarketError::AllSharesClaimed)
        } else if l.relist_count >= cfg.max_relist_attempts {
            if l.relist_count + 1 > u8::MAX {
                refused(pre, Seq::empty(), MarketError::ArithmeticOverflow)
            } else {
                accepted(MarketView {
                    listings: pre.listings.insert(listing_id, ListingView {
                        relist_count: (l.relist_count + 1) as u8,
                        claim_expiry: None,
                        ..l
                    }),
                    refund_claimed: pre.refund_claimed.insert(listing_id, sat_sub_u32(l.share_amount, unclaimed)),
                    ..pre
                }, Seq::empty(), seq![
                    Event::SaleCancelledUnclaimed { listing_id, unclaimed_amount: unclaimed },
                    window_claims(l, listing_id, signer),
                ])
            }
        } else if l.listed_share_amount + unclaimed > u32::MAX || l.relist_count + 1 > u8::MAX {
            refused(pre, Seq::empty(), MarketError::ArithmeticOverflow)
        } else {
            let reopened = sat_add(now, cfg.claim_window);
            let relist_count = (l.relist_count + 1) as u8;
            accepted(MarketView {
                listings: pre.listings.insert(listing_id, ListingView {
                    listed_share_amount: (l.listed_share_amount + unclaimed) as u32,
                    relist_count,
                    unclaimed_share_amount: 0,
                    claim_expiry: None,
                    listing_expiry: if l.listing_expiry < reopened { reopened } else { l.listing_expiry },
                    ..l
                }),
                ..pre
            }, Seq::empty(), seq![
                Event::UnclaimedRelisted { listing_id, amount: unclaimed, relist_count },
                window_claims(l, listing_id, signer),
            ])
        }
    }
}

/// What `create_spv` does.
pub open spec fn create_spv_spec(pre: MarketView, listing_id: ListingId, now: BlockNumber) -> (MarketView, OutcomeView) {
    if !pre.listings.contains_key(listing_id) {
        refused(pre, Seq::empty(), MarketError::NoObjectFound)
    } else {
        let l = pre.listings[listing_id];
        if l.listed_share_amount != 0 {
            refused(pre, Seq::empty(), MarketError::PropertyHasNotBeenSoldYet)
        } else {
            accepted(MarketView {
                listings: pre.listings.insert(listing_id, ListingView {
                    claim_expiry: Some(sat_add(now, pre.config.claim_window)),
                    ..l
                }),
                ..pre
            }, seq![
                Action::EnsureSpvNotCreated { asset_id: l.asset_id },
                Action::RegisterSpv { asset_id: l.asset_id },
            ], seq![Event::SpvCreated { listing_id, asset_id: l.asset_id }])
        }
    }
}

/// What `cancel_property_purchase` does.
pub open spec fn cancel_purchase_spec(pre: MarketView, signer: AccountId, listing_id: ListingId, now: BlockNumber) -> (MarketView, OutcomeView) {
    if !pre.listings.contains_key(listing_id) {
        refused(pre, Seq::empty(), MarketError::ListingNotFound)
    } else {
        let l = pre.listings[listing_id];
        if !(l.listing_expiry > now) {
            refused(pre, Seq::empty(), MarketError::ListingExpired)
        } else if l.listed_share_amount == 0 {
            refused(pre, Seq::empty(), MarketError::PropertyAlreadySold)
        } else if !pre.share_owners.contains_key((signer, listing_id)) {
            refused(pre, Seq::empty(), MarketError::ShareOwnerNotFound)
        } else {
            let d = pre.share_owners[(signer, listing_id)];
            if d.share_amount == 0 {
                refused(pre, Seq::empty(), MarketError::NoSharesBought)
            } else {
                match unfreeze_all(pre.config, d, signer, true) {
                    Err((a, e)) => refused(pre, a, e),
                    Ok((refunds, a)) => if l.listed_share_amount + d.share_amount > u32::MAX {
                        refused(pre, a, MarketError::ArithmeticOverflow)
                    } else {
                        let listed = (l.listed_share_amount + d.share_amount) as u32;
                        accepted(MarketView {
                            listings: pre.listings.insert(listing_id, ListingView {
                                listed_share_amount: listed,
                                unclaimed_share_amount: sat_sub_u32(l.unclaimed_share_amount, d.share_amount),
                                ..l
                            }),
                            share_owners: pre.share_owners.remove((signer, listing_id)),
                            ..pre
                        }, a, seq![Event::InvestmentCancelled {
                            listing_id,
                            investor: signer,
                            amount_returned: d.share_amount,
                            new_shares_remaining: listed,
                            refunds,
                        }])
                    },
                }
            }
        }
    }
}

/// The actions that close a listing: its shares are burnt, the deposit released
/// and the property account's native balance returned to the developer.
pub open spec fn closing_actions(asset_id: u32, deposit: (AccountId, Balance), developer: AccountId) -> Seq<Action> {
    seq![
        Action::ReleaseDeposit { who: deposit.0, amount: deposit.1 },
        Action::SweepNative { asset_id, to: developer },
    ]
}

/// What `withdraw_expired` does.
pub open spec fn withdraw_expired_spec(pre: MarketView, signer: AccountId, listing_id: ListingId, now: BlockNumber) -> (MarketView, OutcomeView) {
    if !pre.listings.contains_key(listing_id) {
        refused(pre, Seq::empty(), MarketError::ListingNotFound)
    } else {
        let l = pre.listings[listing_id];
        if !(l.listing_expiry < now) {
            refused(pre, Seq::empty(), MarketError::ListingNotExpired)
        } else if l.listed_share_amount == 0 {
            refused(pre, Seq::empty(), MarketError::PropertyAlreadySold)
        } else if !pre.share_owners.contains_key((signer, listing_id)) {
            refused(pre, Seq::empty(), MarketError::ShareOwnerNotFound)
        } else {
            let d = pre.share_owners[(signer, listing_id)];
            if d.share_amount == 0 {
                refused(pre, Seq::empty(), MarketError::NoSharesBought)
            } else {
                match unfreeze_all(pre.config, d, signer, false) {
                    Err((a, e)) => refused(pre, a, e),
                    Ok((_, a)) => if l.listed_share_amount + d.share_amount > u32::MAX {
                        refused(pre, a, MarketError::ArithmeticOverflow)
                    } else {
                        let listed = (l.listed_share_amount + d.share_amount) as u32;
                        let ev = seq![Event::ExpiredFundsWithdrawn { signer, listing_id }];
                        if listed >= l.share_amount {
                            let a2 = a + seq![Action::BurnPropertyShares { asset_id: l.asset_id }];
                            if !pre.listing_deposits.contains_key(listing_id) {
                                refused(pre, a2, MarketError::ListingNotFound)
                            } else {
                                accepted(MarketView {
                                    listings: pre.listings.remove(listing_id),
                                    listing_deposits: pre.listing_deposits.remove(listing_id),
                                    share_owners: pre.share_owners.remove((signer, listing_id)),
                                    ..pre
                                }, a2 + closing_actions(l.asset_id, pre.listing_deposits[listing_id], l.real_estate_developer), ev)
                            }
                        } else {
                            accepted(MarketView {
                                listings: pre.listings.insert(listing_id, ListingView { listed_share_amount: listed, ..l }),
                                share_owners: pre.share_owners.remove((signer, listing_id)),
                                ..pre
                            }, a, ev)
                        }
                    },
                }
            }
        }
    }
}

/// What `withdraw_deposit_unsold` does.
pub open spec fn withdraw_deposit_unsold_spec(pre: MarketView, signer: AccountId, listing_id: ListingId, now: BlockNumber) -> (MarketView, OutcomeView) {
    if !pre.listings.contains_key(listing_id) {
        refused(pre, Seq::empty(), MarketError::ListingNotFound)
    } else {
        let l = pre.listings[listing_id];
        if l.real_estate_developer != signer {
            refused(pre, Seq::empty(), MarketError::NoPermission)
        } else if !(l.listing_expiry < now) {
            refused(pre, Seq::empty(), MarketError::ListingNotExpired)
        } else if l.listed_share_amount == 0 {
            refused(pre, Seq::empty(), MarketError::PropertyAlreadySold)
        } else if l.listed_share_amount < l.share_amount {
            refused(pre, Seq::empty(), MarketError::SharesNotReturned)
        } else {
            let a = seq![Action::BurnPropertyShares { asset_id: l.asset_id }];
            if !pre.listing_deposits.contains_key(listing_id) {
                refused(pre, a, MarketError::ListingNotFound)
            } else {
                let deposit = pre.listing_deposits[listing_id];
                accepted(MarketView {
                    listings: pre.listings.remove(listing_id),
                    listing_deposits: pre.listing_deposits.remove(listing_id),
                    ..pre
                }, a + closing_actions(l.asset_id, deposit, l.real_estate_developer),
                seq![Event::DeveloperDepositReturned { listing_id, developer: signer, amount: deposit.1 }])
            }
        }
    }
}

/// What `withdraw_unclaimed` does.
pub open spec fn withdraw_unclaimed_spec(pre: MarketView, signer: AccountId, listing_id: ListingId) -> (MarketView, OutcomeView) {
    if !pre.share_owners.contains_key((signer, listing_id)) {
        refused(pre, Seq::empty(), MarketError::ShareOwnerNotFound)
    } else {
        let d = pre.share_owners[(signer, listing_id)];
        if d.share_amount == 0 {
            refused(pre, Seq::empty(), MarketError::NoSharesBought)
        } else if pre.listings.contains_key(listing_id) && !(pre.listings[listing_id].relist_count > d.relist_count) {
            refused(pre, Seq::empty(), MarketError::NoPermission)
        } else {
            match unfreeze_all(pre.config, d, signer, true) {
                Err((a, e)) => refused(pre, a, e),
                Ok((refunds, a)) => accepted(MarketView {
                    share_owners: pre.share_owners.remove((signer, listing_id)),
                    ..pre
                }, a, seq![Event::UnclaimedSharesWithdrawn { listing_id, investor: signer, refunds }]),
            }
        }
    }
}

/// What `upgrade_object` does.
pub open spec fn upgrade_object_spec(pre: MarketView, signer: AccountId, listing_id: ListingId, new_price: Balance, now: BlockNumber) -> (MarketView, OutcomeView) {
    if new_price == 0 {
        refused(pre, Seq::empty(), MarketError::InvalidSharePrice)
    } else if pre.property_lawyers.contains_key(listing_id) {
        refused(pre, Seq::empty(), MarketError::PropertyAlreadySold)
    } else if !pre.listings.contains_key(listing_id) {
        refused(pre, Seq::empty(), MarketError::ShareNotForSale)
    } else {
        let l = pre.listings[listing_id];
        if !(l.listing_expiry > now) {
            refused(pre, Seq::empty(), MarketError::ListingExpired)
        } else if l.real_estate_developer != signer {
            refused(pre, Seq::empty(), MarketError::NoPermission)
        } else if l.listed_share_amount == 0 {
            refused(pre, Seq::empty(), MarketError::PropertyAlreadySold)
        } else {
            accepted(MarketView {
                listings: pre.listings.insert(listing_id, ListingView { share_price: new_price, ..l }),
                ..pre
            }, Seq::empty(), seq![Event::ObjectUpdated { listing_index: listing_id, new_price }])
        }
    }
}

impl Marketplace {
    /// Checks a new listing and computes its total valuation (share price times
    /// share amount), which the property's shares are created with.
    pub fn prepare_listing(&self, share_price: Balance, share_amount: u32, region_info: Option<RegionInfo>, location_registered: bool, can_pay_deposit: bool) -> (r: Result<Balance, MarketError>)
        ensures
            r == prepare_listing_spec(self@, share_price, share_amount, region_info, location_registered, can_pay_deposit),
    {
        let cfg = &self.config;
        if share_amount == 0 {
            return Err(MarketError::AmountCannotBeZero);
        }
        if share_amount > cfg.max_property_shares {
            return Err(MarketError::TooManyShares);
        }
        if share_amount < cfg.min_property_shares {
            return Err(MarketError::ShareAmountTooLow);
        }
        if share_price == 0 {
            return Err(MarketError::InvalidSharePrice);
        }
        if region_info.is_none() {
            return Err(MarketError::RegionUnknown);
        }
        if !location_registered {
            return Err(MarketError::LocationUnknown);
        }
        if create_initial_funds(&cfg.accepted_assets, cfg.max_accepted_assets).is_err() {
            return Err(MarketError::ExceedsMaxEntries);
        }
        let valuation = match share_price.checked_mul(share_amount as u128) {
            Some(v) => v,
            None => return Err(MarketError::MultiplyError),
        };
        if !can_pay_deposit {
            return Err(MarketError::NotEnoughFunds);
        }
        Ok(valuation)
    }

    /// Lists a property for its primary sale, once its shares were created as
    /// `item_id` and `asset_id`: the developer's deposit is held, and the whole
    /// share amount is offered at `share_price` until the region's listing
    /// duration has passed. The listing is reported with the property's
    /// metadata.
    pub fn list_property(&mut self, signer: AccountId, share_price: Balance, share_amount: u32, metadata_blob: Vec<u8>, tax_paid_by_developer: bool, now: BlockNumber, region_info: Option<RegionInfo>, location_registered: bool, can_pay_deposit: bool, item_id: u32, asset_id: u32) -> (out: Outcome)
        ensures
            final(self)@ == list_property_spec(old(self)@, signer, share_price, share_amount, metadata_blob, tax_paid_by_developer, now, region_info, location_registered, can_pay_deposit, item_id, asset_id).0,
            out@ == list_property_spec(old(self)@, signer, share_price, share_amount, metadata_blob, tax_paid_by_developer, now, region_info, location_registered, can_pay_deposit, item_id, asset_id).1,
    {
        let valuation = match self.prepare_listing(share_price, share_amount, region_info, location_registered, can_pay_deposit) {
            Ok(v) => v,
            Err(e) => return refusal(e),
        };
        let region = region_info.unwrap();
        let funds = match create_initial_funds(&self.config.accepted_assets, self.config.max_accepted_assets) {
            Ok(f) => f,
            Err(e) => return refusal(e),
        };
        let listing_id = self.next_listing_id;
        let expiry = now.saturating_add(region.listing_duration);
        let deposit = self.config.listing_deposit;
        let actions = single(Action::HoldDeposit { who: signer, amount: deposit });
        let next = match next_listing_id(listing_id) {
            Ok(n) => n,
            Err(e) => return refusal_after(actions, e),
        };
        let listing = PropertyListingDetails {
            real_estate_developer: signer,
            share_price,
            collected_funds: funds,
            collected_tax: funds,
            collected_fees: funds,
            asset_id,
            item_id,
            collection_id: region.collection_id,
            share_amount,
            listed_share_amount: share_amount,
            tax_paid_by_developer,
            tax: region.tax,
            listing_expiry: expiry,
            investor_funds: BTreeMap::new(),
            claim_expiry: None,
            relist_count: 0,
            unclaimed_share_amount: 0,
        };
        proof {
            lemma_listings_view_insert(self.listings@, listing_id, listing);
        }
        self.listings.insert(listing_id, listing);
        self.listing_deposits.insert(listing_id, (signer, deposit));
        self.next_listing_id = next;
        success(actions, single(Event::ObjectListed {
            listing_index: listing_id,
            collection_index: region.collection_id,
            item_index: item_id,
            asset_id,
            share_price,
            share_amount,
            total_valuation: valuation,
            seller: signer,
            tax_paid_by_developer,
            listing_expiry: expiry,
            metadata_blob,
        }))
    }

    /// Buys `amount` shares of a primary-sale listing, paying in an accepted
    /// asset: the price, the marketplace fee and (unless the developer pays it)
    /// the property tax are put on hold until the shares are claimed. No investor
    /// may come to hold the maximum ownership share of the property or more.
    pub fn buy_property_shares(&mut self, signer: AccountId, listing_id: ListingId, amount: u32, payment_asset: u32, now: BlockNumber, asset_info: Option<PropertyAssetInfo>, owned_shares: u32) -> (out: Outcome)
        ensures
            final(self)@ == buy_spec(old(self)@, signer, listing_id, amount, payment_asset, now, asset_info, owned_shares).0,
            out@ == buy_spec(old(self)@, signer, listing_id, amount, payment_asset, now, asset_info, owned_shares).1,
    {
        let ghost pre = self@;
        let cfg = self.config;
        if amount == 0 {
            return refusal(MarketError::AmountCannotBeZero);
        }
        if !cfg.accepted_assets.contains(payment_asset) {
            return refusal(MarketError::PaymentAssetNotSupported);
        }
        let mut l = match self.listings.get(&listing_id) {
            Some(l) => l.duplicate(),
            None => return refusal(MarketError::ShareNotForSale),
        };
        if l.listed_share_amount < amount {
            return refusal(MarketError::NotEnoughSharesAvailable);
        }
        if !(l.listing_expiry > now) {
            return refusal(MarketError::ListingExpired);
        }
        let info = match asset_info {
            Some(i) => i,
            None => return refusal(MarketError::NoObjectFound),
        };
        let fee_parts = cfg.marketplace_fee.deconstruct();
        if fee_parts >= PERBILL_ACCURACY {
            return refusal(MarketError::InvalidFeePercentage);
        }
        let max = cfg.max_ownership.mul_floor_count(l.share_amount);
        let price = match l.share_price.checked_mul(amount as u128) {
            Some(p) => p,
            None => return refusal(MarketError::MultiplyError),
        };
        let fee = cfg.marketplace_fee.mul_ceil(price);
        let tax = l.tax.mul_ceil(price);
        let base = match price.checked_add(fee) {
            Some(b) => b,
            None => return refusal(MarketError::ArithmeticOverflow),
        };
        let total = if l.tax_paid_by_developer {
            base
        } else {
            match base.checked_add(tax) {
                Some(t) => t,
                None => return refusal(MarketError::ArithmeticOverflow),
            }
        };
        let actions = single(Action::HoldFunds { asset: payment_asset, who: signer, amount: total });
        let listed = l.listed_share_amount - amount;
        let unclaimed = match l.unclaimed_share_amount.checked_add(amount) {
            Some(u) => u,
            None => return refusal_after(actions, MarketError::ArithmeticOverflow),
        };
        let o = match self.share_owners.get(&(signer, listing_id)) {
            Some(o) => *o,
            None => {
                let funds = match create_initial_funds(&cfg.accepted_assets, cfg.max_accepted_assets) {
                    Ok(f) => f,
                    Err(e) => return refusal_after(actions, e),
                };
                ShareOwnerDetails { share_amount: 0, paid_funds: funds, paid_fees: funds, paid_tax: funds, relist_count: l.relist_count }
            },
        };
        if o.relist_count != l.relist_count {
            return refusal_after(actions, MarketError::StillHasUnclaimedShares);
        }
        let new_amount = match o.share_amount.checked_add(amount) {
            Some(n) => n,
            None => return refusal_after(actions, MarketError::ArithmeticOverflow),
        };
        let holding = match new_amount.checked_add(owned_shares) {
            Some(n) => n,
            None => return refusal_after(actions, MarketError::ArithmeticOverflow),
        };
        if !(holding < max) {
            return refusal_after(actions, MarketError::ExceedsMaxOwnership);
        }
        let mut o2 = o;
        o2.share_amount = new_amount;
        if let Err(e) = update_map(&mut o2.paid_funds, &cfg.accepted_assets, payment_asset, price, cfg.max_accepted_assets) {
            return refusal_after(actions, e);
        }
        if let Err(e) = update_map(&mut o2.paid_fees, &cfg.accepted_assets, payment_asset, fee, cfg.max_accepted_assets) {
            return refusal_after(actions, e);
        }
        if !l.tax_paid_by_developer {
            if let Err(e) = update_map(&mut o2.paid_tax, &cfg.accepted_assets, payment_asset, tax, cfg.max_accepted_assets) {
                return refusal_after(actions, e);
            }
        }
        l.listed_share_amount = listed;
        l.unclaimed_share_amount = unclaimed;
        if listed == 0 && info.spv_created {
            l.claim_expiry = Some(now.saturating_add(cfg.claim_window));
        }
        let asset_id = l.asset_id;
        let tax_by_developer = l.tax_paid_by_developer;
        proof {
            lemma_listings_view_insert(self.listings@, listing_id, l);
        }
        self.listings.insert(listing_id, l);
        self.share_owners.insert((signer, listing_id), o2);
        let bought = Event::PropertySharesBought {
            listing_index: listing_id,
            asset_id,
            buyer: signer,
            amount_purchased: amount,
            price_paid: price,
            tax_paid: if !tax_by_developer { tax } else { 0 },
            payment_asset,
            new_shares_remaining: listed,
        };
        let mut events: Vec<Event> = Vec::new();
        if listed == 0 {
            events.push(Event::PrimarySaleSoldOut { listing_id, asset_id });
        }
        events.push(bought);
        proof {
            if listed == 0 {
                assert(events@ =~= seq![Event::PrimarySaleSoldOut { listing_id, asset_id }, bought]);
            } else {
                assert(events@ =~= seq![bought]);
            }
        }
        success(actions, events)
    }

    /// Ends an expired claim window: unclaimed shares are offered again, or, once
    /// the relisting attempts are used up, the sale is cancelled and the shares
    /// sold so far become refundable. Either way the call reports
    /// `PropertySharesClaimed`: the shares claimed by the end of the window,
    /// under the account that closed it.
    pub fn finalize_claim_window(&mut self, signer: AccountId, listing_id: ListingId, now: BlockNumber) -> (out: Outcome)
        ensures
            final(self)@ == finalize_claim_window_spec(old(self)@, signer, listing_id, now).0,
            out@ == finalize_claim_window_spec(old(self)@, signer, listing_id, now).1,
    {
        let mut l = match self.listings.get(&listing_id) {
            Some(l) => l.duplicate(),
            None => return refusal(MarketError::ListingNotFound),
        };
        let claim_expiry = match l.claim_expiry {
            Some(e) => e,
            None => return refusal(MarketError::NoClaimWindow),
        };
        if !(now > claim_expiry) {
            return refusal(MarketError::ClaimWindowNotExpired);
        }
        let unclaimed = l.unclaimed_share_amount;
        if unclaimed == 0 {
            return refusal(MarketError::AllSharesClaimed);
        }
        let claims = Event::PropertySharesClaimed {
            listing_id,
            asset_id: l.asset_id,
            owner: signer,
            amount: l.share_amount.saturating_sub(unclaimed),
        };
        if l.relist_count >= self.config.max_relist_attempts {
            let relist = match l.relist_count.checked_add(1) {
                Some(r) => r,
                None => return refusal(MarketError::ArithmeticOverflow),
            };
            l.relist_count = relist;
            l.claim_expiry = None;
            let sold = l.share_amount.saturating_sub(unclaimed);
            proof {
                lemma_listings_view_insert(self.listings@, listing_id, l);
            }
            self.listings.insert(listing_id, l);
            self.refund_claimed.insert(listing_id, sold);
            let mut events = single(Event::SaleCancelledUnclaimed { listing_id, unclaimed_amount: unclaimed });
            events.push(claims);
            assert(events@ =~= seq![Event::SaleCancelledUnclaimed { listing_id, unclaimed_amount: unclaimed }, claims]);
            success(Vec::new(), events)
        } else {
            let listed = match l.listed_share_amount.checked_add(unclaimed) {
                Some(x) => x,
                None => return refusal(MarketError::ArithmeticOverflow),
            };
            let relist = match l.relist_count.checked_add(1) {
                Some(r) => r,
                None => return refusal(MarketError::ArithmeticOverflow),
            };
            l.listed_share_amount = listed;
            l.relist_count = relist;
            l.unclaimed_share_amount = 0;
            l.claim_expiry = None;
            let reopened = now.saturating_add(self.config.claim_window);
            if l.listing_expiry < reopened {
                l.listing_expiry = reopened;
            }
            proof {
                lemma_listings_view_insert(self.listings@, listing_id, l);
            }
            self.listings.insert(listing_id, l);
            let mut events = single(Event::UnclaimedRelisted { listing_id, amount: unclaimed, relist_count: relist });
            events.push(claims);
            assert(events@ =~= seq![Event::UnclaimedRelisted { listing_id, amount: unclaimed, relist_count: relist }, claims]);
            success(Vec::new(), events)
        }
    }

    /// Records that the SPV of a sold-out property has been created, and opens
    /// the window in which investors claim their shares.
    pub fn create_spv(&mut self, listing_id: ListingId, now: BlockNumber) -> (out: Outcome)
        ensures
            final(self)@ == create_spv_spec(old(self)@, listing_id, now).0,
            out@ == create_spv_spec(old(self)@, listing_id, now).1,
    {
        let mut l = match self.listings.get(&listing_id) {
            Some(l) => l.duplicate(),
            None => return refusal(MarketError::NoObjectFound),
        };
        if l.listed_share_amount != 0 {
            return refusal(MarketError::PropertyHasNotBeenSoldYet);
        }
        let asset_id = l.asset_id;
        let mut actions: Vec<Action> = Vec::new();
        actions.push(Action::EnsureSpvNotCreated { asset_id });
        actions.push(Action::RegisterSpv { asset_id });
        assert(actions@ =~= seq![Action::EnsureSpvNotCreated { asset_id }, Action::RegisterSpv { asset_id }]);
        l.claim_expiry = Some(now.saturating_add(self.config.claim_window));
        proof {
            lemma_listings_view_insert(self.listings@, listing_id, l);
        }
        self.listings.insert(listing_id, l);
        success(actions, single(Event::SpvCreated { listing_id, asset_id }))
    }

    /// Cancels an investor's purchase while the listing is still open and not
    /// sold out: everything the purchase put on hold is released, and its
    /// shares are offered again and no longer count as waiting to be claimed.
    pub fn cancel_property_purchase(&mut self, signer: AccountId, listing_id: ListingId, now: BlockNumber) -> (out: Outcome)
        ensures
            final(self)@ == cancel_purchase_spec(old(self)@, signer, listing_id, now).0,
            out@ == cancel_purchase_spec(old(self)@, signer, listing_id, now).1,
    {
        let mut l = match self.listings.get(&listing_id) {
            Some(l) => l.duplicate(),
            None => return refusal(MarketError::ListingNotFound),
        };
        if !(l.listing_expiry > now) {
            return refusal(MarketError::ListingExpired);
        }
        if l.listed_share_amount == 0 {
            return refusal(MarketError::PropertyAlreadySold);
        }
        let d = match self.share_owners.get(&(signer, listing_id)) {
            Some(d) => *d,
            None => return refusal(MarketError::ShareOwnerNotFound),
        };
        if d.share_amount == 0 {
            return refusal(MarketError::NoSharesBought);
        }
        let mut actions: Vec<Action> = Vec::new();
        let refunds = match unfreeze_shares(&self.config, &d, signer, true, &mut actions) {
            Ok(r) => r,
            Err(e) => return refusal_after(actions, e),
        };
        let listed = match l.listed_share_amount.checked_add(d.share_amount) {
            Some(x) => x,
            None => return refusal_after(actions, MarketError::ArithmeticOverflow),
        };
        l.listed_share_amount = listed;
        l.unclaimed_share_amount = l.unclaimed_share_amount.saturating_sub(d.share_amount);
        proof {
            lemma_listings_view_insert(self.listings@, listing_id, l);
        }
        self.listings.insert(listing_id, l);
        self.share_owners.remove(&(signer, listing_id));
        success(actions, single(Event::InvestmentCancelled {
            listing_id,
            investor: signer,
            amount_returned: d.share_amount,
            new_shares_remaining: listed,
            refunds,
        }))
    }

    /// Releases an investor's held payment after the listing expired unsold.
    /// When every share has come back, the listing closes.
    pub fn withdraw_expired(&mut self, signer: AccountId, listing_id: ListingId, now: BlockNumber) -> (out: Outcome)
        ensures
            final(self)@ == withdraw_expired_spec(old(self)@, signer, listing_id, now).0,
            out@ == withdraw_expired_spec(old(self)@, signer, listing_id, now).1,
    {
        let mut l = match self.listings.get(&listing_id) {
            Some(l) => l.duplicate(),
            None => return refusal(MarketError::ListingNotFound),
        };
        if !(l.listing_expiry < now) {
            return refusal(MarketError::ListingNotExpired);
        }
        if l.listed_share_amount == 0 {
            return refusal(MarketError::PropertyAlreadySold);
        }
        let d = match self.share_owners.get(&(signer, listing_id)) {
            Some(d) => *d,
            None => return refusal(MarketError::ShareOwnerNotFound),
        };
        if d.share_amount == 0 {
            return refusal(MarketError::NoSharesBought);
        }
        let mut actions: Vec<Action> = Vec::new();
        let ghost empty = actions@;
        if let Err(e) = unfreeze_shares(&self.config, &d, signer, false, &mut actions) {
            return refusal_after(actions, e);
        }
        assert(actions@ =~= unfreeze_all(self.config, d, signer, false)->Ok_0.1) by {
            assert(empty + unfreeze_all(self.config, d, signer, false)->Ok_0.1 =~= unfreeze_all(self.config, d, signer, false)->Ok_0.1);
        }
        let listed = match l.listed_share_amount.checked_add(d.share_amount) {
            Some(x) => x,
            None => return refusal_after(actions, MarketError::ArithmeticOverflow),
        };
        if listed >= l.share_amount {
            let ghost a0 = actions@;
            actions.push(Action::BurnPropertyShares { asset_id: l.asset_id });
            assert(actions@ =~= a0 + seq![Action::BurnPropertyShares { asset_id: l.asset_id }]);
            let (who, amount) = match self.listing_deposits.get(&listing_id) {
                Some(x) => *x,
                None => return refusal_after(actions, MarketError::ListingNotFound),
            };
            let ghost a2 = actions@;
            actions.push(Action::ReleaseDeposit { who, amount });
            actions.push(Action::SweepNative { asset_id: l.asset_id, to: l.real_estate_developer });
            assert(actions@ =~= a2 + seq![
                Action::ReleaseDeposit { who, amount },
                Action::SweepNative { asset_id: l.asset_id, to: l.real_estate_developer },
            ]);
            proof {
                lemma_listings_view_remove(self.listings@, listing_id);
            }
            self.listings.remove(&listing_id);
            self.listing_deposits.remove(&listing_id);
        } else {
            l.listed_share_amount = listed;
            proof {
                lemma_listings_view_insert(self.listings@, listing_id, l);
            }
            self.listings.insert(listing_id, l);
        }
        self.share_owners.remove(&(signer, listing_id));
        success(actions, single(Event::ExpiredFundsWithdrawn { signer, listing_id }))
    }

    /// Lets the developer close an expired listing of which nothing was sold:
    /// the shares are burnt and the deposit released.
    pub fn withdraw_deposit_unsold(&mut self, signer: AccountId, listing_id: ListingId, now: BlockNumber) -> (out: Outcome)
        ensures
            final(self)@ == withdraw_deposit_unsold_spec(old(self)@, signer, listing_id, now).0,
            out@ == withdraw_deposit_unsold_spec(old(self)@, signer, listing_id, now).1,
    {
        let (developer, expiry, listed, share_amount, asset_id) = match self.listings.get(&listing_id) {
            Some(l) => (l.real_estate_developer, l.listing_expiry, l.listed_share_amount, l.share_amount, l.asset_id),
            None => return refusal(MarketError::ListingNotFound),
        };
        if developer != signer {
            return refusal(MarketError::NoPermission);
        }
        if !(expiry < now) {
            return refusal(MarketError::ListingNotExpired);
        }
        if listed == 0 {
            return refusal(MarketError::PropertyAlreadySold);
        }
        if listed < share_amount {
            return refusal(MarketError::SharesNotReturned);
        }
        let mut actions = single(Action::BurnPropertyShares { asset_id });
        let (who, amount) = match self.listing_deposits.get(&listing_id) {
            Some(x) => *x,
            None => return refusal_after(actions, MarketError::ListingNotFound),
        };
        let ghost a1 = actions@;
        actions.push(Action::ReleaseDeposit { who, amount });
        actions.push(Action::SweepNative { asset_id, to: developer });
        assert(actions@ =~= a1 + seq![
            Action::ReleaseDeposit { who, amount },
            Action::SweepNative { asset_id, to: developer },
        ]);
        proof {
            lemma_listings_view_remove(self.listings@, listing_id);
        }
        self.listings.remove(&listing_id);
        self.listing_deposits.remove(&listing_id);
        success(actions, single(Event::DeveloperDepositReturned { listing_id, developer: signer, amount }))
    }

    /// Releases an investor's held payment for shares left unclaimed, once the
    /// listing has been relisted since the purchase (or is gone).
    pub fn withdraw_unclaimed(&mut self, signer: AccountId, listing_id: ListingId) -> (out: Outcome)
        ensures
            final(self)@ == withdraw_unclaimed_spec(old(self)@, signer, listing_id).0,
            out@ == withdraw_unclaimed_spec(old(self)@, signer, listing_id).1,
    {
        let d = match self.share_owners.get(&(signer, listing_id)) {
            Some(d) => *d,
            None => return refusal(MarketError::ShareOwnerNotFound),
        };
        if d.share_amount == 0 {
            return refusal(MarketError::NoSharesBought);
        }
        if let Some(l) = self.listings.get(&listing_id) {
            if !(l.relist_count > d.relist_count) {
                return refusal(MarketError::NoPermission);
            }
        }
        let mut actions: Vec<Action> = Vec::new();
        let refunds = match unfreeze_shares(&self.config, &d, signer, true, &mut actions) {
            Ok(r) => r,
            Err(e) => return refusal_after(actions, e),
        };
        self.share_owners.remove(&(signer, listing_id));
        success(actions, single(Event::UnclaimedSharesWithdrawn { listing_id, investor: signer, refunds }))
    }

    /// Lets the developer change the share price of an open, not sold-out listing
    /// whose legal process has not started.
    pub fn upgrade_object(&mut self, signer: AccountId, listing_id: ListingId, new_price: Balance, now: BlockNumber) -> (out: Outcome)
        ensures
            final(self)@ == upgrade_object_spec(old(self)@, signer, listing_id, new_price, now).0,
            out@ == upgrade_object_spec(old(self)@, signer, listing_id, new_price, now).1,
    {
        if new_price == 0 {
            return refusal(MarketError::InvalidSharePrice);
        }
        if self.property_lawyers.contains_key(&listing_id) {
            return refusal(MarketError::PropertyAlreadySold);
        }
        let mut l = match self.listings.get(&listing_id) {
            Some(l) => l.duplicate(),
            None => return refusal(MarketError::ShareNotForSale),
        };
        if !(l.listing_expiry > now) {
            return refusal(MarketError::ListingExpired);
        }
        if l.real_estate_developer != signer {
            return refusal(MarketError::NoPermission);
        }
        if l.listed_share_amount == 0 {
            return refusal(MarketError::PropertyAlreadySold);
        }
        l.share_price = new_price;
        proof {
            lemma_listings_view_insert(self.listings@, listing_id, l);
        }
        self.listings.insert(listing_id, l);
        success(Vec::new(), single(Event::ObjectUpdated { listing_index: listing_id, new_price }))
    }
}

} // verus!
