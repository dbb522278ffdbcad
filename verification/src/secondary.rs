//! The resale of shares between investors: relisting, buying, offers and transfers.
use vstd::prelude::*;
use crate::common::{fee_on, max_shares, next_listing_id, spec_next_listing_id, transfer_funds, transfer_spec};
use crate::per_thing::PERBILL_ACCURACY;
use crate::state::{accepted, refusal, refusal_after, refused, single, success, MarketView, Marketplace};
use crate::types::{
    AccountId, AccountRef, Action, Balance, Event, LegalProperty, ListingId, MarketConfig, MarketError, Offer,
    OfferDetails, Outcome, OutcomeView, PropertyAssetInfo, ShareListingDetails,
};

verus! {

broadcast use vstd::std_specs::btree::group_btree_axioms;

/// Whether `account`, holding `owned` shares, may receive `amount` more shares
/// of the property: its holding must stay below the maximum ownership share.
pub open spec fn restrict_ownership_spec(cfg: MarketConfig, asset_info: Option<PropertyAssetInfo>, owned: u32, amount: u32) -> Result<(), MarketError> {
    match asset_info {
        None => Err(MarketError::NoObjectFound),
        Some(info) => if owned + amount > u32::MAX {
            Err(MarketError::ArithmeticOverflow)
        } else if !(owned + amount < max_shares(cfg, info.share_amount)) {
            Err(MarketError::ExceedsMaxOwnership)
        } else {
            Ok(())
        },
    }
}

/// Checks that an account holding `owned` shares may receive `amount` more.
pub fn restrict_ownership(cfg: &MarketConfig, asset_info: Option<PropertyAssetInfo>, owned: u32, amount: u32) -> (r: Result<(), MarketError>)
    ensures
        r == restrict_ownership_spec(*cfg, asset_info, owned, amount),
{
    let info = match asset_info {
        Some(i) => i,
        None => return Err(MarketError::NoObjectFound),
    };
    let max = cfg.max_ownership.mul_floor_count(info.share_amount);
    let holding = match owned.checked_add(amount) {
        Some(h) => h,
        None => return Err(MarketError::ArithmeticOverflow),
    };
    if !(holding < max) {
        return Err(MarketError::ExceedsMaxOwnership);
    }
    Ok(())
}

/// The payment of a resale of `price`: the marketplace fee to the treasury and
/// the rest to the seller.
pub open spec fn calculate_fees_spec(cfg: MarketConfig, price: Balance, sender: AccountId, receiver: AccountId, asset: u32) -> Result<Seq<Action>, MarketError> {
    if cfg.marketplace_fee.value() >= PERBILL_ACCURACY {
        Err(MarketError::InvalidFeePercentage)
    } else {
        let fees = fee_on(cfg, price);
        if price < fees {
            Err(MarketError::ArithmeticUnderflow)
        } else {
            Ok(transfer_spec(asset, AccountRef::User(sender), AccountRef::Treasury, fees as u128)
                + transfer_spec(asset, AccountRef::User(sender), AccountRef::User(receiver), (price - fees) as u128))
        }
    }
}

/// Asks for the payment of a resale of `price`.
pub fn calculate_fees(cfg: &MarketConfig, price: Balance, sender: AccountId, receiver: AccountId, asset: u32, actions: &mut Vec<Action>) -> (r: Result<(), MarketError>)
    ensures
        match calculate_fees_spec(*cfg, price, sender, receiver, asset) {
            Ok(a) => r is Ok && final(actions)@ == old(actions)@ + a,
            Err(e) => r == Err::<(), MarketError>(e) && final(actions)@ == old(actions)@,
        },
{
    let fee_parts = cfg.marketplace_fee.deconstruct();
    if fee_parts >= PERBILL_ACCURACY {
        return Err(MarketError::InvalidFeePercentage);
    }
    let fees = cfg.marketplace_fee.mul_ceil(price);
    let seller_part = match price.checked_sub(fees) {
        Some(s) => s,
        None => return Err(MarketError::ArithmeticUnderflow),
    };
    let ghost a0 = actions@;
    transfer_funds(actions, asset, AccountRef::User(sender), AccountRef::Treasury, fees);
    transfer_funds(actions, asset, AccountRef::User(sender), AccountRef::User(receiver), seller_part);
    assert(actions@ =~= a0 + (transfer_spec(asset, AccountRef::User(sender), AccountRef::Treasury, fees)
        + transfer_spec(asset, AccountRef::User(sender), AccountRef::User(receiver), seller_part)));
    Ok(())
}

/// What completing a resale does: the buyer pays, pending income is settled
/// and the shares move from the property account to `account`. A listing with
/// shares left is stored with the remaining amount.
pub open spec fn buying_shares_spec(pre: MarketView, listing_id: ListingId, transfer_from: AccountId, account: AccountId, l: ShareListingDetails, price: Balance, amount: u32, payment_asset: u32) -> (MarketView, OutcomeView) {
    match calculate_fees_spec(pre.config, price, transfer_from, l.seller, payment_asset) {
        Err(e) => refused(pre, Seq::empty(), e),
        Ok(fees) => {
            let acts = fees + seq![
                Action::SettleIncome { who: l.seller, asset_id: l.asset_id },
                Action::SettleIncome { who: account, asset_id: l.asset_id },
                Action::TransferPropertyShares { asset_id: l.asset_id, caller: l.seller, from: AccountRef::Property(l.asset_id), to: account, amount },
            ];
            if l.amount < amount {
                refused(pre, acts, MarketError::ArithmeticUnderflow)
            } else {
                let left = (l.amount - amount) as u32;
                accepted(if left > 0 {
                    MarketView { share_listings: pre.share_listings.insert(listing_id, ShareListingDetails { amount: left, ..l }), ..pre }
                } else {
                    pre
                }, acts, seq![Event::RelistedSharesBought {
                    listing_index: listing_id,
                    asset_id: l.asset_id,
                    buyer: account,
                    seller: l.seller,
                    price: l.share_price,
                    amount,
                    payment_asset,
                    new_amount_remaining: left,
                }])
            }
        },
    }
}

/// What `relist_shares` does; `finalized_info` describes the property when it is finalized.
pub open spec fn relist_shares_spec(pre: MarketView, signer: AccountId, asset_id: u32, share_price: Balance, amount: u32, finalized_info: Option<PropertyAssetInfo>) -> (MarketView, OutcomeView) {
    if amount == 0 {
        refused(pre, Seq::empty(), MarketError::AmountCannotBeZero)
    } else if share_price == 0 {
        refused(pre, Seq::empty(), MarketError::InvalidSharePrice)
    } else {
        let acts = seq![
            Action::EnsurePropertyFinalized { asset_id },
            Action::TransferShares { asset_id, from: AccountRef::User(signer), to: AccountRef::Property(asset_id), amount },
        ];
        match finalized_info {
            None => refused(pre, acts, MarketError::NoObjectFound),
            Some(info) => match spec_next_listing_id(pre.next_listing_id) {
                Err(e) => refused(pre, acts, e),
                Ok(next) => {
                    let listing_id = pre.next_listing_id;
                    accepted(MarketView {
                        share_listings: pre.share_listings.insert(listing_id, ShareListingDetails {
                            seller: signer,
                            share_price,
                            asset_id,
                            item_id: info.item_id,
                            collection_id: info.collection_id,
                            amount,
                        }),
                        next_listing_id: next,
                        ..pre
                    }, acts, seq![Event::SharesRelisted { listing_index: listing_id, asset_id, price: share_price, share_amount: amount, seller: signer }])
                },
            },
        }
    }
}

/// What `buy_relisted_shares` does; `owned_shares` is the buyer's share balance.
pub open spec fn buy_relisted_spec(pre: MarketView, buyer: AccountId, listing_id: ListingId, amount: u32, payment_asset: u32, asset_info: Option<PropertyAssetInfo>, owned_shares: u32) -> (MarketView, OutcomeView) {
    if !pre.config.accepted_assets.spec_contains(payment_asset) {
        refused(pre, Seq::empty(), MarketError::PaymentAssetNotSupported)
    } else if amount == 0 {
        refused(pre, Seq::empty(), MarketError::AmountCannotBeZero)
    } else if !pre.share_listings.contains_key(listing_id) {
        refused(pre, Seq::empty(), MarketError::ShareNotForSale)
    } else {
        let l = pre.share_listings[listing_id];
        if l.amount < amount {
            refused(pre, Seq::empty(), MarketError::NotEnoughSharesAvailable)
        } else if restrict_ownership_spec(pre.config, asset_info, owned_shares, amount) is Err {
            refused(pre, Seq::empty(), restrict_ownership_spec(pre.config, asset_info, owned_shares, amount)->Err_0)
        } else if l.share_price * amount > u128::MAX {
            refused(pre, Seq::empty(), MarketError::MultiplyError)
        } else {
            let taken = MarketView { share_listings: pre.share_listings.remove(listing_id), ..pre };
            let (post, out) = buying_shares_spec(taken, listing_id, buyer, buyer, l, (l.share_price * amount) as u128, amount, payment_asset);
            match out.failure {
                Some(e) => refused(pre, out.actions, e),
                None => (post, out),
            }
        }
    }
}

/// What `make_offer` does.
pub open spec fn make_offer_spec(pre: MarketView, signer: AccountId, listing_id: ListingId, offer_price: Balance, amount: u32, payment_asset: u32) -> (MarketView, OutcomeView) {
    if amount == 0 {
        refused(pre, Seq::empty(), MarketError::AmountCannotBeZero)
    } else if offer_price == 0 {
        refused(pre, Seq::empty(), MarketError::InvalidSharePrice)
    } else if !pre.config.accepted_assets.spec_contains(payment_asset) {
        refused(pre, Seq::empty(), MarketError::PaymentAssetNotSupported)
    } else if pre.offers.contains_key((listing_id, signer)) {
        refused(pre, Seq::empty(), MarketError::OnlyOneOfferPerUser)
    } else if !pre.share_listings.contains_key(listing_id) {
        refused(pre, Seq::empty(), MarketError::ShareNotForSale)
    } else if pre.share_listings[listing_id].amount < amount {
        refused(pre, Seq::empty(), MarketError::NotEnoughSharesAvailable)
    } else if offer_price * amount > u128::MAX {
        refused(pre, Seq::empty(), MarketError::MultiplyError)
    } else {
        let nonce = pre.next_offer_nonce;
        let acts = seq![Action::HoldFunds { asset: payment_asset, who: signer, amount: (offer_price * amount) as u128 }];
        if nonce == u64::MAX {
            refused(pre, acts, MarketError::ArithmeticOverflow)
        } else {
            accepted(MarketView {
                next_offer_nonce: (nonce + 1) as u64,
                offers: pre.offers.insert((listing_id, signer), OfferDetails { share_price: offer_price, amount, payment_assets: payment_asset, nonce }),
                ..pre
            }, acts, seq![Event::OfferCreated { listing_id, offeror: signer, price: offer_price, amount, payment_asset }])
        }
    }
}

/// What `handle_offer` does; `offeror_shares` is the offeror's share balance.
pub open spec fn handle_offer_spec(pre: MarketView, signer: AccountId, listing_id: ListingId, offeror: AccountId, offer: Offer, offer_nonce: u64, asset_info: Option<PropertyAssetInfo>, offeror_shares: u32) -> (MarketView, OutcomeView) {
    if !pre.share_listings.contains_key(listing_id) {
        refused(pre, Seq::empty(), MarketError::ShareNotForSale)
    } else if pre.share_listings[listing_id].seller != signer {
        refused(pre, Seq::empty(), MarketError::NoPermission)
    } else if !pre.offers.contains_key((listing_id, offeror)) {
        refused(pre, Seq::empty(), MarketError::OfferNotFound)
    } else {
        let l = pre.share_listings[listing_id];
        let o = pre.offers[(listing_id, offeror)];
        if o.nonce != offer_nonce {
            refused(pre, Seq::empty(), MarketError::InvalidOfferNonce)
        } else if l.amount < o.amount {
            refused(pre, Seq::empty(), MarketError::NotEnoughSharesAvailable)
        } else if o.spec_total_amount() is None {
            refused(pre, Seq::empty(), MarketError::MultiplyError)
        } else {
            let price = o.spec_total_amount()->0;
            let acts = seq![Action::ReleaseFunds { asset: o.payment_assets, who: offeror, amount: price }];
            let taken = MarketView { offers: pre.offers.remove((listing_id, offeror)), ..pre };
            match offer {
                Offer::Reject => accepted(taken, acts, seq![Event::OfferRejected { listing_id, offeror, amount: o.amount, price }]),
                Offer::Accept => if restrict_ownership_spec(pre.config, asset_info, offeror_shares, o.amount) is Err {
                    refused(pre, acts, restrict_ownership_spec(pre.config, asset_info, offeror_shares, o.amount)->Err_0)
                } else {
                    let (post, out) = buying_shares_spec(taken, listing_id, offeror, offeror, l, price, o.amount, o.payment_assets);
                    match out.failure {
                        Some(e) => refused(pre, acts + out.actions, e),
                        None => accepted(post, acts + out.actions, out.events + seq![Event::OfferAccepted { listing_id, offeror, amount: o.amount, price }]),
                    }
                },
            }
        }
    }
}

/// What `cancel_offer` does.
pub open spec fn cancel_offer_spec(pre: MarketView, signer: AccountId, listing_id: ListingId) -> (MarketView, OutcomeView) {
    if !pre.offers.contains_key((listing_id, signer)) {
        refused(pre, Seq::empty(), MarketError::OfferNotFound)
    } else {
        let o = pre.offers[(listing_id, signer)];
        match o.spec_total_amount() {
            None => refused(pre, Seq::empty(), MarketError::MultiplyError),
            Some(price) => accepted(MarketView { offers: pre.offers.remove((listing_id, signer)), ..pre },
                seq![Action::ReleaseFunds { asset: o.payment_assets, who: signer, amount: price }],
                seq![Event::OfferCancelled { listing_id, account_id: signer }]),
        }
    }
}

/// What `delist_shares` does.
pub open spec fn delist_shares_spec(pre: MarketView, signer: AccountId, listing_id: ListingId) -> (MarketView, OutcomeView) {
    if !pre.share_listings.contains_key(listing_id) {
        refused(pre, Seq::empty(), MarketError::ShareNotForSale)
    } else {
        let l = pre.share_listings[listing_id];
        if l.seller != signer {
            refused(pre, Seq::empty(), MarketError::NoPermission)
        } else {
            accepted(MarketView { share_listings: pre.share_listings.remove(listing_id), ..pre },
                seq![Action::TransferShares { asset_id: l.asset_id, from: AccountRef::Property(l.asset_id), to: AccountRef::User(signer), amount: l.amount }],
                seq![Event::ListingDelisted { listing_index: listing_id }])
        }
    }
}

/// The confirmation a transfer of the property `asset_id`'s shares reports:
/// the sender approves it, for the property's holders.
pub open spec fn sent_confirmation(sender: AccountId, asset_id: u32) -> Event {
    Event::DocumentsConfirmed { signer: sender, listing_id: asset_id, legal_side: LegalProperty::SpvSide, approve: true }
}

/// What `send_property_shares` does; `receiver_shares` is the receiver's share balance.
pub open spec fn send_property_shares_spec(pre: MarketView, sender: AccountId, asset_id: u32, receiver: AccountId, share_amount: u32, receiver_compliant: bool, asset_info: Option<PropertyAssetInfo>, receiver_shares: u32) -> (MarketView, OutcomeView) {
    if !receiver_compliant {
        refused(pre, Seq::empty(), MarketError::UserNotCompliant)
    } else if restrict_ownership_spec(pre.config, asset_info, receiver_shares, share_amount) is Err {
        refused(pre, Seq::empty(), restrict_ownership_spec(pre.config, asset_info, receiver_shares, share_amount)->Err_0)
    } else {
        accepted(pre, seq![
            Action::SettleIncome { who: sender, asset_id },
            Action::SettleIncome { who: receiver, asset_id },
            Action::TransferPropertyShares { asset_id, caller: sender, from: AccountRef::User(sender), to: receiver, amount: share_amount },
        ], seq![Event::PropertySharesSent { asset_id, sender, receiver, amount: share_amount }, sent_confirmation(sender, asset_id)])
    }
}

impl Marketplace {
    /// Completes a resale from the listing `l`.
    fn buying_shares_process(&mut self, listing_id: ListingId, transfer_from: AccountId, account: AccountId, l: ShareListingDetails, price: Balance, amount: u32, payment_asset: u32) -> (out: Outcome)
        ensures
            final(self)@ == buying_shares_spec(old(self)@, listing_id, transfer_from, account, l, price, amount, payment_asset).0,
            out@ == buying_shares_spec(old(self)@, listing_id, transfer_from, account, l, price, amount, payment_asset).1,
    {
        let mut actions: Vec<Action> = Vec::new();
        if let Err(e) = calculate_fees(&self.config, price, transfer_from, l.seller, payment_asset, &mut actions) {
            return refusal(e);
        }
        let ghost fees = actions@;
        actions.push(Action::SettleIncome { who: l.seller, asset_id: l.asset_id });
        actions.push(Action::SettleIncome { who: account, asset_id: l.asset_id });
        actions.push(Action::TransferPropertyShares { asset_id: l.asset_id, caller: l.seller, from: AccountRef::Property(l.asset_id), to: account, amount });
        assert(actions@ =~= fees + seq![
            Action::SettleIncome { who: l.seller, asset_id: l.asset_id },
            Action::SettleIncome { who: account, asset_id: l.asset_id },
            Action::TransferPropertyShares { asset_id: l.asset_id, caller: l.seller, from: AccountRef::Property(l.asset_id), to: account, amount },
        ]);
        let left = match l.amount.checked_sub(amount) {
            Some(x) => x,
            None => return refusal_after(actions, MarketError::ArithmeticUnderflow),
        };
        if left > 0 {
            let mut l2 = l;
            l2.amount = left;
            self.share_listings.insert(listing_id, l2);
        }
        success(actions, single(Event::RelistedSharesBought {
            listing_index: listing_id,
            asset_id: l.asset_id,
            buyer: account,
            seller: l.seller,
            price: l.share_price,
            amount,
            payment_asset,
            new_amount_remaining: left,
        }))
    }

    /// Offers `amount` of a finalized property's shares for resale at
    /// `share_price`; the shares wait in the property account meanwhile.
    pub fn relist_shares(&mut self, signer: AccountId, asset_id: u32, share_price: Balance, amount: u32, finalized_info: Option<PropertyAssetInfo>) -> (out: Outcome)
        ensures
            final(self)@ == relist_shares_spec(old(self)@, signer, asset_id, share_price, amount, finalized_info).0,
            out@ == relist_shares_spec(old(self)@, signer, asset_id, share_price, amount, finalized_info).1,
    {
        if amount == 0 {
            return refusal(MarketError::AmountCannotBeZero);
        }
        if share_price == 0 {
            return refusal(MarketError::InvalidSharePrice);
        }
        let mut actions: Vec<Action> = Vec::new();
        actions.push(Action::EnsurePropertyFinalized { asset_id });
        actions.push(Action::TransferShares { asset_id, from: AccountRef::User(signer), to: AccountRef::Property(asset_id), amount });
        assert(actions@ =~= seq![
            Action::EnsurePropertyFinalized { asset_id },
            Action::TransferShares { asset_id, from: AccountRef::User(signer), to: AccountRef::Property(asset_id), amount },
        ]);
        let info = match finalized_info {
            Some(i) => i,
            None => return refusal_after(actions, MarketError::NoObjectFound),
        };
        let listing_id = self.next_listing_id;
        let next = match next_listing_id(listing_id) {
            Ok(n) => n,
            Err(e) => return refusal_after(actions, e),
        };
        self.share_listings.insert(listing_id, ShareListingDetails {
            seller: signer,
            share_price,
            asset_id,
            item_id: info.item_id,
            collection_id: info.collection_id,
            amount,
        });
        self.next_listing_id = next;
        success(actions, single(Event::SharesRelisted { listing_index: listing_id, asset_id, price: share_price, share_amount: amount, seller: signer }))
    }

    /// Buys `amount` relisted shares at the listed price, paying the seller and
    /// the marketplace fee in an accepted asset.
    pub fn buy_relisted_shares(&mut self, buyer: AccountId, listing_id: ListingId, amount: u32, payment_asset: u32, asset_info: Option<PropertyAssetInfo>, owned_shares: u32) -> (out: Outcome)
        ensures
            final(self)@ == buy_relisted_spec(old(self)@, buyer, listing_id, amount, payment_asset, asset_info, owned_shares).0,
            out@ == buy_relisted_spec(old(self)@, buyer, listing_id, amount, payment_asset, asset_info, owned_shares).1,
    {
        if !self.config.accepted_assets.contains(payment_asset) {
            return refusal(MarketError::PaymentAssetNotSupported);
        }
        if amount == 0 {
            return refusal(MarketError::AmountCannotBeZero);
        }
        let l = match self.share_listings.get(&listing_id) {
            Some(l) => *l,
            None => return refusal(MarketError::ShareNotForSale),
        };
        if l.amount < amount {
            return refusal(MarketError::NotEnoughSharesAvailable);
        }
        if let Err(e) = restrict_ownership(&self.config, asset_info, owned_shares, amount) {
            return refusal(e);
        }
        let price = match l.share_price.checked_mul(amount as u128) {
            Some(p) => p,
            None => return refusal(MarketError::MultiplyError),
        };
        let removed = self.share_listings.remove(&listing_id);
        let out = self.buying_shares_process(listing_id, buyer, buyer, l, price, amount, payment_asset);
        if out.failure.is_some() {
            self.share_listings.insert(listing_id, l);
            proof {
                assert(self.share_listings@ =~= old(self)@.share_listings);
            }
        }
        out
    }

    /// Offers `offer_price` per share for `amount` shares of a resale listing;
    /// the offered total is held until the offer is handled or cancelled.
    pub fn make_offer(&mut self, signer: AccountId, listing_id: ListingId, offer_price: Balance, amount: u32, payment_asset: u32) -> (out: Outcome)
        ensures
            final(self)@ == make_offer_spec(old(self)@, signer, listing_id, offer_price, amount, payment_asset).0,
            out@ == make_offer_spec(old(self)@, signer, listing_id, offer_price, amount, payment_asset).1,
    {
        if amount == 0 {
            return refusal(MarketError::AmountCannotBeZero);
        }
        if offer_price == 0 {
            return refusal(MarketError::InvalidSharePrice);
        }
        if !self.config.accepted_assets.contains(payment_asset) {
            return refusal(MarketError::PaymentAssetNotSupported);
        }
        if self.offers.contains_key(&(listing_id, signer)) {
            return refusal(MarketError::OnlyOneOfferPerUser);
        }
        let available = match self.share_listings.get(&listing_id) {
            Some(l) => l.amount,
            None => return refusal(MarketError::ShareNotForSale),
        };
        if available < amount {
            return refusal(MarketError::NotEnoughSharesAvailable);
        }
        let nonce = self.next_offer_nonce;
        let price = match offer_price.checked_mul(amount as u128) {
            Some(p) => p,
            None => return refusal(MarketError::MultiplyError),
        };
        let actions = single(Action::HoldFunds { asset: payment_asset, who: signer, amount: price });
        let next = match nonce.checked_add(1) {
            Some(n) => n,
            None => return refusal_after(actions, MarketError::ArithmeticOverflow),
        };
        self.next_offer_nonce = next;
        self.offers.insert((listing_id, signer), OfferDetails { share_price: offer_price, amount, payment_assets: payment_asset, nonce });
        success(actions, single(Event::OfferCreated { listing_id, offeror: signer, price: offer_price, amount, payment_asset }))
    }

    /// The seller accepts or rejects an offer on their listing. The offered
    /// total is released either way; on acceptance the resale is completed at
    /// the offered price.
    pub fn handle_offer(&mut self, signer: AccountId, listing_id: ListingId, offeror: AccountId, offer: Offer, offer_nonce: u64, asset_info: Option<PropertyAssetInfo>, offeror_shares: u32) -> (out: Outcome)
        ensures
            final(self)@ == handle_offer_spec(old(self)@, signer, listing_id, offeror, offer, offer_nonce, asset_info, offeror_shares).0,
            out@ == handle_offer_spec(old(self)@, signer, listing_id, offeror, offer, offer_nonce, asset_info, offeror_shares).1,
    {
        let l = match self.share_listings.get(&listing_id) {
            Some(l) => *l,
            None => return refusal(MarketError::ShareNotForSale),
        };
        if l.seller != signer {
            return refusal(MarketError::NoPermission);
        }
        let o = match self.offers.get(&(listing_id, offeror)) {
            Some(o) => *o,
            None => return refusal(MarketError::OfferNotFound),
        };
        if o.nonce != offer_nonce {
            return refusal(MarketError::InvalidOfferNonce);
        }
        if l.amount < o.amount {
            return refusal(MarketError::NotEnoughSharesAvailable);
        }
        let price = match o.get_total_amount() {
            Ok(p) => p,
            Err(e) => return refusal(e),
        };
        let mut actions = single(Action::ReleaseFunds { asset: o.payment_assets, who: offeror, amount: price });
        match offer {
            Offer::Reject => {
                self.offers.remove(&(listing_id, offeror));
                success(actions, single(Event::OfferRejected { listing_id, offeror, amount: o.amount, price }))
            },
            Offer::Accept => {
                if let Err(e) = restrict_ownership(&self.config, asset_info, offeror_shares, o.amount) {
                    return refusal_after(actions, e);
                }
                self.offers.remove(&(listing_id, offeror));
                let out = self.buying_shares_process(listing_id, offeror, offeror, l, price, o.amount, o.payment_assets);
                let mut rest = out.actions;
                actions.append(&mut rest);
                if out.failure.is_some() {
                    self.offers.insert((listing_id, offeror), o);
                    proof {
                        assert(self.offers@ =~= old(self)@.offers);
                    }
                    return Outcome { actions, events: Vec::new(), failure: out.failure };
                }
                let mut events = out.events;
                let ghost ev0 = events@;
                events.push(Event::OfferAccepted { listing_id, offeror, amount: o.amount, price });
                assert(events@ =~= ev0 + seq![Event::OfferAccepted { listing_id, offeror, amount: o.amount, price }]);
                success(actions, events)
            },
        }
    }

    /// Withdraws the signer's offer on a listing and releases the offered total.
    pub fn cancel_offer(&mut self, signer: AccountId, listing_id: ListingId) -> (out: Outcome)
        ensures
            final(self)@ == cancel_offer_spec(old(self)@, signer, listing_id).0,
            out@ == cancel_offer_spec(old(self)@, signer, listing_id).1,
    {
        let o = match self.offers.get(&(listing_id, signer)) {
            Some(o) => *o,
            None => return refusal(MarketError::OfferNotFound),
        };
        let price = match o.get_total_amount() {
            Ok(p) => p,
            Err(e) => return refusal(e),
        };
        self.offers.remove(&(listing_id, signer));
        success(single(Action::ReleaseFunds { asset: o.payment_assets, who: signer, amount: price }), single(Event::OfferCancelled { listing_id, account_id: signer }))
    }

    /// Withdraws the signer's resale listing; the shares return to them.
    pub fn delist_shares(&mut self, signer: AccountId, listing_id: ListingId) -> (out: Outcome)
        ensures
            final(self)@ == delist_shares_spec(old(self)@, signer, listing_id).0,
            out@ == delist_shares_spec(old(self)@, signer, listing_id).1,
    {
        let l = match self.share_listings.get(&listing_id) {
            Some(l) => *l,
            None => return refusal(MarketError::ShareNotForSale),
        };
        if l.seller != signer {
            return refusal(MarketError::NoPermission);
        }
        self.share_listings.remove(&listing_id);
        success(single(Action::TransferShares { asset_id: l.asset_id, from: AccountRef::Property(l.asset_id), to: AccountRef::User(signer), amount: l.amount }), single(Event::ListingDelisted { listing_index: listing_id }))
    }

    /// Sends property shares to a compliant investor, who must stay below the
    /// maximum ownership share; pending income of both is settled first. The
    /// call reports `PropertySharesSent`, then `DocumentsConfirmed`: the sender's
    /// approval of the transfer, under the property's asset id, for the holders' side.
    pub fn send_property_shares(&self, sender: AccountId, asset_id: u32, receiver: AccountId, share_amount: u32, receiver_compliant: bool, asset_info: Option<PropertyAssetInfo>, receiver_shares: u32) -> (out: Outcome)
        ensures
            out@ == send_property_shares_spec(self@, sender, asset_id, receiver, share_amount, receiver_compliant, asset_info, receiver_shares).1,
            send_property_shares_spec(self@, sender, asset_id, receiver, share_amount, receiver_compliant, asset_info, receiver_shares).0 == self@,
    {
        if !receiver_compliant {
            return refusal(MarketError::UserNotCompliant);
        }
        if let Err(e) = restrict_ownership(&self.config, asset_info, receiver_shares, share_amount) {
            return refusal(e);
        }
        let mut actions: Vec<Action> = Vec::new();
        actions.push(Action::SettleIncome { who: sender, asset_id });
        actions.push(Action::SettleIncome { who: receiver, asset_id });
        actions.push(Action::TransferPropertyShares { asset_id, caller: sender, from: AccountRef::User(sender), to: receiver, amount: share_amount });
        assert(actions@ =~= seq![
            Action::SettleIncome { who: sender, asset_id },
            Action::SettleIncome { who: receiver, asset_id },
            Action::TransferPropertyShares { asset_id, caller: sender, from: AccountRef::User(sender), to: receiver, amount: share_amount },
        ]);
        let mut events = single(Event::PropertySharesSent { asset_id, sender, receiver, amount: share_amount });
        events.push(Event::DocumentsConfirmed { signer: sender, listing_id: asset_id, legal_side: LegalProperty::SpvSide, approve: true });
        assert(events@ =~= seq![Event::PropertySharesSent { asset_id, sender, receiver, amount: share_amount }, sent_confirmation(sender, asset_id)]);
        success(actions, events)
    }
}

} // verus!
