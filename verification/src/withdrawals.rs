//! Refunds to share holders after a sale failed: rejected by the lawyers, the
//! legal process expired, or the sale cancelled for unclaimed shares.
use vstd::prelude::*;
use crate::common::{ascending, ascending_assets, transfer_funds, transfer_spec};
use crate::primary::closing_actions;
use crate::state::{
    accepted, lemma_listings_view_remove, refusal, refusal_after, refused, single, success,
    MarketView, Marketplace,
};
use crate::types::{
    AccountId, AccountRef, Action, BlockNumber, Event, ListingId, ListingView, MarketConfig,
    MarketError, Outcome, OutcomeView, PropertyLawyerDetails, PropertyListingDetails, RefundInfos,
};

verus! {

broadcast use vstd::std_specs::btree::group_btree_axioms;

/// Actions asked, or the actions asked so far and the error that stopped.
pub type Asked = Result<Seq<Action>, (Seq<Action>, MarketError)>;

/// `r` with `p` put before the actions it records.
pub open spec fn after(p: Seq<Action>, r: Asked) -> Asked {
    match r {
        Ok(a) => Ok(p + a),
        Err((a, e)) => Err((p + a, e)),
    }
}

/// `r` followed by `s`, unless `r` stopped.
pub open spec fn then(r: Asked, s: Asked) -> Asked {
    match r {
        Err(x) => Err(x),
        Ok(a) => after(a, s),
    }
}

/// The refund of what the investor paid in `asset` (and, with `include_fees`,
/// the fees they paid in it) from the property account.
pub open spec fn investor_refund(cfg: MarketConfig, l: ListingView, signer: AccountId, asset: u32, include_fees: bool) -> Asked {
    let acc = cfg.accepted_assets;
    if !l.investor_funds.contains_key(signer) {
        Ok(Seq::empty())
    } else {
        let f = l.investor_funds[signer];
        match f.paid_funds.spec_get(acc, asset) {
            None => Ok(Seq::empty()),
            Some(paid) => {
                let fee = match f.paid_fee.spec_get(acc, asset) {
                    Some(x) => x,
                    None => 0,
                };
                if include_fees && paid + fee > u128::MAX {
                    Err((Seq::empty(), MarketError::ArithmeticOverflow))
                } else {
                    let amount = (if include_fees { paid + fee } else { paid as int }) as u128;
                    Ok(transfer_spec(asset, AccountRef::Property(l.asset_id), AccountRef::User(signer), amount))
                }
            },
        }
    }
}

/// The refunds in the accepted assets in configuration order.
pub open spec fn investor_refunds_in_order(cfg: MarketConfig, l: ListingView, signer: AccountId, include_fees: bool) -> Asked {
    then(investor_refund(cfg, l, signer, cfg.accepted_assets.first, include_fees), investor_refund(cfg, l, signer, cfg.accepted_assets.second, include_fees))
}

/// The refunds in the assets the investor paid in, in ascending asset order.
pub open spec fn investor_refunds_ascending(cfg: MarketConfig, l: ListingView, signer: AccountId) -> Asked {
    let (lo, hi) = ascending(cfg.accepted_assets);
    if hi == lo {
        investor_refund(cfg, l, signer, lo, true)
    } else {
        then(investor_refund(cfg, l, signer, lo, true), investor_refund(cfg, l, signer, hi, true))
    }
}

/// The payment of the lawyer's costs and the treasury's part of the fees in `asset`.
pub open spec fn fee_payout(cfg: MarketConfig, l: ListingView, d: PropertyLawyerDetails, spv_lawyer: AccountId, asset: u32) -> Asked {
    let acc = cfg.accepted_assets;
    match (l.collected_fees.spec_get(acc, asset), d.spv_lawyer_costs.spec_get(acc, asset)) {
        (Some(fees), Some(costs)) => if fees < costs {
            Err((Seq::empty(), MarketError::ArithmeticUnderflow))
        } else {
            let from = AccountRef::Property(l.asset_id);
            Ok(transfer_spec(asset, from, AccountRef::Treasury, (fees - costs) as u128)
                + transfer_spec(asset, from, AccountRef::User(spv_lawyer), costs))
        },
        _ => Err((Seq::empty(), MarketError::AssetNotSupported)),
    }
}

/// What distributing the fees of a rejected sale asks: the SPV lawyer is paid
/// their costs and the treasury the rest, then the share owners are forgotten.
pub open spec fn refund_with_fees(cfg: MarketConfig, l: ListingView, d: PropertyLawyerDetails) -> Asked {
    match d.spv_lawyer {
        None => Err((Seq::empty(), MarketError::LawyerNotFound)),
        Some(spv) => then(then(fee_payout(cfg, l, d, spv, cfg.accepted_assets.first), fee_payout(cfg, l, d, spv, cfg.accepted_assets.second)),
            Ok(seq![Action::ClearShareOwners { asset_id: l.asset_id }])),
    }
}

/// What `withdraw_rejected` does; `share_balance` is the signer's share balance.
pub open spec fn withdraw_rejected_spec(pre: MarketView, signer: AccountId, listing_id: ListingId, share_balance: u32) -> (MarketView, OutcomeView) {
    let cfg = pre.config;
    if !pre.refund_shares.contains_key(listing_id) {
        refused(pre, Seq::empty(), MarketError::SharesNotRefunded)
    } else if !pre.listings.contains_key(listing_id) {
        refused(pre, Seq::empty(), MarketError::ListingNotFound)
    } else if share_balance == 0 {
        refused(pre, Seq::empty(), MarketError::NoSharesOwned)
    } else {
        let r = pre.refund_shares[listing_id];
        let l = pre.listings[listing_id];
        if r.refund_amount < share_balance {
            refused(pre, Seq::empty(), MarketError::InsufficientRefundableShares)
        } else {
            let remaining = (r.refund_amount - share_balance) as u32;
            let ghost returned = seq![Action::TransferShares { asset_id: l.asset_id, from: AccountRef::User(signer), to: AccountRef::Property(l.asset_id), amount: share_balance }];
            let last = seq![Action::RemoveShareOwnership { asset_id: l.asset_id, who: signer }];
            let ev = seq![Event::RejectedFundsWithdrawn { signer, listing_id }];
            let refunds = investor_refunds_in_order(cfg, l, signer, false)->Ok_0 + returned;
            if remaining != 0 {
                accepted(MarketView {
                    refund_shares: pre.refund_shares.insert(listing_id, RefundInfos { refund_amount: remaining, ..r }),
                    ..pre
                }, refunds + last, ev)
            } else {
                match after(refunds + seq![Action::BurnPropertyShares { asset_id: l.asset_id }], refund_with_fees(cfg, l, r.property_lawyer_details)) {
                    Err((a, e)) => refused(pre, a, e),
                    Ok(a) => if !pre.listing_deposits.contains_key(listing_id) {
                        refused(pre, a, MarketError::ListingNotFound)
                    } else {
                        accepted(MarketView {
                            listings: pre.listings.remove(listing_id),
                            refund_shares: pre.refund_shares.remove(listing_id),
                            listing_deposits: pre.listing_deposits.remove(listing_id),
                            ..pre
                        }, a + closing_actions(l.asset_id, pre.listing_deposits[listing_id], l.real_estate_developer) + last, ev)
                    },
                }
            }
        }
    }
}

/// The storage, actions and refundable share count once the legal process
/// expired; the first withdrawal closes the legal process.
pub open spec fn expired_refund_start(pre: MarketView, listing_id: ListingId, now: BlockNumber) -> Result<(MarketView, Seq<Action>, u32), MarketError> {
    if pre.refund_legal_expired.contains_key(listing_id) {
        Ok((pre, Seq::empty(), pre.refund_legal_expired[listing_id]))
    } else if !pre.property_lawyers.contains_key(listing_id) {
        Err(MarketError::SharesNotRefunded)
    } else {
        let d = pre.property_lawyers[listing_id];
        let share_amount = pre.listings[listing_id].share_amount;
        if !(d.legal_process_expiry < now) {
            Err(MarketError::LegalProcessOngoing)
        } else {
            let dev = match d.real_estate_developer_lawyer {
                Some(x) => seq![Action::DecrementActiveCases { lawyer: x }],
                None => Seq::empty(),
            };
            let spv = match d.spv_lawyer {
                Some(x) => seq![Action::DecrementActiveCases { lawyer: x }],
                None => Seq::empty(),
            };
            Ok((MarketView {
                property_lawyers: pre.property_lawyers.remove(listing_id),
                refund_legal_expired: pre.refund_legal_expired.insert(listing_id, share_amount),
                ..pre
            }, dev + spv, share_amount))
        }
    }
}

/// What `withdraw_legal_process_expired` does; `share_balance` is the signer's share balance.
pub open spec fn withdraw_legal_expired_spec(pre: MarketView, signer: AccountId, listing_id: ListingId, share_balance: u32, now: BlockNumber) -> (MarketView, OutcomeView) {
    let cfg = pre.config;
    if !pre.listings.contains_key(listing_id) {
        refused(pre, Seq::empty(), MarketError::ListingNotFound)
    } else if share_balance == 0 {
        refused(pre, Seq::empty(), MarketError::NoSharesOwned)
    } else {
        let l = pre.listings[listing_id];
        match expired_refund_start(pre, listing_id, now) {
            Err(e) => refused(pre, Seq::empty(), e),
            Ok((mid, acts, refundable)) => if refundable < share_balance {
                refused(pre, acts, MarketError::InsufficientRefundableShares)
            } else {
                let remaining = (refundable - share_balance) as u32;
                let ghost returned = seq![Action::TransferShares { asset_id: l.asset_id, from: AccountRef::User(signer), to: AccountRef::Property(l.asset_id), amount: share_balance }];
                let last = seq![Action::RemoveShareOwnership { asset_id: l.asset_id, who: signer }];
                let ev = seq![Event::ExpiredFundsWithdrawn { signer, listing_id }];
                match after(acts, investor_refunds_in_order(cfg, l, signer, true)) {
                    Err((a, e)) => refused(pre, a, e),
                    Ok(a) => if remaining != 0 {
                        accepted(MarketView {
                            refund_legal_expired: mid.refund_legal_expired.insert(listing_id, remaining),
                            ..mid
                        }, a + returned + last, ev)
                    } else {
                        let a2 = a + returned + seq![
                            Action::BurnPropertyShares { asset_id: l.asset_id },
                            Action::ClearShareOwners { asset_id: l.asset_id },
                        ];
                        if !mid.listing_deposits.contains_key(listing_id) {
                            refused(pre, a2, MarketError::ListingNotFound)
                        } else {
                            accepted(MarketView {
                                listings: mid.listings.remove(listing_id),
                                refund_legal_expired: mid.refund_legal_expired.remove(listing_id),
                                listing_deposits: mid.listing_deposits.remove(listing_id),
                                ..mid
                            }, a2 + closing_actions(l.asset_id, mid.listing_deposits[listing_id], l.real_estate_developer) + last, ev)
                        }
                    },
                }
            },
        }
    }
}

/// What `withdraw_claiming_expired` does; `share_balance` is the signer's share balance.
pub open spec fn withdraw_claiming_expired_spec(pre: MarketView, signer: AccountId, listing_id: ListingId, share_balance: u32) -> (MarketView, OutcomeView) {
    let cfg = pre.config;
    if !pre.refund_claimed.contains_key(listing_id) {
        refused(pre, Seq::empty(), MarketError::SharesNotRefunded)
    } else if !pre.listings.contains_key(listing_id) {
        refused(pre, Seq::empty(), MarketError::ListingNotFound)
    } else if share_balance == 0 {
        refused(pre, Seq::empty(), MarketError::NoSharesOwned)
    } else {
        let refundable = pre.refund_claimed[listing_id];
        let l = pre.listings[listing_id];
        if refundable < share_balance {
            refused(pre, Seq::empty(), MarketError::InsufficientRefundableShares)
        } else {
            let remaining = (refundable - share_balance) as u32;
            let ghost returned = seq![Action::TransferShares { asset_id: l.asset_id, from: AccountRef::User(signer), to: AccountRef::Property(l.asset_id), amount: share_balance }];
            let last = seq![Action::RemoveShareOwnership { asset_id: l.asset_id, who: signer }];
            let ev = seq![Event::RejectedFundsWithdrawn { signer, listing_id }];
            match investor_refunds_ascending(cfg, l, signer) {
                Err((a, e)) => refused(pre, a, e),
                Ok(a) => if remaining != 0 {
                    accepted(MarketView {
                        refund_claimed: pre.refund_claimed.insert(listing_id, remaining),
                        ..pre
                    }, a + returned + last, ev)
                } else {
                    let a2 = a + returned + seq![
                        Action::BurnPropertyShares { asset_id: l.asset_id },
                        Action::ClearShareOwners { asset_id: l.asset_id },
                    ];
                    if !pre.listing_deposits.contains_key(listing_id) {
                        refused(pre, a2, MarketError::ListingNotFound)
                    } else {
                        accepted(MarketView {
                            listings: pre.listings.remove(listing_id),
                            refund_claimed: pre.refund_claimed.remove(listing_id),
                            listing_deposits: pre.listing_deposits.remove(listing_id),
                            ..pre
                        }, a2 + closing_actions(l.asset_id, pre.listing_deposits[listing_id], l.real_estate_developer) + last, ev)
                    }
                },
            }
        }
    }
}

/// Asks for the refund of what the investor paid in `asset`.
fn refund_investor_asset(cfg: &MarketConfig, l: &PropertyListingDetails, signer: AccountId, asset: u32, include_fees: bool, actions: &mut Vec<Action>) -> (r: Result<(), MarketError>)
    ensures
        match investor_refund(*cfg, l@, signer, asset, include_fees) {
            Ok(a) => r is Ok && final(actions)@ == old(actions)@ + a,
            Err((a, e)) => r == Err::<(), MarketError>(e) && final(actions)@ == old(actions)@ + a,
        },
{
    let ghost a0 = actions@;
    let acc = &cfg.accepted_assets;
    let f = match l.investor_funds.get(&signer) {
        Some(f) => *f,
        None => {
            assert(actions@ =~= a0 + Seq::<Action>::empty());
            return Ok(());
        },
    };
    let paid = match f.paid_funds.get(acc, asset) {
        Some(p) => p,
        None => {
            assert(actions@ =~= a0 + Seq::<Action>::empty());
            return Ok(());
        },
    };
    let fee = match f.paid_fee.get(acc, asset) {
        Some(x) => x,
        None => 0,
    };
    let amount = if include_fees {
        match paid.checked_add(fee) {
            Some(x) => x,
            None => {
                assert(actions@ =~= a0 + Seq::<Action>::empty());
                return Err(MarketError::ArithmeticOverflow);
            },
        }
    } else {
        paid
    };
    transfer_funds(actions, asset, AccountRef::Property(l.asset_id), AccountRef::User(signer), amount);
    Ok(())
}

proof fn lemma_then_assoc(p: Seq<Action>, r: Asked, s: Asked)
    ensures
        after(p, then(r, s)) == then(after(p, r), s),
{
    match r {
        Ok(a) => match s {
            Ok(b) => {
                assert(p + (a + b) =~= (p + a) + b);
            },
            Err((b, e)) => {
                assert(p + (a + b) =~= (p + a) + b);
            },
        },
        Err((a, e)) => {},
    }
}

/// Asks for the refunds in the accepted assets in configuration order.
fn refund_investor_in_order(cfg: &MarketConfig, l: &PropertyListingDetails, signer: AccountId, include_fees: bool, actions: &mut Vec<Action>) -> (r: Result<(), MarketError>)
    ensures
        match after(old(actions)@, investor_refunds_in_order(*cfg, l@, signer, include_fees)) {
            Ok(a) => r is Ok && final(actions)@ == a,
            Err((a, e)) => r == Err::<(), MarketError>(e) && final(actions)@ == a,
        },
{
    let ghost p = actions@;
    proof {
        lemma_then_assoc(p, investor_refund(*cfg, l@, signer, cfg.accepted_assets.first, include_fees), investor_refund(*cfg, l@, signer, cfg.accepted_assets.second, include_fees));
    }
    refund_investor_asset(cfg, l, signer, cfg.accepted_assets.first, include_fees, actions)?;
    refund_investor_asset(cfg, l, signer, cfg.accepted_assets.second, include_fees, actions)
}

/// Asks for the refunds in the assets the investor paid in, in ascending asset order.
fn refund_investor_ascending(cfg: &MarketConfig, l: &PropertyListingDetails, signer: AccountId, actions: &mut Vec<Action>) -> (r: Result<(), MarketError>)
    ensures
        match after(old(actions)@, investor_refunds_ascending(*cfg, l@, signer)) {
            Ok(a) => r is Ok && final(actions)@ == a,
            Err((a, e)) => r == Err::<(), MarketError>(e) && final(actions)@ == a,
        },
{
    let ghost p = actions@;
    let (lo, hi) = ascending_assets(&cfg.accepted_assets);
    if hi == lo {
        refund_investor_asset(cfg, l, signer, lo, true, actions)
    } else {
        proof {
            lemma_then_assoc(p, investor_refund(*cfg, l@, signer, lo, true), investor_refund(*cfg, l@, signer, hi, true));
        }
        refund_investor_asset(cfg, l, signer, lo, true, actions)?;
        refund_investor_asset(cfg, l, signer, hi, true, actions)
    }
}

/// Asks for the payment of the lawyer's costs and the treasury's part of the fees in `asset`.
fn pay_fees_in(cfg: &MarketConfig, l: &PropertyListingDetails, d: &PropertyLawyerDetails, spv_lawyer: AccountId, asset: u32, actions: &mut Vec<Action>) -> (r: Result<(), MarketError>)
    ensures
        match fee_payout(*cfg, l@, *d, spv_lawyer, asset) {
            Ok(a) => r is Ok && final(actions)@ == old(actions)@ + a,
            Err((a, e)) => r == Err::<(), MarketError>(e) && final(actions)@ == old(actions)@ + a,
        },
{
    let ghost a0 = actions@;
    let acc = &cfg.accepted_assets;
    match (l.collected_fees.get(acc, asset), d.spv_lawyer_costs.get(acc, asset)) {
        (Some(fees), Some(costs)) => {
            if fees < costs {
                assert(actions@ =~= a0 + Seq::<Action>::empty());
                return Err(MarketError::ArithmeticUnderflow);
            }
            let from = AccountRef::Property(l.asset_id);
            transfer_funds(actions, asset, from, AccountRef::Treasury, fees - costs);
            transfer_funds(actions, asset, from, AccountRef::User(spv_lawyer), costs);
            assert(actions@ =~= a0 + (transfer_spec(asset, from, AccountRef::Treasury, (fees - costs) as u128)
                + transfer_spec(asset, from, AccountRef::User(spv_lawyer), costs)));
            Ok(())
        },
        _ => {
            assert(actions@ =~= a0 + Seq::<Action>::empty());
            Err(MarketError::AssetNotSupported)
        },
    }
}

/// Distributes the fees of a rejected sale: the SPV lawyer's costs and the
/// treasury's part, then forgets the share owners.
fn refund_investors_with_fees(cfg: &MarketConfig, l: &PropertyListingDetails, d: &PropertyLawyerDetails, actions: &mut Vec<Action>) -> (r: Result<(), MarketError>)
    ensures
        match after(old(actions)@, refund_with_fees(*cfg, l@, *d)) {
            Ok(a) => r is Ok && final(actions)@ == a,
            Err((a, e)) => r == Err::<(), MarketError>(e) && final(actions)@ == a,
        },
{
    let ghost p = actions@;
    let spv = match d.spv_lawyer {
        Some(s) => s,
        None => {
            assert(p + Seq::<Action>::empty() =~= p);
            return Err(MarketError::LawyerNotFound);
        },
    };
    let ghost r1 = fee_payout(*cfg, l@, *d, spv, cfg.accepted_assets.first);
    let ghost r2 = fee_payout(*cfg, l@, *d, spv, cfg.accepted_assets.second);
    let ghost clear = Ok(seq![Action::ClearShareOwners { asset_id: l.asset_id }]);
    proof {
        lemma_then_assoc(p, then(r1, r2), clear);
        lemma_then_assoc(p, r1, r2);
    }
    pay_fees_in(cfg, l, d, spv, cfg.accepted_assets.first, actions)?;
    pay_fees_in(cfg, l, d, spv, cfg.accepted_assets.second, actions)?;
    let ghost a12 = actions@;
    actions.push(Action::ClearShareOwners { asset_id: l.asset_id });
    assert(actions@ =~= a12 + seq![Action::ClearShareOwners { asset_id: l.asset_id }]);
    Ok(())
}

impl Marketplace {
    /// How many shares are refundable after the legal process expired, and
    /// whether this withdrawal closes the legal process (asking for the
    /// lawyers' cases to close).
    fn begin_expired_refund(&self, listing_id: ListingId, now: BlockNumber, share_amount: u32, actions: &mut Vec<Action>) -> (r: Result<(u32, bool), MarketError>)
        requires
            old(actions)@ == Seq::<Action>::empty(),
            self@.listings.contains_key(listing_id),
            share_amount == self@.listings[listing_id].share_amount,
        ensures
            match expired_refund_start(self@, listing_id, now) {
                Ok((mid, acts, refundable)) => r == Ok::<(u32, bool), MarketError>((refundable, !self@.refund_legal_expired.contains_key(listing_id)))
                    && final(actions)@ == acts,
                Err(e) => r == Err::<(u32, bool), MarketError>(e),
            },
    {
        match self.refund_legal_expired.get(&listing_id) {
            Some(x) => Ok((*x, false)),
            None => {
                let d = match self.property_lawyers.get(&listing_id) {
                    Some(d) => *d,
                    None => return Err(MarketError::SharesNotRefunded),
                };
                if !(d.legal_process_expiry < now) {
                    return Err(MarketError::LegalProcessOngoing);
                }
                if let Some(x) = d.real_estate_developer_lawyer {
                    actions.push(Action::DecrementActiveCases { lawyer: x });
                }
                let ghost dev = actions@;
                if let Some(x) = d.spv_lawyer {
                    actions.push(Action::DecrementActiveCases { lawyer: x });
                }
                proof {
                    let spv = match d.spv_lawyer {
                        Some(x) => seq![Action::DecrementActiveCases { lawyer: x }],
                        None => Seq::<Action>::empty(),
                    };
                    let devs = match d.real_estate_developer_lawyer {
                        Some(x) => seq![Action::DecrementActiveCases { lawyer: x }],
                        None => Seq::<Action>::empty(),
                    };
                    assert(dev =~= devs);
                    assert(actions@ =~= dev + spv);
                }
                Ok((share_amount, true))
            },
        }
    }
}

impl Marketplace {
    /// Refunds a share holder of a sale the lawyers rejected: their payment
    /// comes back and their shares return to the property account. The last
    /// refund pays the SPV lawyer and the treasury from the fees, burns the
    /// shares, releases the deposit and closes the listing.
    pub fn withdraw_rejected(&mut self, signer: AccountId, listing_id: ListingId, share_balance: u32) -> (out: Outcome)
        ensures
            final(self)@ == withdraw_rejected_spec(old(self)@, signer, listing_id, share_balance).0,
            out@ == withdraw_rejected_spec(old(self)@, signer, listing_id, share_balance).1,
    {
        let ghost pre = self@;
        let r = match self.refund_shares.get(&listing_id) {
            Some(r) => *r,
            None => return refusal(MarketError::SharesNotRefunded),
        };
        let l = match self.listings.get(&listing_id) {
            Some(l) => l,
            None => return refusal(MarketError::ListingNotFound),
        };
        if share_balance == 0 {
            return refusal(MarketError::NoSharesOwned);
        }
        if r.refund_amount < share_balance {
            return refusal(MarketError::InsufficientRefundableShares);
        }
        let remaining = r.refund_amount - share_balance;
        let asset_id = l.asset_id;
        let developer = l.real_estate_developer;
        let mut actions: Vec<Action> = Vec::new();
        let _ = refund_investor_in_order(&self.config, l, signer, false, &mut actions);
        let ghost in_order = investor_refunds_in_order(self.config, l@, signer, false);
        assert(in_order is Ok);
        assert(Seq::<Action>::empty() + in_order->Ok_0 =~= in_order->Ok_0);
        actions.push(Action::TransferShares { asset_id, from: AccountRef::User(signer), to: AccountRef::Property(asset_id), amount: share_balance });
        let ghost refunds = actions@;
        assert(refunds =~= in_order->Ok_0 + seq![Action::TransferShares { asset_id, from: AccountRef::User(signer), to: AccountRef::Property(asset_id), amount: share_balance }]);
        if remaining != 0 {
            let mut r2 = r;
            r2.refund_amount = remaining;
            self.refund_shares.insert(listing_id, r2);
        } else {
            actions.push(Action::BurnPropertyShares { asset_id });
            let ghost burnt = actions@;
            assert(burnt =~= refunds + seq![Action::BurnPropertyShares { asset_id }]);
            if let Err(e) = refund_investors_with_fees(&self.config, l, &r.property_lawyer_details, &mut actions) {
                return refusal_after(actions, e);
            }
            let (who, amount) = match self.listing_deposits.get(&listing_id) {
                Some(x) => *x,
                None => return refusal_after(actions, MarketError::ListingNotFound),
            };
            let ghost a = actions@;
            actions.push(Action::ReleaseDeposit { who, amount });
            actions.push(Action::SweepNative { asset_id, to: developer });
            assert(actions@ =~= a + closing_actions(asset_id, (who, amount), developer));
            proof {
                lemma_listings_view_remove(self.listings@, listing_id);
            }
            self.listings.remove(&listing_id);
            self.refund_shares.remove(&listing_id);
            self.listing_deposits.remove(&listing_id);
        }
        let ghost before_last = actions@;
        actions.push(Action::RemoveShareOwnership { asset_id, who: signer });
        assert(actions@ =~= before_last + seq![Action::RemoveShareOwnership { asset_id, who: signer }]);
        success(actions, single(Event::RejectedFundsWithdrawn { signer, listing_id }))
    }

    /// Refunds a share holder, with the fees they paid, after the legal process
    /// expired. The first refund closes the legal process; the last burns the
    /// shares, releases the deposit and closes the listing.
    #[verifier::rlimit(40)]
    pub fn withdraw_legal_process_expired(&mut self, signer: AccountId, listing_id: ListingId, share_balance: u32, now: BlockNumber) -> (out: Outcome)
        ensures
            final(self)@ == withdraw_legal_expired_spec(old(self)@, signer, listing_id, share_balance, now).0,
            out@ == withdraw_legal_expired_spec(old(self)@, signer, listing_id, share_balance, now).1,
    {
        let ghost pre = self@;
        let (asset_id, developer, share_amount) = match self.listings.get(&listing_id) {
            Some(l) => (l.asset_id, l.real_estate_developer, l.share_amount),
            None => return refusal(MarketError::ListingNotFound),
        };
        if share_balance == 0 {
            return refusal(MarketError::NoSharesOwned);
        }
        let mut actions: Vec<Action> = Vec::new();
        let (refundable, closes_process) = match self.begin_expired_refund(listing_id, now, share_amount, &mut actions) {
            Ok(x) => x,
            Err(e) => return refusal(e),
        };
        if refundable < share_balance {
            return refusal_after(actions, MarketError::InsufficientRefundableShares);
        }
        let remaining = refundable - share_balance;
        let l = self.listings.get(&listing_id).unwrap();
        let ghost lv = l@;
        if let Err(e) = refund_investor_in_order(&self.config, l, signer, true, &mut actions) {
            return refusal_after(actions, e);
        }
        let ghost a = actions@;
        actions.push(Action::TransferShares { asset_id, from: AccountRef::User(signer), to: AccountRef::Property(asset_id), amount: share_balance });
        let ghost returned = seq![Action::TransferShares { asset_id, from: AccountRef::User(signer), to: AccountRef::Property(asset_id), amount: share_balance }];
        assert(actions@ =~= a + returned);
        if remaining != 0 {
            if closes_process {
                self.property_lawyers.remove(&listing_id);
            }
            self.refund_legal_expired.insert(listing_id, remaining);
            proof {
                let mid = expired_refund_start(pre, listing_id, now)->Ok_0.0;
                assert(self.refund_legal_expired@ =~= mid.refund_legal_expired.insert(listing_id, remaining));
                assert(self.property_lawyers@ =~= mid.property_lawyers);
            }
        } else {
            actions.push(Action::BurnPropertyShares { asset_id });
            actions.push(Action::ClearShareOwners { asset_id });
            let ghost a2 = actions@;
            assert(a2 =~= a + returned + seq![
                Action::BurnPropertyShares { asset_id },
                Action::ClearShareOwners { asset_id },
            ]);
            let (who, amount) = match self.listing_deposits.get(&listing_id) {
                Some(x) => *x,
                None => return refusal_after(actions, MarketError::ListingNotFound),
            };
            if closes_process {
                self.property_lawyers.remove(&listing_id);
            }
            actions.push(Action::ReleaseDeposit { who, amount });
            actions.push(Action::SweepNative { asset_id, to: developer });
            assert(actions@ =~= a2 + closing_actions(asset_id, (who, amount), developer));
            proof {
                lemma_listings_view_remove(self.listings@, listing_id);
            }
            self.listings.remove(&listing_id);
            self.refund_legal_expired.remove(&listing_id);
            self.listing_deposits.remove(&listing_id);
            proof {
                let mid = expired_refund_start(pre, listing_id, now)->Ok_0.0;
                assert(self.refund_legal_expired@ =~= mid.refund_legal_expired.remove(listing_id));
                assert(self.property_lawyers@ =~= mid.property_lawyers);
            }
        }
        let ghost before_last = actions@;
        actions.push(Action::RemoveShareOwnership { asset_id, who: signer });
        assert(actions@ =~= before_last + seq![Action::RemoveShareOwnership { asset_id, who: signer }]);
        success(actions, single(Event::ExpiredFundsWithdrawn { signer, listing_id }))
    }

    /// Refunds a share holder, with the fees they paid, after the sale was
    /// cancelled for unclaimed shares. The last refund burns the shares, releases
    /// the deposit and closes the listing.
    pub fn withdraw_claiming_expired(&mut self, signer: AccountId, listing_id: ListingId, share_balance: u32) -> (out: Outcome)
        ensures
            final(self)@ == withdraw_claiming_expired_spec(old(self)@, signer, listing_id, share_balance).0,
            out@ == withdraw_claiming_expired_spec(old(self)@, signer, listing_id, share_balance).1,
    {
        let refundable = match self.refund_claimed.get(&listing_id) {
            Some(r) => *r,
            None => return refusal(MarketError::SharesNotRefunded),
        };
        let l = match self.listings.get(&listing_id) {
            Some(l) => l,
            None => return refusal(MarketError::ListingNotFound),
        };
        if share_balance == 0 {
            return refusal(MarketError::NoSharesOwned);
        }
        if refundable < share_balance {
            return refusal(MarketError::InsufficientRefundableShares);
        }
        let remaining = refundable - share_balance;
        let asset_id = l.asset_id;
        let developer = l.real_estate_developer;
        let mut actions: Vec<Action> = Vec::new();
        let ghost empty = actions@;
        if let Err(e) = refund_investor_ascending(&self.config, l, signer, &mut actions) {
            return refusal_after(actions, e);
        }
        let ghost a = actions@;
        actions.push(Action::TransferShares { asset_id, from: AccountRef::User(signer), to: AccountRef::Property(asset_id), amount: share_balance });
        let ghost returned = seq![Action::TransferShares { asset_id, from: AccountRef::User(signer), to: AccountRef::Property(asset_id), amount: share_balance }];
        assert(actions@ =~= a + returned);
        if remaining != 0 {
            self.refund_claimed.insert(listing_id, remaining);
        } else {
            actions.push(Action::BurnPropertyShares { asset_id });
            actions.push(Action::ClearShareOwners { asset_id });
            let ghost a2 = actions@;
            assert(a2 =~= a + returned + seq![
                Action::BurnPropertyShares { asset_id },
                Action::ClearShareOwners { asset_id },
            ]);
            let (who, amount) = match self.listing_deposits.get(&listing_id) {
                Some(x) => *x,
                None => return refusal_after(actions, MarketError::ListingNotFound),
            };
            actions.push(Action::ReleaseDeposit { who, amount });
            actions.push(Action::SweepNative { asset_id, to: developer });
            assert(actions@ =~= a2 + closing_actions(asset_id, (who, amount), developer));
            proof {
                lemma_listings_view_remove(self.listings@, listing_id);
            }
            self.listings.remove(&listing_id);
            self.refund_claimed.remove(&listing_id);
            self.listing_deposits.remove(&listing_id);
        }
        let ghost before_last = actions@;
        actions.push(Action::RemoveShareOwnership { asset_id, who: signer });
        assert(actions@ =~= before_last + seq![Action::RemoveShareOwnership { asset_id, who: signer }]);
        success(actions, single(Event::RejectedFundsWithdrawn { signer, listing_id }))
    }
}

} // verus!
