//! The end of the legal process: lawyers confirm documents, and the sale is
//! either settled or refunded.
use vstd::prelude::*;
use crate::asset_map::AssetMap;
use crate::common::{transfer_funds, transfer_spec};
use crate::per_thing::{mul_floor_spec, PERBILL_ACCURACY};
use crate::state::{accepted, lemma_listings_view_remove, refused, MarketView, Marketplace};
use crate::types::{
    AccountId, AccountRef, Action, Balance, BlockNumber, DocumentStatus, Event,
    FinalSettlementPayouts, LegalProperty, ListingId, ListingView, MarketConfig, MarketError,
    Outcome, OutcomeView, PropertyAssetInfo, PropertyLawyerDetails, RefundInfos, RegionInfo,
};

verus! {

broadcast use vstd::std_specs::btree::group_btree_axioms;

/// Either the payouts reached so far, or the actions asked so far and the error that stopped.
pub type Payout = Result<(FinalSettlementPayouts, Seq<Action>), (Seq<Action>, MarketError)>;

/// The payouts of one payment asset when a sale completes.
pub open spec fn settle_asset(cfg: MarketConfig, l: ListingView, d: PropertyLawyerDetails, dev_lawyer: AccountId, p: FinalSettlementPayouts, asset: u32) -> Payout {
    let acc = cfg.accepted_assets;
    let bound = cfg.max_accepted_assets;
    if l.collected_funds.spec_get(acc, asset) is None || d.spv_lawyer_costs.spec_get(acc, asset) is None
        || l.collected_tax.spec_get(acc, asset) is None || l.collected_fees.spec_get(acc, asset) is None {
        Err((Seq::empty(), MarketError::AssetNotSupported))
    } else if cfg.marketplace_fee.value() > PERBILL_ACCURACY {
        Err((Seq::empty(), MarketError::InvalidFeePercentage))
    } else {
        let total = l.collected_funds.spec_get(acc, asset)->0;
        let costs = d.spv_lawyer_costs.spec_get(acc, asset)->0;
        let tax = l.collected_tax.spec_get(acc, asset)->0;
        let fees = l.collected_fees.spec_get(acc, asset)->0;
        let gross = mul_floor_spec(total as int, PERBILL_ACCURACY - cfg.marketplace_fee.value(), PERBILL_ACCURACY as int);
        if l.tax_paid_by_developer && gross < tax {
            Err((Seq::empty(), MarketError::ArithmeticUnderflow))
        } else {
            let developer_amount = (if l.tax_paid_by_developer { gross - tax } else { gross }) as u128;
            let developer_lawyer_tax: u128 = if l.tax_paid_by_developer { tax } else { 0 };
            let spv_lawyer_tax: u128 = if l.tax_paid_by_developer { 0 } else { tax };
            if costs + spv_lawyer_tax > u128::MAX {
                Err((Seq::empty(), MarketError::ArithmeticOverflow))
            } else if total / 100 + fees > u128::MAX {
                Err((Seq::empty(), MarketError::ArithmeticOverflow))
            } else {
                let spv_lawyer_amount = (costs + spv_lawyer_tax) as u128;
                let protocol_fees = (if total / 100 + fees < costs { 0 } else { total / 100 + fees - costs }) as u128;
                let region_owner_amount = (protocol_fees / 2) as u128;
                let treasury_amount = (protocol_fees - region_owner_amount) as u128;
                let from = AccountRef::Property(l.asset_id);
                let acts = transfer_spec(asset, from, AccountRef::User(l.real_estate_developer), developer_amount)
                    + transfer_spec(asset, from, AccountRef::User(dev_lawyer), developer_lawyer_tax)
                    + transfer_spec(asset, from, AccountRef::User(p.spv_lawyer_account), spv_lawyer_amount)
                    + transfer_spec(asset, from, AccountRef::Treasury, treasury_amount)
                    + transfer_spec(asset, from, AccountRef::User(p.region_owner_account), region_owner_amount);
                if !p.developer_payout.spec_can_insert(acc, asset, bound)
                    || !p.spv_lawyer_payout.spec_can_insert(acc, asset, bound)
                    || !p.treasury_payout.spec_can_insert(acc, asset, bound)
                    || !p.region_owner_payout.spec_can_insert(acc, asset, bound) {
                    Err((acts, MarketError::ExceedsMaxEntries))
                } else {
                    Ok((FinalSettlementPayouts {
                        developer_payout: p.developer_payout.spec_set(acc, asset, developer_amount),
                        spv_lawyer_payout: p.spv_lawyer_payout.spec_set(acc, asset, spv_lawyer_amount),
                        treasury_payout: p.treasury_payout.spec_set(acc, asset, treasury_amount),
                        region_owner_payout: p.region_owner_payout.spec_set(acc, asset, region_owner_amount),
                        ..p
                    }, acts))
                }
            }
        }
    }
}

/// The payouts of every accepted payment asset, in configuration order.
#[verifier::opaque]
pub open spec fn settle_all_assets(cfg: MarketConfig, l: ListingView, d: PropertyLawyerDetails, dev_lawyer: AccountId, p: FinalSettlementPayouts) -> Payout {
    match settle_asset(cfg, l, d, dev_lawyer, p, cfg.accepted_assets.first) {
        Err(x) => Err(x),
        Ok((p1, a1)) => match settle_asset(cfg, l, d, dev_lawyer, p1, cfg.accepted_assets.second) {
            Err((a2, e)) => Err((a1 + a2, e)),
            Ok((p2, a2)) => Ok((p2, a1 + a2)),
        },
    }
}

/// What completing a sale does: every party is paid from the property account,
/// the property is finalized and the listing deposit released.
pub open spec fn execute_deal_spec(pre: MarketView, listing_id: ListingId, d: PropertyLawyerDetails, asset_info: Option<PropertyAssetInfo>, region_info: Option<RegionInfo>) -> (MarketView, OutcomeView) {
    let cfg = pre.config;
    if !pre.listings.contains_key(listing_id) {
        refused(pre, Seq::empty(), MarketError::ListingNotFound)
    } else if asset_info is None {
        refused(pre, Seq::empty(), MarketError::NoObjectFound)
    } else if region_info is None {
        refused(pre, Seq::empty(), MarketError::RegionUnknown)
    } else if d.real_estate_developer_lawyer is None || d.spv_lawyer is None {
        refused(pre, Seq::empty(), MarketError::LawyerNotFound)
    } else {
        let l = pre.listings[listing_id];
        let dev_lawyer = d.real_estate_developer_lawyer->0;
        let spv_lawyer = d.spv_lawyer->0;
        let region = region_info->0;
        let empty = AssetMap::<Balance> { first: None, second: None };
        let start = FinalSettlementPayouts {
            developer_payout: empty,
            developer_account: l.real_estate_developer,
            spv_lawyer_payout: empty,
            spv_lawyer_account: spv_lawyer,
            treasury_payout: empty,
            treasury_account: AccountRef::Treasury,
            region_owner_payout: empty,
            region_owner_account: region.owner,
        };
        let acts = seq![
            Action::DecrementActiveCases { lawyer: dev_lawyer },
            Action::DecrementActiveCases { lawyer: spv_lawyer },
        ];
        match settle_all_assets(cfg, l, d, dev_lawyer, start) {
            Err((a, e)) => refused(pre, acts + a, e),
            Ok((payouts, a)) => {
                let release = if pre.listing_deposits.contains_key(listing_id) {
                    seq![Action::ReleaseDeposit { who: pre.listing_deposits[listing_id].0, amount: pre.listing_deposits[listing_id].1 }]
                } else {
                    Seq::empty()
                };
                accepted(MarketView {
                    listings: pre.listings.remove(listing_id),
                    listing_deposits: pre.listing_deposits.remove(listing_id),
                    ..pre
                }, acts + a + seq![Action::FinalizeProperty { asset_id: l.asset_id }] + release,
                seq![Event::PrimarySaleCompleted { listing_id, asset_id: l.asset_id, payouts }])
            },
        }
    }
}

/// What refunding a rejected sale sets up: the lawyers' cases close and every
/// share becomes refundable.
pub open spec fn reject_and_refund_spec(pre: MarketView, listing_id: ListingId, d: PropertyLawyerDetails) -> (MarketView, OutcomeView) {
    if !pre.listings.contains_key(listing_id) {
        refused(pre, Seq::empty(), MarketError::ListingNotFound)
    } else if d.real_estate_developer_lawyer is None || d.spv_lawyer is None {
        refused(pre, Seq::empty(), MarketError::LawyerNotFound)
    } else {
        accepted(MarketView {
            refund_shares: pre.refund_shares.insert(listing_id, RefundInfos {
                refund_amount: pre.listings[listing_id].share_amount,
                property_lawyer_details: d,
            }),
            ..pre
        }, seq![
            Action::DecrementActiveCases { lawyer: d.real_estate_developer_lawyer->0 },
            Action::DecrementActiveCases { lawyer: d.spv_lawyer->0 },
        ], Seq::empty())
    }
}

/// A step run after some events were already reported and with the legal
/// process removed from storage.
pub open spec fn after_confirmation(pre: MarketView, listing_id: ListingId, confirmed: Event, step: (MarketView, OutcomeView)) -> (MarketView, OutcomeView) {
    match step.1.failure {
        Some(e) => refused(pre, step.1.actions, e),
        None => accepted(MarketView {
            property_lawyers: step.0.property_lawyers.remove(listing_id),
            ..step.0
        }, step.1.actions, seq![confirmed] + step.1.events),
    }
}

/// Whether the lawyers disagree.
pub open spec fn split_decision(d: PropertyLawyerDetails) -> bool {
    (d.real_estate_developer_status == DocumentStatus::Approved && d.spv_status == DocumentStatus::Rejected)
        || (d.real_estate_developer_status == DocumentStatus::Rejected && d.spv_status == DocumentStatus::Approved)
}

/// What `lawyer_confirm_documents` does.
pub open spec fn confirm_documents_spec(pre: MarketView, signer: AccountId, listing_id: ListingId, approve: bool, now: BlockNumber, asset_info: Option<PropertyAssetInfo>, region_info: Option<RegionInfo>) -> (MarketView, OutcomeView) {
    if !pre.property_lawyers.contains_key(listing_id) {
        refused(pre, Seq::empty(), MarketError::InvalidIndex)
    } else {
        let d = pre.property_lawyers[listing_id];
        let status = if approve { DocumentStatus::Approved } else { DocumentStatus::Rejected };
        if d.legal_process_expiry < now {
            refused(pre, Seq::empty(), MarketError::LegalProcessFailed)
        } else if d.real_estate_developer_lawyer != Some(signer) && d.spv_lawyer != Some(signer) {
            refused(pre, Seq::empty(), MarketError::NoPermission)
        } else if d.real_estate_developer_lawyer == Some(signer) && d.real_estate_developer_status != DocumentStatus::Pending {
            refused(pre, Seq::empty(), MarketError::AlreadyConfirmed)
        } else if d.real_estate_developer_lawyer != Some(signer) && d.spv_status != DocumentStatus::Pending {
            refused(pre, Seq::empty(), MarketError::AlreadyConfirmed)
        } else {
            let developer_side = d.real_estate_developer_lawyer == Some(signer);
            let d2 = if developer_side {
                PropertyLawyerDetails { real_estate_developer_status: status, ..d }
            } else {
                PropertyLawyerDetails { spv_status: status, ..d }
            };
            let confirmed = Event::DocumentsConfirmed {
                signer,
                listing_id,
                legal_side: if developer_side { LegalProperty::RealEstateDeveloperSide } else { LegalProperty::SpvSide },
                approve,
            };
            if d2.real_estate_developer_status == DocumentStatus::Approved && d2.spv_status == DocumentStatus::Approved {
                after_confirmation(pre, listing_id, confirmed, execute_deal_spec(pre, listing_id, d2, asset_info, region_info))
            } else if (d2.real_estate_developer_status == DocumentStatus::Rejected && d2.spv_status == DocumentStatus::Rejected)
                || (split_decision(d2) && d2.second_attempt) {
                after_confirmation(pre, listing_id, confirmed, reject_and_refund_spec(pre, listing_id, d2))
            } else if split_decision(d2) {
                accepted(MarketView {
                    property_lawyers: pre.property_lawyers.insert(listing_id, PropertyLawyerDetails {
                        real_estate_developer_status: DocumentStatus::Pending,
                        spv_status: DocumentStatus::Pending,
                        second_attempt: true,
                        ..d2
                    }),
                    ..pre
                }, Seq::empty(), seq![confirmed])
            } else {
                accepted(MarketView {
                    property_lawyers: pre.property_lawyers.insert(listing_id, d2),
                    ..pre
                }, Seq::empty(), seq![confirmed])
            }
        }
    }
}

/// Pays out one payment asset of a completed sale.
fn settle_one_asset(cfg: &MarketConfig, Ghost(l): Ghost<ListingView>, dev_total: Option<Balance>, costs: Option<Balance>, tax: Option<Balance>, fees: Option<Balance>, developer: AccountId, asset_id: u32, tax_by_developer: bool, d: &PropertyLawyerDetails, dev_lawyer: AccountId, p: &mut FinalSettlementPayouts, actions: &mut Vec<Action>, asset: u32) -> (r: Result<(), MarketError>)
    requires
        cfg.accepted_assets.spec_contains(asset),
        dev_total == l.collected_funds.spec_get(cfg.accepted_assets, asset),
        costs == d.spv_lawyer_costs.spec_get(cfg.accepted_assets, asset),
        tax == l.collected_tax.spec_get(cfg.accepted_assets, asset),
        fees == l.collected_fees.spec_get(cfg.accepted_assets, asset),
        developer == l.real_estate_developer,
        asset_id == l.asset_id,
        tax_by_developer == l.tax_paid_by_developer,
    ensures
        match settle_asset(*cfg, l, *d, dev_lawyer, *old(p), asset) {
            Ok((p2, a)) => r is Ok && *final(p) == p2 && final(actions)@ == old(actions)@ + a,
            Err((a, e)) => r == Err::<(), MarketError>(e) && final(actions)@ == old(actions)@ + a,
        },
{
    let ghost a0 = actions@;
    let (total, costs, tax, fees) = match (dev_total, costs, tax, fees) {
        (Some(t), Some(c), Some(x), Some(f)) => (t, c, x, f),
        _ => {
            assert(actions@ =~= a0 + Seq::<Action>::empty());
            return Err(MarketError::AssetNotSupported);
        },
    };
    let fee_parts = cfg.marketplace_fee.deconstruct();
    if fee_parts > PERBILL_ACCURACY {
        assert(actions@ =~= a0 + Seq::<Action>::empty());
        return Err(MarketError::InvalidFeePercentage);
    }
    let gross = crate::per_thing::mul_floor_u128(total, PERBILL_ACCURACY - fee_parts, PERBILL_ACCURACY);
    let developer_amount = if tax_by_developer {
        match gross.checked_sub(tax) {
            Some(x) => x,
            None => {
                assert(actions@ =~= a0 + Seq::<Action>::empty());
                return Err(MarketError::ArithmeticUnderflow);
            },
        }
    } else {
        gross
    };
    let (developer_lawyer_tax, spv_lawyer_tax): (Balance, Balance) = if tax_by_developer {
        (tax, 0)
    } else {
        (0, tax)
    };
    let spv_lawyer_amount = match costs.checked_add(spv_lawyer_tax) {
        Some(x) => x,
        None => {
            assert(actions@ =~= a0 + Seq::<Action>::empty());
            return Err(MarketError::ArithmeticOverflow);
        },
    };
    let protocol = match (total / 100).checked_add(fees) {
        Some(x) => x,
        None => {
            assert(actions@ =~= a0 + Seq::<Action>::empty());
            return Err(MarketError::ArithmeticOverflow);
        },
    };
    let protocol_fees = protocol.saturating_sub(costs);
    let region_owner_amount = protocol_fees / 2;
    let treasury_amount = protocol_fees - region_owner_amount;
    let from = AccountRef::Property(asset_id);
    transfer_funds(actions, asset, from, AccountRef::User(developer), developer_amount);
    transfer_funds(actions, asset, from, AccountRef::User(dev_lawyer), developer_lawyer_tax);
    transfer_funds(actions, asset, from, AccountRef::User(p.spv_lawyer_account), spv_lawyer_amount);
    transfer_funds(actions, asset, from, AccountRef::Treasury, treasury_amount);
    transfer_funds(actions, asset, from, AccountRef::User(p.region_owner_account), region_owner_amount);
    proof {
        let acts = transfer_spec(asset, from, AccountRef::User(developer), developer_amount)
            + transfer_spec(asset, from, AccountRef::User(dev_lawyer), developer_lawyer_tax)
            + transfer_spec(asset, from, AccountRef::User(p.spv_lawyer_account), spv_lawyer_amount)
            + transfer_spec(asset, from, AccountRef::Treasury, treasury_amount)
            + transfer_spec(asset, from, AccountRef::User(p.region_owner_account), region_owner_amount);
        assert(actions@ =~= a0 + acts);
    }
    let acc = &cfg.accepted_assets;
    let bound = cfg.max_accepted_assets;
    let mut next = *p;
    if !next.developer_payout.try_insert(acc, asset, developer_amount, bound) {
        return Err(MarketError::ExceedsMaxEntries);
    }
    if !next.spv_lawyer_payout.try_insert(acc, asset, spv_lawyer_amount, bound) {
        return Err(MarketError::ExceedsMaxEntries);
    }
    if !next.treasury_payout.try_insert(acc, asset, treasury_amount, bound) {
        return Err(MarketError::ExceedsMaxEntries);
    }
    if !next.region_owner_payout.try_insert(acc, asset, region_owner_amount, bound) {
        return Err(MarketError::ExceedsMaxEntries);
    }
    *p = next;
    Ok(())
}

impl Marketplace {
    /// Pays out one payment asset of a completed sale of the listing `l`.
    fn settle_listing_asset(&self, l: &crate::types::PropertyListingDetails, d: &PropertyLawyerDetails, dev_lawyer: AccountId, p: &mut FinalSettlementPayouts, actions: &mut Vec<Action>, asset: u32) -> (r: Result<(), MarketError>)
        requires
            self.config.accepted_assets.spec_contains(asset),
        ensures
            match settle_asset(self.config, l@, *d, dev_lawyer, *old(p), asset) {
                Ok((p2, a)) => r is Ok && *final(p) == p2 && final(actions)@ == old(actions)@ + a,
                Err((a, e)) => r == Err::<(), MarketError>(e) && final(actions)@ == old(actions)@ + a,
            },
    {
        let acc = &self.config.accepted_assets;
        let ghost lv = l@;
        settle_one_asset(&self.config, Ghost(lv), l.collected_funds.get(acc, asset), d.spv_lawyer_costs.get(acc, asset), l.collected_tax.get(acc, asset), l.collected_fees.get(acc, asset), l.real_estate_developer, l.asset_id, l.tax_paid_by_developer, d, dev_lawyer, p, actions, asset)
    }

    /// Completes a sale once both lawyers approved: pays every party from the
    /// property account, finalizes the property and releases the deposit.
    fn execute_deal(&mut self, listing_id: ListingId, d: PropertyLawyerDetails, asset_info: Option<PropertyAssetInfo>, region_info: Option<RegionInfo>) -> (out: Outcome)
        ensures
            final(self)@ == execute_deal_spec(old(self)@, listing_id, d, asset_info, region_info).0,
            out@ == execute_deal_spec(old(self)@, listing_id, d, asset_info, region_info).1,
    {
        let ghost pre = self@;
        let l = match self.listings.get(&listing_id) {
            Some(l) => l,
            None => return crate::state::refusal(MarketError::ListingNotFound),
        };
        if asset_info.is_none() {
            return crate::state::refusal(MarketError::NoObjectFound);
        }
        let region = match region_info {
            Some(r) => r,
            None => return crate::state::refusal(MarketError::RegionUnknown),
        };
        let (dev_lawyer, spv_lawyer) = match (d.real_estate_developer_lawyer, d.spv_lawyer) {
            (Some(a), Some(b)) => (a, b),
            _ => return crate::state::refusal(MarketError::LawyerNotFound),
        };
        let mut actions: Vec<Action> = Vec::new();
        actions.push(Action::DecrementActiveCases { lawyer: dev_lawyer });
        actions.push(Action::DecrementActiveCases { lawyer: spv_lawyer });
        assert(actions@ =~= seq![
            Action::DecrementActiveCases { lawyer: dev_lawyer },
            Action::DecrementActiveCases { lawyer: spv_lawyer },
        ]);
        let ghost acts = actions@;
        let empty: AssetMap<Balance> = AssetMap::new();
        let mut payouts = FinalSettlementPayouts {
            developer_payout: empty,
            developer_account: l.real_estate_developer,
            spv_lawyer_payout: empty,
            spv_lawyer_account: spv_lawyer,
            treasury_payout: empty,
            treasury_account: AccountRef::Treasury,
            region_owner_payout: empty,
            region_owner_account: region.owner,
        };
        let ghost start = payouts;
        proof {
            reveal(settle_all_assets);
        }
        let first = self.config.accepted_assets.first;
        let second = self.config.accepted_assets.second;
        if let Err(e) = self.settle_listing_asset(l, &d, dev_lawyer, &mut payouts, &mut actions, first) {
            return crate::state::refusal_after(actions, e);
        }
        let ghost a1 = settle_asset(pre.config, l@, d, dev_lawyer, start, first)->Ok_0.1;
        let ghost p1 = payouts;
        if let Err(e) = self.settle_listing_asset(l, &d, dev_lawyer, &mut payouts, &mut actions, second) {
            proof {
                let a2 = settle_asset(pre.config, l@, d, dev_lawyer, p1, second)->Err_0.0;
                assert(acts + a1 + a2 =~= acts + (a1 + a2));
            }
            return crate::state::refusal_after(actions, e);
        }
        proof {
            let a2 = settle_asset(pre.config, l@, d, dev_lawyer, p1, second)->Ok_0.1;
            assert(acts + a1 + a2 =~= acts + (a1 + a2));
        }
        let asset_id = l.asset_id;
        let ghost a12 = actions@;
        actions.push(Action::FinalizeProperty { asset_id });
        match self.listing_deposits.remove(&listing_id) {
            Some((who, amount)) => {
                actions.push(Action::ReleaseDeposit { who, amount });
                assert(actions@ =~= a12 + seq![Action::FinalizeProperty { asset_id }] + seq![Action::ReleaseDeposit { who, amount }]);
            },
            None => {
                assert(actions@ =~= a12 + seq![Action::FinalizeProperty { asset_id }] + Seq::<Action>::empty());
            },
        }
        proof {
            lemma_listings_view_remove(self.listings@, listing_id);
        }
        self.listings.remove(&listing_id);
        let mut events: Vec<Event> = Vec::new();
        events.push(Event::PrimarySaleCompleted { listing_id, asset_id, payouts });
        assert(events@ =~= seq![Event::PrimarySaleCompleted { listing_id, asset_id, payouts }]);
        crate::state::success(actions, events)
    }

    /// Sets up the refund of a sale the lawyers rejected.
    fn reject_and_refund(&mut self, listing_id: ListingId, d: PropertyLawyerDetails) -> (out: Outcome)
        ensures
            final(self)@ == reject_and_refund_spec(old(self)@, listing_id, d).0,
            out@ == reject_and_refund_spec(old(self)@, listing_id, d).1,
    {
        let share_amount = match self.listings.get(&listing_id) {
            Some(l) => l.share_amount,
            None => return crate::state::refusal(MarketError::ListingNotFound),
        };
        let (dev_lawyer, spv_lawyer) = match (d.real_estate_developer_lawyer, d.spv_lawyer) {
            (Some(a), Some(b)) => (a, b),
            _ => return crate::state::refusal(MarketError::LawyerNotFound),
        };
        let mut actions: Vec<Action> = Vec::new();
        actions.push(Action::DecrementActiveCases { lawyer: dev_lawyer });
        actions.push(Action::DecrementActiveCases { lawyer: spv_lawyer });
        self.refund_shares.insert(listing_id, RefundInfos { refund_amount: share_amount, property_lawyer_details: d });
        assert(actions@ =~= seq![
            Action::DecrementActiveCases { lawyer: dev_lawyer },
            Action::DecrementActiveCases { lawyer: spv_lawyer },
        ]);
        crate::state::success(actions, Vec::new())
    }

    /// Reports the document confirmation before what followed it, and drops the
    /// legal process when that succeeded.
    fn conclude_confirmation(&mut self, listing_id: ListingId, confirmed: Event, out: Outcome) -> (r: Outcome)
        ensures
            out@.failure is None ==> final(self)@ == (MarketView {
                property_lawyers: old(self)@.property_lawyers.remove(listing_id),
                ..old(self)@
            }),
            out@.failure is Some ==> final(self)@ == old(self)@,
            r@ == (OutcomeView {
                actions: out@.actions,
                events: if out@.failure is Some { Seq::empty() } else { seq![confirmed] + out@.events },
                failure: out@.failure,
            }),
    {
        if out.failure.is_some() {
            return Outcome { actions: out.actions, events: Vec::new(), failure: out.failure };
        }
        self.property_lawyers.remove(&listing_id);
        let mut events: Vec<Event> = Vec::new();
        events.push(confirmed);
        let mut rest = out.events;
        events.append(&mut rest);
        Outcome { actions: out.actions, events, failure: None }
    }

    /// A lawyer approves or rejects the documents of their side. When both sides
    /// approved the sale completes; when both rejected, or they disagree a second
    /// time, the sale is refunded; a first disagreement restarts both reviews.
    pub fn lawyer_confirm_documents(&mut self, signer: AccountId, listing_id: ListingId, approve: bool, now: BlockNumber, asset_info: Option<PropertyAssetInfo>, region_info: Option<RegionInfo>) -> (out: Outcome)
        ensures
            final(self)@ == confirm_documents_spec(old(self)@, signer, listing_id, approve, now, asset_info, region_info).0,
            out@ == confirm_documents_spec(old(self)@, signer, listing_id, approve, now, asset_info, region_info).1,
    {
        let ghost pre = self@;
        let d = match self.property_lawyers.get(&listing_id) {
            Some(d) => *d,
            None => return crate::state::refusal(MarketError::InvalidIndex),
        };
        if d.legal_process_expiry < now {
            return crate::state::refusal(MarketError::LegalProcessFailed);
        }
        let status = if approve { DocumentStatus::Approved } else { DocumentStatus::Rejected };
        let is_developer_lawyer = match d.real_estate_developer_lawyer {
            Some(l) => l == signer,
            None => false,
        };
        let is_spv_lawyer = match d.spv_lawyer {
            Some(l) => l == signer,
            None => false,
        };
        let mut d2 = d;
        let confirmed;
        if is_developer_lawyer {
            if !matches!(d.real_estate_developer_status, DocumentStatus::Pending) {
                return crate::state::refusal(MarketError::AlreadyConfirmed);
            }
            d2.real_estate_developer_status = status;
            confirmed = Event::DocumentsConfirmed { signer, listing_id, legal_side: LegalProperty::RealEstateDeveloperSide, approve };
        } else if is_spv_lawyer {
            if !matches!(d.spv_status, DocumentStatus::Pending) {
                return crate::state::refusal(MarketError::AlreadyConfirmed);
            }
            d2.spv_status = status;
            confirmed = Event::DocumentsConfirmed { signer, listing_id, legal_side: LegalProperty::SpvSide, approve };
        } else {
            return crate::state::refusal(MarketError::NoPermission);
        }
        match (d2.real_estate_developer_status, d2.spv_status) {
            (DocumentStatus::Approved, DocumentStatus::Approved) => {
                let out = self.execute_deal(listing_id, d2, asset_info, region_info);
                self.conclude_confirmation(listing_id, confirmed, out)
            },
            (DocumentStatus::Rejected, DocumentStatus::Rejected) => {
                let out = self.reject_and_refund(listing_id, d2);
                self.conclude_confirmation(listing_id, confirmed, out)
            },
            (DocumentStatus::Approved, DocumentStatus::Rejected) | (DocumentStatus::Rejected, DocumentStatus::Approved) => {
                if !d2.second_attempt {
                    d2.spv_status = DocumentStatus::Pending;
                    d2.real_estate_developer_status = DocumentStatus::Pending;
                    d2.second_attempt = true;
                    self.property_lawyers.insert(listing_id, d2);
                    let mut events: Vec<Event> = Vec::new();
                    events.push(confirmed);
                    assert(events@ =~= seq![confirmed]);
                    crate::state::success(Vec::new(), events)
                } else {
                    let out = self.reject_and_refund(listing_id, d2);
                    self.conclude_confirmation(listing_id, confirmed, out)
                }
            },
            _ => {
                self.property_lawyers.insert(listing_id, d2);
                let mut events: Vec<Event> = Vec::new();
                events.push(confirmed);
                assert(events@ =~= seq![confirmed]);
                crate::state::success(Vec::new(), events)
            },
        }
    }
}

} // verus!
