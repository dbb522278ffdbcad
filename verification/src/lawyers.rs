//! Choosing the lawyers of a property's legal process.
use vstd::prelude::*;
use crate::asset_map::AssetMap;
use crate::common::{sat_add, sat_add_u32, sat_mul_u32, sat_sub_u32, saturating_mul_u32};
use crate::state::{accepted, refusal, refusal_after, refused, single, success, MarketView, Marketplace};
use crate::types::{
    AccountId, Action, Balance, BlockNumber, DocumentStatus, Event, LawyerInfo, LegalProperty,
    ListingId, MarketConfig, MarketError, Outcome, OutcomeView, PropertyAssetInfo,
    PropertyLawyerDetails, ProposalId, ProposedDeveloperLawyer, ProposedSpvLawyer, Vote,
    VoteRecord, VoteStats,
};

verus! {

broadcast use vstd::std_specs::btree::group_btree_axioms;

/// Where an allocation of lawyer costs stands: costs recorded, costs allocated, costs left.
pub type Allocation = (AssetMap<Balance>, AssetMap<Balance>, Balance);

/// Allocates what is left of the lawyer's costs to the fees collected in `asset`.
pub open spec fn allocate_asset(cfg: MarketConfig, collected_fees: AssetMap<Balance>, st: Allocation, asset: u32) -> Result<Allocation, MarketError> {
    let acc = cfg.accepted_assets;
    let bound = cfg.max_accepted_assets;
    let (costs, allocated, remaining) = st;
    let fee = match collected_fees.spec_get(acc, asset) {
        Some(f) => f,
        None => 0,
    };
    if remaining == 0 || fee == 0 {
        Ok(st)
    } else {
        let part = if fee >= remaining { remaining } else { fee };
        if !costs.spec_can_insert(acc, asset, bound) || !allocated.spec_can_insert(acc, asset, bound) {
            Err(MarketError::ExceedsMaxEntries)
        } else {
            Ok((costs.spec_set(acc, asset, part), allocated.spec_set(acc, asset, part), (remaining - part) as u128))
        }
    }
}

/// Allocates a lawyer's `total_costs` to the collected fees, asset by asset in
/// configuration order: the new cost record and what was allocated.
pub open spec fn allocate_fees_spec(cfg: MarketConfig, lawyer_costs: AssetMap<Balance>, collected_fees: AssetMap<Balance>, total_costs: Balance) -> Result<(AssetMap<Balance>, AssetMap<Balance>), MarketError> {
    let acc = cfg.accepted_assets;
    let f1 = match collected_fees.spec_get(acc, acc.first) {
        Some(f) => f,
        None => 0,
    };
    let f2 = match collected_fees.spec_get(acc, acc.second) {
        Some(f) => f,
        None => 0,
    };
    if f1 + f2 > u128::MAX {
        Err(MarketError::ArithmeticOverflow)
    } else if f1 + f2 < total_costs {
        Err(MarketError::CostsTooHigh)
    } else {
        let empty = AssetMap::<Balance> { first: None, second: None };
        match allocate_asset(cfg, collected_fees, (lawyer_costs, empty, total_costs), acc.first) {
            Err(e) => Err(e),
            Ok(st) => match allocate_asset(cfg, collected_fees, st, acc.second) {
                Err(e) => Err(e),
                Ok((costs, allocated, remaining)) => if remaining != 0 {
                    Err(MarketError::CostsTooHigh)
                } else {
                    Ok((costs, allocated))
                },
            },
        }
    }
}

fn allocate_one(cfg: &MarketConfig, collected_fees: &AssetMap<Balance>, costs: &mut AssetMap<Balance>, allocated: &mut AssetMap<Balance>, remaining: &mut Balance, asset: u32) -> (r: Result<(), MarketError>)
    requires
        cfg.accepted_assets.spec_contains(asset),
    ensures
        match allocate_asset(*cfg, *collected_fees, (*old(costs), *old(allocated), *old(remaining)), asset) {
            Ok(st) => r is Ok && (*final(costs), *final(allocated), *final(remaining)) == st,
            Err(e) => r == Err::<(), MarketError>(e),
        },
{
    let acc = &cfg.accepted_assets;
    let bound = cfg.max_accepted_assets;
    let fee = match collected_fees.get(acc, asset) {
        Some(f) => f,
        None => 0,
    };
    if *remaining == 0 || fee == 0 {
        return Ok(());
    }
    let part = if fee >= *remaining { *remaining } else { fee };
    if !costs.try_insert(acc, asset, part, bound) {
        return Err(MarketError::ExceedsMaxEntries);
    }
    if !allocated.try_insert(acc, asset, part, bound) {
        return Err(MarketError::ExceedsMaxEntries);
    }
    *remaining = *remaining - part;
    Ok(())
}

/// Allocates a lawyer's costs to the fees collected in the accepted assets.
pub fn allocate_fees(cfg: &MarketConfig, lawyer_costs: AssetMap<Balance>, collected_fees: &AssetMap<Balance>, total_costs: Balance) -> (r: Result<(AssetMap<Balance>, AssetMap<Balance>), MarketError>)
    ensures
        r == allocate_fees_spec(*cfg, lawyer_costs, *collected_fees, total_costs),
{
    let acc = &cfg.accepted_assets;
    let f1 = match collected_fees.get(acc, acc.first) {
        Some(f) => f,
        None => 0,
    };
    let f2 = match collected_fees.get(acc, acc.second) {
        Some(f) => f,
        None => 0,
    };
    let total_fees = match f1.checked_add(f2) {
        Some(t) => t,
        None => return Err(MarketError::ArithmeticOverflow),
    };
    if total_fees < total_costs {
        return Err(MarketError::CostsTooHigh);
    }
    let mut costs = lawyer_costs;
    let mut allocated: AssetMap<Balance> = AssetMap::new();
    let mut remaining = total_costs;
    allocate_one(cfg, collected_fees, &mut costs, &mut allocated, &mut remaining, acc.first)?;
    allocate_one(cfg, collected_fees, &mut costs, &mut allocated, &mut remaining, acc.second)?;
    if remaining != 0 {
        return Err(MarketError::CostsTooHigh);
    }
    Ok((costs, allocated))
}

/// The sum of the fees collected in the accepted assets, unless one is missing or it overflows.
pub open spec fn collected_fee_total(cfg: MarketConfig, fees: AssetMap<Balance>) -> Result<Balance, MarketError> {
    let acc = cfg.accepted_assets;
    match (fees.spec_get(acc, acc.first), fees.spec_get(acc, acc.second)) {
        (Some(a), Some(b)) => if a + b > u128::MAX {
            Err(MarketError::ArithmeticOverflow)
        } else {
            Ok((a + b) as u128)
        },
        _ => Err(MarketError::AssetNotSupported),
    }
}

/// What `lawyer_claim_property` does.
pub open spec fn lawyer_claim_spec(pre: MarketView, signer: AccountId, listing_id: ListingId, legal_side: LegalProperty, costs: Balance, now: BlockNumber, lawyer_info: Option<LawyerInfo>, asset_info: Option<PropertyAssetInfo>) -> (MarketView, OutcomeView) {
    let cfg = pre.config;
    if lawyer_info is None {
        refused(pre, Seq::empty(), MarketError::NoPermission)
    } else if !pre.listings.contains_key(listing_id) {
        refused(pre, Seq::empty(), MarketError::ListingNotFound)
    } else if asset_info is None {
        refused(pre, Seq::empty(), MarketError::NoObjectFound)
    } else if lawyer_info->0.region != asset_info->0.region {
        refused(pre, Seq::empty(), MarketError::WrongRegion)
    } else if !pre.property_lawyers.contains_key(listing_id) {
        refused(pre, Seq::empty(), MarketError::InvalidIndex)
    } else {
        let l = pre.listings[listing_id];
        let d = pre.property_lawyers[listing_id];
        if d.legal_process_expiry < now {
            refused(pre, Seq::empty(), MarketError::LegalProcessFailed)
        } else {
            match collected_fee_total(cfg, l.collected_fees) {
                Err(e) => refused(pre, Seq::empty(), e),
                Ok(total) => if total < costs {
                    refused(pre, Seq::empty(), MarketError::CostsTooHigh)
                } else {
                    match legal_side {
                        LegalProperty::RealEstateDeveloperSide => {
                            if pre.proposed_lawyers.contains_key(listing_id) {
                                refused(pre, Seq::empty(), MarketError::LawyerProposalOngoing)
                            } else if d.real_estate_developer_lawyer is Some {
                                refused(pre, Seq::empty(), MarketError::LawyerJobTaken)
                            } else if d.spv_lawyer == Some(signer) {
                                refused(pre, Seq::empty(), MarketError::NoPermission)
                            } else if pre.listing_spv_proposal.contains_key(listing_id)
                                && pre.spv_lawyer_proposals.contains_key(pre.listing_spv_proposal[listing_id])
                                && pre.spv_lawyer_proposals[pre.listing_spv_proposal[listing_id]].lawyer == signer {
                                refused(pre, Seq::empty(), MarketError::NoPermission)
                            } else {
                                accepted(MarketView {
                                    proposed_lawyers: pre.proposed_lawyers.insert(listing_id, ProposedDeveloperLawyer { lawyer: signer, costs }),
                                    ..pre
                                }, Seq::empty(), seq![Event::DeveloperLawyerProposed { listing_id, lawyer: signer, proposed_cost: costs }])
                            }
                        },
                        LegalProperty::SpvSide => {
                            let acts = seq![Action::EnsureSpvCreated { asset_id: l.asset_id }];
                            if pre.listing_spv_proposal.contains_key(listing_id) {
                                refused(pre, acts, MarketError::LawyerProposalOngoing)
                            } else if d.spv_lawyer is Some {
                                refused(pre, acts, MarketError::LawyerJobTaken)
                            } else if d.real_estate_developer_lawyer == Some(signer) {
                                refused(pre, acts, MarketError::NoPermission)
                            } else if pre.proposed_lawyers.contains_key(listing_id) && pre.proposed_lawyers[listing_id].lawyer == signer {
                                refused(pre, acts, MarketError::NoPermission)
                            } else if pre.proposal_counter == u64::MAX {
                                refused(pre, acts, MarketError::ArithmeticOverflow)
                            } else {
                                let pid = pre.proposal_counter;
                                let expiry = sat_add(now, cfg.lawyer_voting_time);
                                accepted(MarketView {
                                    listing_spv_proposal: pre.listing_spv_proposal.insert(listing_id, pid),
                                    spv_lawyer_proposals: pre.spv_lawyer_proposals.insert(pid, ProposedSpvLawyer { lawyer: signer, asset_id: l.asset_id, costs, expiry_block: expiry }),
                                    lawyer_votings: pre.lawyer_votings.insert(pid, VoteStats { yes_voting_power: 0, no_voting_power: 0, abstain_voting_power: 0 }),
                                    proposal_counter: (pid + 1) as u64,
                                    ..pre
                                }, acts, seq![Event::SpvLawyerProposed { listing_id, lawyer: signer, proposed_cost: costs, expiry_block: expiry }])
                            }
                        },
                    }
                },
            }
        }
    }
}

/// The tally without a previous vote of `power`.
pub open spec fn withdraw_vote(v: VoteStats, vote: Vote, power: u32) -> VoteStats {
    match vote {
        Vote::Yes => VoteStats { yes_voting_power: sat_sub_u32(v.yes_voting_power, power), ..v },
        Vote::No => VoteStats { no_voting_power: sat_sub_u32(v.no_voting_power, power), ..v },
        Vote::Abstain => VoteStats { abstain_voting_power: sat_sub_u32(v.abstain_voting_power, power), ..v },
    }
}

/// The tally with a vote of `power` added.
pub open spec fn cast_vote(v: VoteStats, vote: Vote, power: u32) -> VoteStats {
    match vote {
        Vote::Yes => VoteStats { yes_voting_power: sat_add_u32(v.yes_voting_power, power), ..v },
        Vote::No => VoteStats { no_voting_power: sat_add_u32(v.no_voting_power, power), ..v },
        Vote::Abstain => VoteStats { abstain_voting_power: sat_add_u32(v.abstain_voting_power, power), ..v },
    }
}

/// What `vote_on_spv_lawyer` does; `voting_power` is the voter's share balance.
pub open spec fn vote_spec(pre: MarketView, signer: AccountId, listing_id: ListingId, vote: Vote, amount: u32, now: BlockNumber, voting_power: u32) -> (MarketView, OutcomeView) {
    if amount == 0 {
        refused(pre, Seq::empty(), MarketError::ZeroVoteAmount)
    } else if !pre.listing_spv_proposal.contains_key(listing_id) {
        refused(pre, Seq::empty(), MarketError::NoLawyerProposed)
    } else if !pre.spv_lawyer_proposals.contains_key(pre.listing_spv_proposal[listing_id]) {
        refused(pre, Seq::empty(), MarketError::NoLawyerProposed)
    } else {
        let pid = pre.listing_spv_proposal[listing_id];
        let p = pre.spv_lawyer_proposals[pid];
        if !(p.expiry_block > now) {
            refused(pre, Seq::empty(), MarketError::VotingExpired)
        } else if voting_power < amount {
            refused(pre, Seq::empty(), MarketError::NotEnoughShares)
        } else if !pre.lawyer_votings.contains_key(pid) {
            refused(pre, Seq::empty(), MarketError::NoLawyerProposed)
        } else {
            let prior = pre.user_lawyer_votes.get((pid, signer));
            let v0 = pre.lawyer_votings[pid];
            let v1 = match prior {
                Some(r) => withdraw_vote(v0, r.vote, r.power),
                None => v0,
            };
            let v2 = cast_vote(v1, vote, amount);
            let undo = match prior {
                Some(r) => seq![Action::DecreaseFrozen { asset_id: p.asset_id, who: signer, amount: r.power }],
                None => Seq::empty(),
            };
            accepted(MarketView {
                lawyer_votings: pre.lawyer_votings.insert(pid, v2),
                user_lawyer_votes: pre.user_lawyer_votes.insert((pid, signer), VoteRecord { vote, asset_id: p.asset_id, power: amount }),
                ..pre
            }, undo + seq![Action::IncreaseFrozen { asset_id: p.asset_id, who: signer, amount }], seq![Event::VotedOnLawyer {
                listing_id,
                voter: signer,
                vote,
                voting_power,
                new_yes_power: v2.yes_voting_power,
                new_no_power: v2.no_voting_power,
                new_abstain_power: v2.abstain_voting_power,
                proposal_id: pid,
            }])
        }
    }
}

/// What `approve_developer_lawyer` does.
pub open spec fn approve_developer_lawyer_spec(pre: MarketView, signer: AccountId, listing_id: ListingId, approve: bool, now: BlockNumber) -> (MarketView, OutcomeView) {
    if !pre.listings.contains_key(listing_id) {
        refused(pre, Seq::empty(), MarketError::ListingNotFound)
    } else if signer != pre.listings[listing_id].real_estate_developer {
        refused(pre, Seq::empty(), MarketError::NoPermission)
    } else if !pre.property_lawyers.contains_key(listing_id) {
        refused(pre, Seq::empty(), MarketError::InvalidIndex)
    } else if !pre.proposed_lawyers.contains_key(listing_id) {
        refused(pre, Seq::empty(), MarketError::NoLawyerProposed)
    } else {
        let l = pre.listings[listing_id];
        let d = pre.property_lawyers[listing_id];
        let p = pre.proposed_lawyers[listing_id];
        let finalized = Event::RealEstateLawyerProposalFinalized { listing_id, lawyer: p.lawyer, is_approved: approve };
        if approve && !(now > d.legal_process_expiry) {
            match allocate_fees_spec(pre.config, d.real_estate_developer_lawyer_costs, l.collected_fees, p.costs) {
                Err(e) => refused(pre, Seq::empty(), e),
                Ok((costs, allocated)) => accepted(MarketView {
                    property_lawyers: pre.property_lawyers.insert(listing_id, PropertyLawyerDetails {
                        real_estate_developer_lawyer: Some(p.lawyer),
                        real_estate_developer_lawyer_costs: costs,
                        ..d
                    }),
                    proposed_lawyers: pre.proposed_lawyers.remove(listing_id),
                    ..pre
                }, seq![Action::IncrementActiveCases { lawyer: p.lawyer }], seq![
                    Event::LawyerCostsAllocated { listing_id, lawyer_account: p.lawyer, lawyer_type: LegalProperty::RealEstateDeveloperSide, costs: allocated },
                    finalized,
                ]),
            }
        } else {
            accepted(MarketView { proposed_lawyers: pre.proposed_lawyers.remove(listing_id), ..pre }, Seq::empty(), seq![finalized])
        }
    }
}

/// Whether the votes cast reach the quorum: more than the minimum share of the supply.
pub open spec fn meets_quorum(cfg: MarketConfig, v: VoteStats, supply: u32) -> bool {
    let total = sat_add_u32(sat_add_u32(v.yes_voting_power, v.no_voting_power), v.abstain_voting_power);
    sat_mul_u32(total, 100) > sat_mul_u32(supply, cfg.min_voting_quorum.value() as u32)
}

/// What `finalize_spv_lawyer` does.
pub open spec fn finalize_spv_lawyer_spec(pre: MarketView, listing_id: ListingId, now: BlockNumber, asset_info: Option<PropertyAssetInfo>) -> (MarketView, OutcomeView) {
    if !pre.listing_spv_proposal.contains_key(listing_id) || !pre.spv_lawyer_proposals.contains_key(pre.listing_spv_proposal[listing_id]) {
        refused(pre, Seq::empty(), MarketError::NoLawyerProposed)
    } else {
        let pid = pre.listing_spv_proposal[listing_id];
        let p = pre.spv_lawyer_proposals[pid];
        if !(p.expiry_block <= now) {
            refused(pre, Seq::empty(), MarketError::VotingStillOngoing)
        } else if !pre.lawyer_votings.contains_key(pid) {
            refused(pre, Seq::empty(), MarketError::NoLawyerProposed)
        } else if !pre.listings.contains_key(listing_id) {
            refused(pre, Seq::empty(), MarketError::ListingNotFound)
        } else if !pre.property_lawyers.contains_key(listing_id) {
            refused(pre, Seq::empty(), MarketError::InvalidIndex)
        } else if asset_info is None || asset_info->0.share_amount == 0 {
            refused(pre, Seq::empty(), MarketError::NoObjectFound)
        } else {
            let v = pre.lawyer_votings[pid];
            let l = pre.listings[listing_id];
            let d = pre.property_lawyers[listing_id];
            let approved = v.yes_voting_power > v.no_voting_power && meets_quorum(pre.config, v, asset_info->0.share_amount);
            let finalized = Event::SpvLawyerVoteFinalized {
                listing_id,
                lawyer: p.lawyer,
                is_approved: approved,
                final_yes_power: v.yes_voting_power,
                final_no_power: v.no_voting_power,
                final_abstain_power: v.abstain_voting_power,
            };
            let cleaned = MarketView {
                spv_lawyer_proposals: pre.spv_lawyer_proposals.remove(pid),
                lawyer_votings: pre.lawyer_votings.remove(pid),
                listing_spv_proposal: pre.listing_spv_proposal.remove(listing_id),
                ..pre
            };
            if approved && !(now > d.legal_process_expiry) {
                match allocate_fees_spec(pre.config, d.spv_lawyer_costs, l.collected_fees, p.costs) {
                    Err(e) => refused(pre, Seq::empty(), e),
                    Ok((costs, allocated)) => accepted(MarketView {
                        property_lawyers: pre.property_lawyers.insert(listing_id, PropertyLawyerDetails {
                            spv_lawyer: Some(p.lawyer),
                            spv_lawyer_costs: costs,
                            ..d
                        }),
                        ..cleaned
                    }, seq![Action::IncrementActiveCases { lawyer: p.lawyer }], seq![
                        Event::LawyerCostsAllocated { listing_id, lawyer_account: p.lawyer, lawyer_type: LegalProperty::SpvSide, costs: allocated },
                        finalized,
                    ]),
                }
            } else {
                accepted(cleaned, Seq::empty(), seq![finalized])
            }
        }
    }
}

/// What `unfreeze_spv_lawyer_shares` does.
pub open spec fn unfreeze_vote_spec(pre: MarketView, signer: AccountId, proposal_id: ProposalId, now: BlockNumber) -> (MarketView, OutcomeView) {
    if !pre.user_lawyer_votes.contains_key((proposal_id, signer)) {
        refused(pre, Seq::empty(), MarketError::NoFrozenAmount)
    } else if pre.spv_lawyer_proposals.contains_key(proposal_id) && !(pre.spv_lawyer_proposals[proposal_id].expiry_block <= now) {
        refused(pre, Seq::empty(), MarketError::VotingStillOngoing)
    } else {
        let r = pre.user_lawyer_votes[(proposal_id, signer)];
        accepted(MarketView {
            user_lawyer_votes: pre.user_lawyer_votes.remove((proposal_id, signer)),
            ..pre
        }, seq![Action::DecreaseFrozen { asset_id: r.asset_id, who: signer, amount: r.power }],
        seq![Event::SharesUnfrozen { proposal_id, asset_id: r.asset_id, voter: signer, amount: r.power }])
    }
}

/// What `remove_lawyer_claim` does; `registered` tells whether the signer is a registered lawyer.
pub open spec fn remove_lawyer_claim_spec(pre: MarketView, signer: AccountId, listing_id: ListingId, registered: bool) -> (MarketView, OutcomeView) {
    if !registered {
        refused(pre, Seq::empty(), MarketError::NoPermission)
    } else if !pre.property_lawyers.contains_key(listing_id) {
        refused(pre, Seq::empty(), MarketError::InvalidIndex)
    } else {
        let d = pre.property_lawyers[listing_id];
        let done = |d2: PropertyLawyerDetails| accepted(MarketView {
            property_lawyers: pre.property_lawyers.insert(listing_id, d2),
            ..pre
        }, seq![Action::DecrementActiveCases { lawyer: signer }], seq![Event::LawyerRemovedFromCase { lawyer: signer, listing_id }]);
        if d.real_estate_developer_lawyer == Some(signer) {
            if d.real_estate_developer_status != DocumentStatus::Pending {
                refused(pre, Seq::empty(), MarketError::AlreadyConfirmed)
            } else {
                done(PropertyLawyerDetails { real_estate_developer_lawyer: None, ..d })
            }
        } else if d.spv_lawyer == Some(signer) {
            if d.spv_status != DocumentStatus::Pending {
                refused(pre, Seq::empty(), MarketError::AlreadyConfirmed)
            } else {
                done(PropertyLawyerDetails { spv_lawyer: None, ..d })
            }
        } else {
            refused(pre, Seq::empty(), MarketError::NoPermission)
        }
    }
}

impl Marketplace {
    /// A lawyer of the property's region offers to represent one side of its
    /// legal process for `costs`, which the collected fees must cover. A
    /// developer-side offer awaits the developer's approval; an SPV-side offer
    /// is put to the share holders' vote.
    pub fn lawyer_claim_property(&mut self, signer: AccountId, listing_id: ListingId, legal_side: LegalProperty, costs: Balance, now: BlockNumber, lawyer_info: Option<LawyerInfo>, asset_info: Option<PropertyAssetInfo>) -> (out: Outcome)
        ensures
            final(self)@ == lawyer_claim_spec(old(self)@, signer, listing_id, legal_side, costs, now, lawyer_info, asset_info).0,
            out@ == lawyer_claim_spec(old(self)@, signer, listing_id, legal_side, costs, now, lawyer_info, asset_info).1,
    {
        let lawyer = match lawyer_info {
            Some(i) => i,
            None => return refusal(MarketError::NoPermission),
        };
        let (asset_id, fees) = match self.listings.get(&listing_id) {
            Some(l) => (l.asset_id, l.collected_fees),
            None => return refusal(MarketError::ListingNotFound),
        };
        let info = match asset_info {
            Some(i) => i,
            None => return refusal(MarketError::NoObjectFound),
        };
        if lawyer.region != info.region {
            return refusal(MarketError::WrongRegion);
        }
        let d = match self.property_lawyers.get(&listing_id) {
            Some(d) => *d,
            None => return refusal(MarketError::InvalidIndex),
        };
        if d.legal_process_expiry < now {
            return refusal(MarketError::LegalProcessFailed);
        }
        let acc = &self.config.accepted_assets;
        let total = match (fees.get(acc, acc.first), fees.get(acc, acc.second)) {
            (Some(a), Some(b)) => match a.checked_add(b) {
                Some(t) => t,
                None => return refusal(MarketError::ArithmeticOverflow),
            },
            _ => return refusal(MarketError::AssetNotSupported),
        };
        if total < costs {
            return refusal(MarketError::CostsTooHigh);
        }
        match legal_side {
            LegalProperty::RealEstateDeveloperSide => {
                if self.proposed_lawyers.contains_key(&listing_id) {
                    return refusal(MarketError::LawyerProposalOngoing);
                }
                if d.real_estate_developer_lawyer.is_some() {
                    return refusal(MarketError::LawyerJobTaken);
                }
                if let Some(l) = d.spv_lawyer {
                    if l == signer {
                        return refusal(MarketError::NoPermission);
                    }
                }
                if let Some(pid) = self.listing_spv_proposal.get(&listing_id) {
                    if let Some(p) = self.spv_lawyer_proposals.get(pid) {
                        if p.lawyer == signer {
                            return refusal(MarketError::NoPermission);
                        }
                    }
                }
                self.proposed_lawyers.insert(listing_id, ProposedDeveloperLawyer { lawyer: signer, costs });
                success(Vec::new(), single(Event::DeveloperLawyerProposed { listing_id, lawyer: signer, proposed_cost: costs }))
            },
            LegalProperty::SpvSide => {
                let actions = single(Action::EnsureSpvCreated { asset_id });
                if self.listing_spv_proposal.contains_key(&listing_id) {
                    return refusal_after(actions, MarketError::LawyerProposalOngoing);
                }
                if d.spv_lawyer.is_some() {
                    return refusal_after(actions, MarketError::LawyerJobTaken);
                }
                if let Some(l) = d.real_estate_developer_lawyer {
                    if l == signer {
                        return refusal_after(actions, MarketError::NoPermission);
                    }
                }
                if let Some(p) = self.proposed_lawyers.get(&listing_id) {
                    if p.lawyer == signer {
                        return refusal_after(actions, MarketError::NoPermission);
                    }
                }
                let pid = self.proposal_counter;
                let next = match pid.checked_add(1) {
                    Some(n) => n,
                    None => return refusal_after(actions, MarketError::ArithmeticOverflow),
                };
                let expiry = now.saturating_add(self.config.lawyer_voting_time);
                self.listing_spv_proposal.insert(listing_id, pid);
                self.spv_lawyer_proposals.insert(pid, ProposedSpvLawyer { lawyer: signer, asset_id, costs, expiry_block: expiry });
                self.lawyer_votings.insert(pid, VoteStats { yes_voting_power: 0, no_voting_power: 0, abstain_voting_power: 0 });
                self.proposal_counter = next;
                success(actions, single(Event::SpvLawyerProposed { listing_id, lawyer: signer, proposed_cost: costs, expiry_block: expiry }))
            },
        }
    }

    /// A share holder votes on the proposed SPV lawyer with `amount` of their
    /// shares, which stay frozen until they unfreeze them; a new vote replaces
    /// their previous one.
    pub fn vote_on_spv_lawyer(&mut self, signer: AccountId, listing_id: ListingId, vote: Vote, amount: u32, now: BlockNumber, voting_power: u32) -> (out: Outcome)
        ensures
            final(self)@ == vote_spec(old(self)@, signer, listing_id, vote, amount, now, voting_power).0,
            out@ == vote_spec(old(self)@, signer, listing_id, vote, amount, now, voting_power).1,
    {
        if amount == 0 {
            return refusal(MarketError::ZeroVoteAmount);
        }
        let pid = match self.listing_spv_proposal.get(&listing_id) {
            Some(p) => *p,
            None => return refusal(MarketError::NoLawyerProposed),
        };
        let p = match self.spv_lawyer_proposals.get(&pid) {
            Some(p) => *p,
            None => return refusal(MarketError::NoLawyerProposed),
        };
        if !(p.expiry_block > now) {
            return refusal(MarketError::VotingExpired);
        }
        if voting_power < amount {
            return refusal(MarketError::NotEnoughShares);
        }
        let mut v = match self.lawyer_votings.get(&pid) {
            Some(v) => *v,
            None => return refusal(MarketError::NoLawyerProposed),
        };
        let mut actions: Vec<Action> = Vec::new();
        match self.user_lawyer_votes.get(&(pid, signer)) {
            Some(r) => {
                actions.push(Action::DecreaseFrozen { asset_id: p.asset_id, who: signer, amount: r.power });
                match r.vote {
                    Vote::Yes => v.yes_voting_power = v.yes_voting_power.saturating_sub(r.power),
                    Vote::No => v.no_voting_power = v.no_voting_power.saturating_sub(r.power),
                    Vote::Abstain => v.abstain_voting_power = v.abstain_voting_power.saturating_sub(r.power),
                }
            },
            None => {},
        }
        let ghost a0 = actions@;
        actions.push(Action::IncreaseFrozen { asset_id: p.asset_id, who: signer, amount });
        assert(actions@ =~= a0 + seq![Action::IncreaseFrozen { asset_id: p.asset_id, who: signer, amount }]);
        match vote {
            Vote::Yes => v.yes_voting_power = v.yes_voting_power.saturating_add(amount),
            Vote::No => v.no_voting_power = v.no_voting_power.saturating_add(amount),
            Vote::Abstain => v.abstain_voting_power = v.abstain_voting_power.saturating_add(amount),
        }
        self.lawyer_votings.insert(pid, v);
        self.user_lawyer_votes.insert((pid, signer), VoteRecord { vote, asset_id: p.asset_id, power: amount });
        success(actions, single(Event::VotedOnLawyer {
            listing_id,
            voter: signer,
            vote,
            voting_power,
            new_yes_power: v.yes_voting_power,
            new_no_power: v.no_voting_power,
            new_abstain_power: v.abstain_voting_power,
            proposal_id: pid,
        }))
    }

    /// The developer approves or rejects the proposed developer-side lawyer.
    /// An approval within the legal process assigns the lawyer and allocates
    /// their costs to the collected fees.
    pub fn approve_developer_lawyer(&mut self, signer: AccountId, listing_id: ListingId, approve: bool, now: BlockNumber) -> (out: Outcome)
        ensures
            final(self)@ == approve_developer_lawyer_spec(old(self)@, signer, listing_id, approve, now).0,
            out@ == approve_developer_lawyer_spec(old(self)@, signer, listing_id, approve, now).1,
    {
        let (developer, fees) = match self.listings.get(&listing_id) {
            Some(l) => (l.real_estate_developer, l.collected_fees),
            None => return refusal(MarketError::ListingNotFound),
        };
        if signer != developer {
            return refusal(MarketError::NoPermission);
        }
        let d = match self.property_lawyers.get(&listing_id) {
            Some(d) => *d,
            None => return refusal(MarketError::InvalidIndex),
        };
        let p = match self.proposed_lawyers.get(&listing_id) {
            Some(p) => *p,
            None => return refusal(MarketError::NoLawyerProposed),
        };
        let finalized = Event::RealEstateLawyerProposalFinalized { listing_id, lawyer: p.lawyer, is_approved: approve };
        if approve && !(now > d.legal_process_expiry) {
            let (costs, allocated) = match allocate_fees(&self.config, d.real_estate_developer_lawyer_costs, &fees, p.costs) {
                Ok(x) => x,
                Err(e) => return refusal(e),
            };
            let mut d2 = d;
            d2.real_estate_developer_lawyer = Some(p.lawyer);
            d2.real_estate_developer_lawyer_costs = costs;
            self.property_lawyers.insert(listing_id, d2);
            self.proposed_lawyers.remove(&listing_id);
            let mut events: Vec<Event> = Vec::new();
            let costs_event = Event::LawyerCostsAllocated { listing_id, lawyer_account: p.lawyer, lawyer_type: LegalProperty::RealEstateDeveloperSide, costs: allocated };
            events.push(costs_event);
            events.push(finalized);
            assert(events@ =~= seq![costs_event, finalized]);
            success(single(Action::IncrementActiveCases { lawyer: p.lawyer }), events)
        } else {
            self.proposed_lawyers.remove(&listing_id);
            success(Vec::new(), single(finalized))
        }
    }

    /// Closes the vote on the SPV lawyer once it has ended. The lawyer is
    /// assigned, and their costs allocated, when more voted yes than no, the
    /// quorum was reached and the legal process has not expired.
    pub fn finalize_spv_lawyer(&mut self, listing_id: ListingId, now: BlockNumber, asset_info: Option<PropertyAssetInfo>) -> (out: Outcome)
        ensures
            final(self)@ == finalize_spv_lawyer_spec(old(self)@, listing_id, now, asset_info).0,
            out@ == finalize_spv_lawyer_spec(old(self)@, listing_id, now, asset_info).1,
    {
        let pid = match self.listing_spv_proposal.get(&listing_id) {
            Some(p) => *p,
            None => return refusal(MarketError::NoLawyerProposed),
        };
        let p = match self.spv_lawyer_proposals.get(&pid) {
            Some(p) => *p,
            None => return refusal(MarketError::NoLawyerProposed),
        };
        if !(p.expiry_block <= now) {
            return refusal(MarketError::VotingStillOngoing);
        }
        let v = match self.lawyer_votings.get(&pid) {
            Some(v) => *v,
            None => return refusal(MarketError::NoLawyerProposed),
        };
        let fees = match self.listings.get(&listing_id) {
            Some(l) => l.collected_fees,
            None => return refusal(MarketError::ListingNotFound),
        };
        let d = match self.property_lawyers.get(&listing_id) {
            Some(d) => *d,
            None => return refusal(MarketError::InvalidIndex),
        };
        let info = match asset_info {
            Some(i) => i,
            None => return refusal(MarketError::NoObjectFound),
        };
        let total = v.yes_voting_power.saturating_add(v.no_voting_power).saturating_add(v.abstain_voting_power);
        let supply = info.share_amount;
        if supply == 0 {
            return refusal(MarketError::NoObjectFound);
        }
        let quorum = self.config.min_voting_quorum.deconstruct() as u32;
        let meets = saturating_mul_u32(total, 100) > saturating_mul_u32(supply, quorum);
        let approved = v.yes_voting_power > v.no_voting_power && meets;
        let finalized = Event::SpvLawyerVoteFinalized {
            listing_id,
            lawyer: p.lawyer,
            is_approved: approved,
            final_yes_power: v.yes_voting_power,
            final_no_power: v.no_voting_power,
            final_abstain_power: v.abstain_voting_power,
        };
        if approved && !(now > d.legal_process_expiry) {
            let (costs, allocated) = match allocate_fees(&self.config, d.spv_lawyer_costs, &fees, p.costs) {
                Ok(x) => x,
                Err(e) => return refusal(e),
            };
            let mut d2 = d;
            d2.spv_lawyer = Some(p.lawyer);
            d2.spv_lawyer_costs = costs;
            self.property_lawyers.insert(listing_id, d2);
            self.spv_lawyer_proposals.remove(&pid);
            self.lawyer_votings.remove(&pid);
            self.listing_spv_proposal.remove(&listing_id);
            let mut events: Vec<Event> = Vec::new();
            let costs_event = Event::LawyerCostsAllocated { listing_id, lawyer_account: p.lawyer, lawyer_type: LegalProperty::SpvSide, costs: allocated };
            events.push(costs_event);
            events.push(finalized);
            assert(events@ =~= seq![costs_event, finalized]);
            success(single(Action::IncrementActiveCases { lawyer: p.lawyer }), events)
        } else {
            self.spv_lawyer_proposals.remove(&pid);
            self.lawyer_votings.remove(&pid);
            self.listing_spv_proposal.remove(&listing_id);
            success(Vec::new(), single(finalized))
        }
    }

    /// Unfreezes the shares a voter used on an SPV lawyer proposal once its vote has ended.
    pub fn unfreeze_spv_lawyer_shares(&mut self, signer: AccountId, proposal_id: ProposalId, now: BlockNumber) -> (out: Outcome)
        ensures
            final(self)@ == unfreeze_vote_spec(old(self)@, signer, proposal_id, now).0,
            out@ == unfreeze_vote_spec(old(self)@, signer, proposal_id, now).1,
    {
        let r = match self.user_lawyer_votes.get(&(proposal_id, signer)) {
            Some(r) => *r,
            None => return refusal(MarketError::NoFrozenAmount),
        };
        if let Some(p) = self.spv_lawyer_proposals.get(&proposal_id) {
            if !(p.expiry_block <= now) {
                return refusal(MarketError::VotingStillOngoing);
            }
        }
        self.user_lawyer_votes.remove(&(proposal_id, signer));
        success(single(Action::DecreaseFrozen { asset_id: r.asset_id, who: signer, amount: r.power }), single(Event::SharesUnfrozen { proposal_id, asset_id: r.asset_id, voter: signer, amount: r.power }))
    }

    /// A lawyer steps back from a case whose documents they have not yet confirmed.
    pub fn remove_lawyer_claim(&mut self, signer: AccountId, listing_id: ListingId, registered: bool) -> (out: Outcome)
        ensures
            final(self)@ == remove_lawyer_claim_spec(old(self)@, signer, listing_id, registered).0,
            out@ == remove_lawyer_claim_spec(old(self)@, signer, listing_id, registered).1,
    {
        if !registered {
            return refusal(MarketError::NoPermission);
        }
        let mut d = match self.property_lawyers.get(&listing_id) {
            Some(d) => *d,
            None => return refusal(MarketError::InvalidIndex),
        };
        let is_developer_lawyer = match d.real_estate_developer_lawyer {
            Some(l) => l == signer,
            None => false,
        };
        let is_spv_lawyer = match d.spv_lawyer {
            Some(l) => l == signer,
            None => false,
        };
        if is_developer_lawyer {
            if !matches!(d.real_estate_developer_status, DocumentStatus::Pending) {
                return refusal(MarketError::AlreadyConfirmed);
            }
            d.real_estate_developer_lawyer = None;
        } else if is_spv_lawyer {
            if !matches!(d.spv_status, DocumentStatus::Pending) {
                return refusal(MarketError::AlreadyConfirmed);
            }
            d.spv_lawyer = None;
        } else {
            return refusal(MarketError::NoPermission);
        }
        self.property_lawyers.insert(listing_id, d);
        success(single(Action::DecrementActiveCases { lawyer: signer }), single(Event::LawyerRemovedFromCase { lawyer: signer, listing_id }))
    }
}

} // verus!
