//! Releasing what an investor holds for a primary-sale purchase that will not happen.
use vstd::prelude::*;
use crate::asset_map::AssetMap;
use crate::types::{AccountId, Action, Balance, MarketConfig, MarketError, ShareOwnerDetails};

verus! {

/// Either the refunds recorded so far, or the actions asked so far and the error that stopped.
pub type Refunding = Result<(AssetMap<(Balance, Balance)>, Seq<Action>), (Seq<Action>, MarketError)>;

/// Releases what the investor holds in `asset` for a purchase: exactly the
/// principal, marketplace fee and tax that buying put on hold. When `record`
/// is set, the principal and tax are recorded as refunded.
pub open spec fn unfreeze_asset(cfg: MarketConfig, d: ShareOwnerDetails, signer: AccountId, asset: u32, record: bool, refunds: AssetMap<(Balance, Balance)>) -> Refunding {
    let acc = cfg.accepted_assets;
    match d.paid_funds.spec_get(acc, asset) {
        None => Ok((refunds, Seq::empty())),
        Some(paid) => if paid == 0 {
            Ok((refunds, Seq::empty()))
        } else {
            let tax = match d.paid_tax.spec_get(acc, asset) {
                Some(t) => t,
                None => 0,
            };
            let fee = match d.paid_fees.spec_get(acc, asset) {
                Some(f) => f,
                None => 0,
            };
            if paid + tax > u128::MAX || paid + tax + fee > u128::MAX {
                Err((Seq::empty(), MarketError::ArithmeticOverflow))
            } else {
                let acts = seq![Action::ReleaseFunds { asset, who: signer, amount: (paid + tax + fee) as u128 }];
                if !record {
                    Ok((refunds, acts))
                } else if refunds.spec_can_insert(acc, asset, cfg.max_accepted_assets) {
                    Ok((refunds.spec_set(acc, asset, (paid, tax)), acts))
                } else {
                    Err((acts, MarketError::ExceedsMaxEntries))
                }
            }
        },
    }
}

/// Releases what the investor holds in every accepted asset, in configuration order.
#[verifier::opaque]
pub open spec fn unfreeze_all(cfg: MarketConfig, d: ShareOwnerDetails, signer: AccountId, record: bool) -> Refunding {
    let empty = AssetMap::<(Balance, Balance)> { first: None, second: None };
    match unfreeze_asset(cfg, d, signer, cfg.accepted_assets.first, record, empty) {
        Err(x) => Err(x),
        Ok((r1, a1)) => match unfreeze_asset(cfg, d, signer, cfg.accepted_assets.second, record, r1) {
            Err((a2, e)) => Err((a1 + a2, e)),
            Ok((r2, a2)) => Ok((r2, a1 + a2)),
        },
    }
}

fn unfreeze_one(cfg: &MarketConfig, d: &ShareOwnerDetails, signer: AccountId, asset: u32, record: bool, refunds: &mut AssetMap<(Balance, Balance)>, actions: &mut Vec<Action>) -> (r: Result<(), MarketError>)
    requires
        cfg.accepted_assets.spec_contains(asset),
    ensures
        match unfreeze_asset(*cfg, *d, signer, asset, record, *old(refunds)) {
            Ok((m, a)) => r is Ok && *final(refunds) == m && final(actions)@ == old(actions)@ + a,
            Err((a, e)) => r == Err::<(), MarketError>(e) && final(actions)@ == old(actions)@ + a,
        },
{
    let acc = &cfg.accepted_assets;
    let ghost a0 = actions@;
    let paid = match d.paid_funds.get(acc, asset) {
        Some(p) => p,
        None => {
            assert(actions@ =~= a0 + Seq::<Action>::empty());
            return Ok(());
        },
    };
    if paid == 0 {
        assert(actions@ =~= a0 + Seq::<Action>::empty());
        return Ok(());
    }
    let tax = match d.paid_tax.get(acc, asset) {
        Some(t) => t,
        None => 0,
    };
    let fee = match d.paid_fees.get(acc, asset) {
        Some(f) => f,
        None => 0,
    };
    let total = match paid.checked_add(tax) {
        Some(x) => match x.checked_add(fee) {
            Some(y) => y,
            None => {
                assert(actions@ =~= a0 + Seq::<Action>::empty());
                return Err(MarketError::ArithmeticOverflow);
            },
        },
        None => {
            assert(actions@ =~= a0 + Seq::<Action>::empty());
            return Err(MarketError::ArithmeticOverflow);
        },
    };
    actions.push(Action::ReleaseFunds { asset, who: signer, amount: total });
    assert(actions@ =~= a0 + seq![Action::ReleaseFunds { asset, who: signer, amount: total }]);
    if record {
        if !refunds.try_insert(acc, asset, (paid, tax), cfg.max_accepted_assets) {
            return Err(MarketError::ExceedsMaxEntries);
        }
    }
    Ok(())
}

/// Releases what the investor holds for a purchase in every accepted asset.
pub fn unfreeze_shares(cfg: &MarketConfig, d: &ShareOwnerDetails, signer: AccountId, record: bool, actions: &mut Vec<Action>) -> (r: Result<AssetMap<(Balance, Balance)>, MarketError>)
    ensures
        match unfreeze_all(*cfg, *d, signer, record) {
            Ok((m, a)) => r == Ok::<AssetMap<(Balance, Balance)>, MarketError>(m) && final(actions)@ == old(actions)@ + a,
            Err((a, e)) => r == Err::<AssetMap<(Balance, Balance)>, MarketError>(e) && final(actions)@ == old(actions)@ + a,
        },
{
    proof {
        reveal(unfreeze_all);
    }
    let ghost p = actions@;
    let mut refunds: AssetMap<(Balance, Balance)> = AssetMap::new();
    let ghost empty = refunds;
    unfreeze_one(cfg, d, signer, cfg.accepted_assets.first, record, &mut refunds, actions)?;
    let ghost a1 = unfreeze_asset(*cfg, *d, signer, cfg.accepted_assets.first, record, empty)->Ok_0.1;
    let ghost r1 = refunds;
    let res = unfreeze_one(cfg, d, signer, cfg.accepted_assets.second, record, &mut refunds, actions);
    proof {
        match unfreeze_asset(*cfg, *d, signer, cfg.accepted_assets.second, record, r1) {
            Ok((_, a2)) => {
                assert(p + a1 + a2 =~= p + (a1 + a2));
            },
            Err((a2, _)) => {
                assert(p + a1 + a2 =~= p + (a1 + a2));
            },
        }
    }
    res?;
    Ok(refunds)
}

} // verus!
