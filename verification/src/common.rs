//! Small rules shared by several marketplace calls.
use vstd::prelude::*;
use crate::asset_map::AcceptedAssets;
use crate::per_thing::{mul_ceil_spec, mul_floor_spec, PERBILL_ACCURACY};
use crate::types::{AccountRef, Action, Balance, BlockNumber, ListingId, MarketConfig, MarketError};

verus! {

/// `a + b`, saturating at the largest block number.
pub open spec fn sat_add(a: BlockNumber, b: BlockNumber) -> BlockNumber {
    if a + b > u64::MAX {
        u64::MAX
    } else {
        (a + b) as u64
    }
}

/// `a - b`, saturating at zero.
pub open spec fn sat_sub_u32(a: u32, b: u32) -> u32 {
    if a < b {
        0
    } else {
        (a - b) as u32
    }
}

/// `a + b`, saturating at the largest `u32`.
pub open spec fn sat_add_u32(a: u32, b: u32) -> u32 {
    if a + b > u32::MAX {
        u32::MAX
    } else {
        (a + b) as u32
    }
}

/// `a * b`, saturating at the largest `u32`.
pub open spec fn sat_mul_u32(a: u32, b: u32) -> u32 {
    if a * b > u32::MAX {
        u32::MAX
    } else {
        (a * b) as u32
    }
}

/// `a * b`, saturating at the largest `u32`.
pub fn saturating_mul_u32(a: u32, b: u32) -> (r: u32)
    ensures
        r == sat_mul_u32(a, b),
{
    match a.checked_mul(b) {
        Some(x) => x,
        None => u32::MAX,
    }
}

/// The payment-asset transfer made for `amount`: none when it is zero.
pub open spec fn transfer_spec(asset: u32, from: AccountRef, to: AccountRef, amount: Balance) -> Seq<Action> {
    if amount == 0 {
        Seq::empty()
    } else {
        seq![Action::Transfer { asset, from, to, amount }]
    }
}

/// Asks for a payment-asset transfer of `amount`, unless it is zero.
pub fn transfer_funds(actions: &mut Vec<Action>, asset: u32, from: AccountRef, to: AccountRef, amount: Balance)
    ensures
        final(actions)@ == old(actions)@ + transfer_spec(asset, from, to, amount),
{
    if amount != 0 {
        actions.push(Action::Transfer { asset, from, to, amount });
    }
    assert(final(actions)@ =~= old(actions)@ + transfer_spec(asset, from, to, amount));
}

/// The lower and the higher accepted asset: the order in which a map keyed by
/// them is walked.
pub open spec fn ascending(acc: AcceptedAssets) -> (u32, u32) {
    if acc.first <= acc.second {
        (acc.first, acc.second)
    } else {
        (acc.second, acc.first)
    }
}

pub fn ascending_assets(acc: &AcceptedAssets) -> (r: (u32, u32))
    ensures
        r == ascending(*acc),
{
    if acc.first <= acc.second {
        (acc.first, acc.second)
    } else {
        (acc.second, acc.first)
    }
}

/// The id after `listing_id`, unless it overflows.
pub open spec fn spec_next_listing_id(listing_id: ListingId) -> Result<ListingId, MarketError> {
    if listing_id < u32::MAX {
        Ok((listing_id + 1) as u32)
    } else {
        Err(MarketError::ArithmeticOverflow)
    }
}

/// Calculates the next listing id by incrementing the given one.
pub fn next_listing_id(listing_id: ListingId) -> (r: Result<ListingId, MarketError>)
    ensures
        r == spec_next_listing_id(listing_id),
{
    match listing_id.checked_add(1) {
        Some(n) => Ok(n),
        None => Err(MarketError::ArithmeticOverflow),
    }
}

/// The account of the marketplace itself.
pub fn account_id() -> (r: AccountRef)
    ensures
        r == AccountRef::Marketplace,
{
    AccountRef::Marketplace
}

/// The escrow account of the property with `asset_id`.
pub fn property_account_id(asset_id: u32) -> (r: AccountRef)
    ensures
        r == AccountRef::Property(asset_id),
{
    AccountRef::Property(asset_id)
}

/// The account of the treasury.
pub fn treasury_account_id() -> (r: AccountRef)
    ensures
        r == AccountRef::Treasury,
{
    AccountRef::Treasury
}

/// The largest number of shares one account may hold of a property of
/// `total_supply` shares, rounded down. Holdings must stay strictly below it.
pub open spec fn max_shares(cfg: MarketConfig, total_supply: u32) -> int {
    mul_floor_spec(total_supply as int, cfg.max_ownership.value() as int, PERBILL_ACCURACY as int)
}

/// The marketplace fee on `price`, rounded up.
pub open spec fn fee_on(cfg: MarketConfig, price: Balance) -> int {
    mul_ceil_spec(price as int, cfg.marketplace_fee.value() as int, PERBILL_ACCURACY as int)
}

} // verus!
