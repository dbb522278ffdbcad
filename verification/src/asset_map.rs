//! Per-asset amounts keyed by the two payment assets that the marketplace accepts.
//!
//! Every amount map of the marketplace (collected funds, fees, taxes, what an
//! investor paid, lawyer costs, payouts, refunds) is keyed by accepted payment
//! assets only, and at most by the two of them. An `AssetMap` holds one slot per
//! accepted asset; as a map it is `first` under the first accepted asset and
//! `second` under the second one (when the two assets differ).
use vstd::prelude::*;
use crate::types::MarketError;

verus! {

/// The two payment assets that the marketplace accepts, in configuration order.
#[derive(Clone, Copy, PartialEq, Eq, Debug)]
pub struct AcceptedAssets {
    pub first: u32,
    pub second: u32,
}

impl AcceptedAssets {
    pub open spec fn spec_contains(self, asset: u32) -> bool {
        asset == self.first || asset == self.second
    }

    /// Whether `asset` is one of the accepted payment assets.
    pub fn contains(&self, asset: u32) -> (r: bool)
        ensures
            r == self.spec_contains(asset),
    {
        asset == self.first || asset == self.second
    }
}

/// A map from accepted payment assets to values, bounded like the on-chain map.
#[derive(Clone, Copy, PartialEq, Eq, Debug)]
pub struct AssetMap<T> {
    pub first: Option<T>,
    pub second: Option<T>,
}

impl<T: Copy> AssetMap<T> {
    /// The value stored under `asset`.
    pub open spec fn spec_get(self, acc: AcceptedAssets, asset: u32) -> Option<T> {
        if asset == acc.first {
            self.first
        } else if asset == acc.second {
            self.second
        } else {
            None
        }
    }

    /// The number of keys in the map.
    pub open spec fn spec_len(self, acc: AcceptedAssets) -> nat {
        (if self.first is Some { 1nat } else { 0nat }) + (if acc.second != acc.first
            && self.second is Some { 1nat } else { 0nat })
    }

    /// The map with `asset` set to `value` (for an accepted `asset`).
    pub open spec fn spec_set(self, acc: AcceptedAssets, asset: u32, value: T) -> Self {
        if asset == acc.first {
            AssetMap { first: Some(value), ..self }
        } else {
            AssetMap { second: Some(value), ..self }
        }
    }

    /// Whether a bounded insertion of `asset` succeeds: the key is present, or there is room.
    pub open spec fn spec_can_insert(self, acc: AcceptedAssets, asset: u32, bound: u32) -> bool {
        self.spec_get(acc, asset) is Some || self.spec_len(acc) < bound
    }

    /// The empty map.
    pub fn new() -> (r: Self)
        ensures
            r.first is None,
            r.second is None,
    {
        AssetMap { first: None, second: None }
    }

    /// The value stored under `asset`.
    pub fn get(&self, acc: &AcceptedAssets, asset: u32) -> (r: Option<T>)
        ensures
            r == self.spec_get(*acc, asset),
    {
        if asset == acc.first {
            self.first
        } else if asset == acc.second {
            self.second
        } else {
            None
        }
    }

    /// Inserts `value` under the accepted `asset` unless the map is full and `asset` is new.
    pub fn try_insert(&mut self, acc: &AcceptedAssets, asset: u32, value: T, bound: u32) -> (r:
        bool)
        requires
            acc.spec_contains(asset),
        ensures
            r == old(self).spec_can_insert(*acc, asset, bound),
            *final(self) == if r {
                old(self).spec_set(*acc, asset, value)
            } else {
                *old(self)
            },
    {
        let present = self.get(acc, asset).is_some();
        let first_len: u32 = if self.first.is_some() { 1 } else { 0 };
        let second_len: u32 = if acc.second != acc.first && self.second.is_some() { 1 } else { 0 };
        if present || first_len + second_len < bound {
            if asset == acc.first {
                self.first = Some(value);
            } else {
                self.second = Some(value);
            }
            true
        } else {
            false
        }
    }
}

/// The result of adding `value` to the amount under `asset`, inserting it if absent.
pub open spec fn spec_update(m: AssetMap<u128>, acc: AcceptedAssets, asset: u32, value: u128, bound: u32) -> Result<AssetMap<u128>, MarketError> {
    match m.spec_get(acc, asset) {
        Some(existing) => if existing + value > u128::MAX {
            Err(MarketError::ArithmeticOverflow)
        } else {
            Ok(m.spec_set(acc, asset, (existing + value) as u128))
        },
        None => if m.spec_can_insert(acc, asset, bound) {
            Ok(m.spec_set(acc, asset, value))
        } else {
            Err(MarketError::ExceedsMaxEntries)
        },
    }
}

/// Adds `value` to the amount under the accepted `asset`, inserting it if absent.
pub fn update_map(m: &mut AssetMap<u128>, acc: &AcceptedAssets, asset: u32, value: u128, bound: u32) -> (r: Result<(), MarketError>)
    requires
        acc.spec_contains(asset),
    ensures
        match spec_update(*old(m), *acc, asset, value, bound) {
            Ok(n) => r is Ok && *final(m) == n,
            Err(e) => r == Err::<(), MarketError>(e) && *final(m) == *old(m),
        },
{
    match m.get(acc, asset) {
        Some(existing) => {
            match existing.checked_add(value) {
                Some(sum) => {
                    if asset == acc.first {
                        m.first = Some(sum);
                    } else {
                        m.second = Some(sum);
                    }
                    Ok(())
                },
                None => Err(MarketError::ArithmeticOverflow),
            }
        },
        None => {
            if m.try_insert(acc, asset, value, bound) {
                Ok(())
            } else {
                Err(MarketError::ExceedsMaxEntries)
            }
        },
    }
}

/// The map holding zero under each accepted asset, as far as the bound allows.
pub open spec fn spec_initial_funds(acc: AcceptedAssets, bound: u32) -> Result<AssetMap<u128>, MarketError> {
    let empty = AssetMap::<u128> { first: None, second: None };
    if !empty.spec_can_insert(acc, acc.first, bound) {
        Err(MarketError::ExceedsMaxEntries)
    } else {
        let one = empty.spec_set(acc, acc.first, 0u128);
        if !one.spec_can_insert(acc, acc.second, bound) {
            Err(MarketError::ExceedsMaxEntries)
        } else {
            Ok(one.spec_set(acc, acc.second, 0u128))
        }
    }
}

/// Creates the map holding zero under each accepted asset.
pub fn create_initial_funds(acc: &AcceptedAssets, bound: u32) -> (r: Result<AssetMap<u128>, MarketError>)
    ensures
        r == spec_initial_funds(*acc, bound),
{
    let mut map: AssetMap<u128> = AssetMap::new();
    if !map.try_insert(acc, acc.first, 0, bound) {
        return Err(MarketError::ExceedsMaxEntries);
    }
    if !map.try_insert(acc, acc.second, 0, bound) {
        return Err(MarketError::ExceedsMaxEntries);
    }
    Ok(map)
}

} // verus!
