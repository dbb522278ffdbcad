pub mod asset_map;
pub mod claim;
pub mod common;
pub mod laws;
pub mod lawyers;
pub mod per_thing;
pub mod primary;
pub mod refunds;
pub mod secondary;
pub mod settlement;
pub mod state;
pub mod types;
pub mod withdrawals;
