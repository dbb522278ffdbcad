# Real-estate marketplace

A verified library for a marketplace of fractionalised real estate: developers
list properties as shares, investors buy and claim them, lawyers chosen by the
developer and by the share holders carry out the legal process, and the sale is
either completed (every party is paid from the property's account) or refunded.
Claimed shares can be resold, offered on and sent between investors.

The library decides and the chain acts. Each call takes the marketplace's
storage, the facts it needs about the rest of the chain (the block number,
region and lawyer records, share balances, whether an account is compliant),
and returns an `Outcome`: the actions the chain has to perform, in order, the
events to deposit, or why the call was refused. A refused call changes nothing.

- `src/` – the verified library. `state.rs` holds the storage and its view,
  `primary.rs`, `claim.rs`, `secondary.rs`, `lawyers.rs`, `settlement.rs`,
  `withdrawals.rs` and `refunds.rs` the calls, each with a spec function that
  its contract refers to, and `laws.rs` the properties that relate calls.
  `per_thing.rs` and `asset_map.rs` hold the fractions and per-asset amounts.
- `tests/` – scenarios run against a small simulated chain, and the rules on
  concrete values.
- `app/` – the dispatcher that performs a call's actions on a chain and undoes
  the call when one of them fails, and (`calls.rs`) each call as the chain
  receives it: the caller's role is checked, the records the call decides on
  are looked up through a `Runtime`, and a new listing's tokens are created.
