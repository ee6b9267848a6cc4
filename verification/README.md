# vero_core_contracts

The decision logic of the Vero Core contract (guardian consensus, task
lifecycle, token locks with a withdrawal timelock, fees, reward streams,
multi-signature upgrades, snapshots, a circuit breaker and role-based access
control), written in Verus and proved against its contracts.

- `src/` is the verified library. `VeroContract` holds the whole contract
  state; every entry point is a method whose `ensures` states the resulting
  state and result over the view `ContractView`. Refusals leave the state
  unchanged. Laws that span several entry points are public proof functions,
  most in `src/contract/laws.rs`; those of batches, upgrade approvals, the
  migration cache and the consensus tally stand beside their definitions in
  `batch.rs`, `upgrade.rs`, `migrate.rs` and `src/consensus.rs`.
- `app/` is the Soroban contract around it: it loads the state from instance
  storage, checks authorization, calls the library, stores the new state,
  publishes the events the library returns and performs token transfers and
  cross-contract calls.
- `tests/` runs the library on concrete scenarios.
