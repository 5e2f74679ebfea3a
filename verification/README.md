# position_nft

A position NFT contract: each liquidity position is a token carrying its
owner, pool, tick range, liquidity and creation time. A single minter,
fixed once at initialization, mints and burns tokens; owners transfer them.

- `src/` is the verified library (Verus).
  - `address.rs`: addresses and the authorization an invocation carries.
  - `error.rs`: contract errors, their codes, and the ledger error value.
  - `position.rs`: position metadata and transfer events.
  - `key.rs`: the decimal text of token ids used in storage keys.
  - `plan.rs`: the decision each call makes from what it read from storage.
  - `contract.rs`: the contract together with its storage, specified over
    `NftState`.
  - `laws.rs`: properties that span calls (invariant, atomicity of failed
    calls, authorization, id uniqueness, read-after-write).
- `app/` is the Soroban contract around the library: storage, ledger
  authorization, timestamps and events.
- `tests/` runs the library on concrete scenarios.
