# bounty_escrow

A bounty escrow whose rules are verified with Verus. Depositors lock funds
for a bounty; the admin releases them to contributors, in full or in parts,
or they are refunded to the depositor after the deadline or on an admin
approval. Around that core sit pause switches, dispute claims, single-use
claim tickets, delegated capabilities, owner locks, clones and archiving,
multisignature approvals, an amount policy, rate limiting, queries,
statistics and monitoring counters, and a small core contract that keeps an
administrator and a version number.

## Layout

- `src/` — the verified library. `state.rs` holds the contract state and its
  well-formedness; every entrypoint is a method on it that returns an
  `effects::Outcome`: the result, the authorizations it demands, the token
  transfers it performs and the events it emits. A failed entrypoint never
  changes the state. The modules group the entrypoints by concern
  (`lifecycle`, `batch`, `claims`, `tickets`, `capability`, `delegated`,
  `emergency`, `controls`, `pause`, `admin`, `anti_abuse`, `queries`,
  `stats`, `simulate`, `monitoring`, `grainlify`, `asset`), and `laws.rs`
  states and proves the properties that span several operations.
- `tests/` — executable tests that drive the library against a model of token
  balances.
- `app/` — the Soroban contract around the library: ledger storage, address
  handles, `require_auth`, token transfers and event publishing.

## Storage

The contract's persistent data is held in the library as std `HashMap`s keyed
by `u64` and std `Vec`s, whose behaviour vstd specifies. The host's own
`Map` and `Vec` values exist only inside the contract environment (`Env`)
that creates them, so the library cannot hold or reason about them; addresses
likewise become numeric handles. `app/` moves the state between these values
and ledger storage.
