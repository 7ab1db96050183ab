# meterly

Meterly is a metering and settlement layer for paid API calls, made of three contracts:

- **registry** — the catalogue of API providers: price per call, active flag, metadata URI.
- **escrow** — the balance sheet: callers deposit funds per (caller, provider) pair,
  withdraw what is unused, and the receipt contract settles calls from those balances
  to the provider.
- **receipt** — the record of API calls: a receipt needs a fresh nonce of the caller, an
  amount within the provider's price and a new hash, and is settled through the escrow in
  the same invocation.

## Layout

- `src/` — the verified library (Verus). Each contract is a state machine: an abstract
  state with spec transition functions (`RegistryState`, `EscrowState`, `ReceiptState`),
  and an executable contract (`RegistryContract`, `EscrowContract`, `ReceiptContract`)
  whose every operation is proved to follow its transition. Each operation takes its
  decisions through verified decision functions (`deposit_start`, `deposit_finish`,
  `withdraw_decision`, `settle_decision`, `submit_start`, `submit_finish`,
  `check_update_price`, ...), which the deployed contracts call as well. Storage is a
  verified keyed list (`src/keyed.rs`). `src/laws.rs` holds the properties proved across
  operations and over any sequence of invocations: invariants, write-once wiring, replay
  protection, permanence of receipts, atomic settlement and conservation of escrowed
  funds.
- `app/` — the contracts as deployed on Soroban: authorisation, ledger storage and its
  TTL, cross-contract calls, token transfers and events, around the library's decisions.
- `tests/` — tests of the library.
