# solana_airdrop

A Merkle-proof token airdrop for Solana: one Merkle root is stored per
airdrop, and each listed wallet claims a fixed amount once by proving its
membership.

- `src/` is the verified core (Verus): byte order on keys (`bytes`), SHA-256
  through `solana_program::hash` (`hashing`), Merkle proofs with sorted-pair
  hashing (`merkle`), the accounts, events and errors (`state`), the
  decisions of the five instructions (`instructions`), and properties that
  hold across them (`laws`).
- `app/` is the Anchor program around it: account constraints, token and
  vesting program calls, the clock and events.
- `tests/` runs the core on concrete trees and accounts.
