# raffle

The rules of an on-chain raffle, verified with Verus.

- `src/` is the library: the account records (`state`), addresses (`key`), the
  instructions as transitions on those records (`processor::{create, buy, close, update}`),
  the reading of token-metadata creators for NFT-holder discounts (`metadata`, through
  the token-metadata crate's decoder), and properties that span the instructions (`laws`).
- `app/` is the Anchor program around it: account validation and storage, the clock,
  reading discount records, lamport and token transfers, and account deletion.
- `tests/` runs the library on concrete values.
