# pumpfun

A trading client for pump.fun bonding curves on Solana. What the client decides is
written and proved in Verus; what it has to ask the chain for is left to its caller.

- `src/pumpfun/order.rs`: how many tokens to order, given what the curve quotes.
- `src/pumpfun/buy.rs`: the instructions and transactions of a purchase, and how a
  purchase proceeds from one answer to the next, with or without tips.
- `src/pumpfun/laws.rs`: what holds of every purchase, whatever its services answer.
- `src/lib.rs`, `src/swqos.rs`, `src/common.rs`: the client, the fee clients it
  uses, and its settings.
- `src/refresh.rs`: how the cached blockhash is kept fresh.
- `src/chain.rs`, `src/keys.rs`, `src/keypair.rs`: addresses, instructions and
  messages as plain values, and who has to sign for them.
- `src/sdk.rs`: the calls into the Solana SDK and the associated token account
  crate, with the contracts that the proofs rely on.
- `app/`: the asynchronous client around the library.
