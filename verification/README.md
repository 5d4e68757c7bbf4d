# escrow

Escrow of token payments between a buyer and a seller, with a resolver for
disputes and a protocol fee of at most 3%, verified with Verus.

- `src/model.rs` states the rules as a state machine over mathematical values.
- `src/contract.rs` implements the entry points; each is proved to follow the model.
- `src/laws.rs` proves what holds across calls (well-formedness is kept, paused
  contracts refuse escrow calls, settled escrows are final, funds paid in are
  paid out in full, ids are not reused, ...).
- `src/fees.rs` computes the fee without overflow.
- `app/` runs the library on the Soroban host: storage, authorisation, token
  transfers and events.
