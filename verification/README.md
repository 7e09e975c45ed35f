# cw20-adapter

A CosmWasm contract that adapts CW20 tokens to the Injective token factory.
A registered CW20 contract that sends tokens to the adapter has the same
amount of the denom `factory/{adapter}/{cw20}` minted to the sender it names;
redeeming such tokens burns them and makes the CW20 contract transfer the same
amount to a recipient.

* `src/` is the verified library (Verus): message types, the denom format and
  its parser, and the handlers of every execute message. A handler reaches the
  chain (storage, address validation, queries) only through host operations
  passed in as closures; its contract states the answer for every answer the
  host gives. `src/laws.rs` holds the properties that relate the handlers.
* `app/` holds the CosmWasm entry points: they read the chain for the library
  and turn its messages into Injective and Wasm messages.
* `tests/` runs the library on concrete values.
