# oracle_manager

A CosmWasm contract on the Router chain that relays Band price packets to
contracts on other chains and charges the relay to fee payers.

- `src/` is the verified library. `OracleState` holds the contract's storage;
  each handler (`contract`, `execution`, `reply`, `sudo`, `queries`,
  `outbound`) is specified by a spec function from the storage model and the
  call to the new model and the result, and proved against it. `laws`
  proves properties that span calls: the two-step admin handover, that a
  refused call changes nothing, how deposits, charges and refunds add up,
  and that a contract migrates to this code once.
- `src/bindings.rs` holds the trusted calls into `ethabi`, `solabi`,
  `router-wasm-bindings`, `cosmwasm-std`, `serde-cw-value` and
  `serde-json-wasm`, each with the contract it is believed to meet.
- `app/` holds the entry points: it moves the storage between
  `cw-storage-plus` and `OracleState`, asks the host to validate addresses,
  and turns the library's responses and errors into CosmWasm ones.
- `tests/` runs the library on concrete calls.
