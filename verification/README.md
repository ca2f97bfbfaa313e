# dsm_exchange_node

An exchange node for DSM: a small HTTP service that holds one DSM wallet identity, shows incoming
deposits and balances, sends transfers and relays acknowledgements to the storage nodes.

The library under `src/` is verified with Verus. It decides; it performs no I/O.

- `config`: the configuration file's rules.
- `error`, `json`: errors, their HTTP answers, and the JSON bodies.
- `hexcode`, `text`, `search`: hexadecimal and decimal text, trimming, first matches.
- `reply`: calls into the SDK's router, and what its answers come to.
- `history`: stored transactions and how they are shown.
- `routes`: one module per endpoint. A handler is split where it calls the SDK or the network: one
  function prepares the call, the next takes its result.
- `node`: start-up. The order of the steps, the search for the wallet seed, the identity, and the
  registration with the storage nodes are state machines: each says what to do next and takes in
  what became of it.

`app/` is the program around it: the axum server, the DSM SDK, the file system and the network.
It needs the `dsm_sdk` crate, which is not on crates.io.

`tests/` run the library on concrete requests and start-ups.
