# bluecollar

Verified core of the BlueCollar contracts on Soroban: dispute resolution, and
the read-caching views of the worker registry and of the market.

## Layout

- `src/sdk.rs` declares the types of the Soroban SDK that the contracts carry
  through, and the few operations on them that the rules rest on.
- `src/dispute/` is the dispute contract. `types` holds its records, keys, errors
  and the model of its storage; `lifecycle` the steps of a dispute's life and what
  a settlement pays; `rules` when an invocation is refused and what it asks of the
  host; `contract` the operations; `views` the read-caching views. `host` is the
  only way to the host.
- `src/dispute/soundness.rs`, `funds.rs`, `laws.rs` and `history.rs` prove what
  holds of the contract as a whole: the invariant of its storage, where the tokens
  go, how the operations work together, and what holds over any run of them.
- `src/ledger.rs` is what the views of the registry and of the market see of the
  ledger. `src/registry/` and `src/market/` hold those views and their laws.
- `app/` holds the dispute contract's entry points.
- `tests/` runs the library on the SDK's test host.

## How contracts are stated

An operation takes the `Env` by `&mut`. Its contract says what the storage holds
afterwards and which requests went to the host, in order: reads, writes,
authorisations, transfers and events. So the number of storage reads of a view is
part of its contract. A refused operation returns an error and says exactly when.

What the host, a token contract or the clock decides is taken from its reply. The
functions in `sdk`, `dispute::host` and `ledger` that make these calls are trusted;
each says what it takes the SDK to do.
