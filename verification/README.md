# luna_swap

Three CosmWasm contracts for Terra, with their decision logic verified in Verus:

- `oracle`: stores a price and answers price queries.
- `swap`: sells tokens of a cw20 contract for luna at the oracle's price and pays
  its luna balance out to its owner.
- `swap2`: sells tokens the same way, stakes the luna it takes in, and in steps
  collects rewards, swaps them to luna, pays luna out and undelegates.

`src/` holds the verified library: each entry point is a function from the stored
state, the message and the answers of the chain's queries to the new state and the
response. `src/outside.rs` holds the trusted wrappers around cosmwasm-std, cw0 and
cw20. `app/` holds the CosmWasm entry points that read storage and queries, call the
library and convert its answers. `tests/` runs the library on concrete values.
