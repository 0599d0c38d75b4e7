# op_succinct

The decisions of a validity proposer for an optimistic rollup, written and proved in
[Verus](https://github.com/verus-lang/verus).

The proposer adds proof requests for block ranges, has them proved by a network or a cluster,
aggregates completed ranges, and relays the aggregations to a contract on L1. What it decides on the
way is the library under `src/`: functions over plain values, and passes written as chains of steps.
A step names the one thing to do next; what came of it is handed back as an event, and `next` says
what follows. Every function states in its contract what it returns for every input, and every module
closes with the laws that hold across its functions (`law_...`).

- `src/proposer/`: the passes of the proposer. `cycle` is the loop around them.
- `src/relay_rejection.rs`: why the chain refused an aggregation, read from its revert data.
- `src/client/`: the client program: blobs, oracle requests, derivation and validation.
- `src/host.rs`, `src/server.rs`, `src/stuck.rs`: inputs of the programs, answers of the proof server,
  clearing of stuck transactions.
- `src/outside.rs`: the calls into other crates, with the contracts that are taken on trust.
- `app/`: ordinary Rust that carries the steps out: chains, databases, provers, clusters and clocks
  are traits there.
- `tests/`: the library on concrete values.
