# arc_node

Rules of an Arc node, written in Verus: executable Rust with contracts that are proved.

- `src/cli_version.rs`: which consensus images are supported, and which CLI flags an
  image knows.
- `src/rpc_middleware/`: what happens to a JSON-RPC request before the node handles
  it. `batch.rs` limits batches and puts their responses together, `pending.rs` keeps
  pending transactions and the pending block from clients, `replay.rs` rejects raw
  transactions without replay protection, `relay.rs` relays raw transactions to other
  nodes, `layer.rs` stacks these up. `params.rs` reads parameters, and `jsonrpc.rs` holds
  requests, errors and responses.
- `src/payload/`: how a block is filled. `build_loop.rs` is the loop over the pool's
  transactions, `gas.rs` has the limits and the revenue, `outcome.rs` sorts the results
  of executions, `eviction.rs` deals with transactions that cannot be included,
  `builder.rs` has the builders and their settings, `dump.rs` shows transaction data for
  the log, and `u256.rs` counts fees.
- `src/text.rs`: numerals, fields and comparisons of text.

The library decides; it awaits nothing, and reads no clock, pool or socket. `app/` does
that, and acts on what the library answers. Functions marked `external_body` call an
outside crate; the comment above each says what is claimed of it. Functions named
`law_` state what holds of the library as a whole.
