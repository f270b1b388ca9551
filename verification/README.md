# bitcoin-dashboard

A statistics dashboard for a Bitcoin Core node: collectors poll the node over
JSON-RPC, store blocks, mempool snapshots and peer snapshots in SQLite, and an
HTTP server serves them as JSON.

* `src/` is the verified library (Verus): the block-height schedule of a
  collection cycle with its reorg re-processing, the block row mapping, mining
  pool attribution from coinbase data, per-peer bandwidth deltas between
  samples, peer address masking, and timestamps.
* `app/` is the program around it: the RPC client, the SQLite store, the HTTP
  API, the collector loops, and the floating-point figures (fees, difficulty,
  hash rate, ping times).
* `tests/` exercises the library on concrete values.
