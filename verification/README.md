# temper_storage

The storage layer of a voxel-world server, verified with Verus: an LMDB
key-value backend of named tables (128-bit keys, byte-string values), the chunk
database built on it, and the decisions of placing a door.

- `src/table.rs` — what each table operation means, as a map from keys to
  bytes, and the laws that hold of them.
- `src/lmdb.rs` — the backend. The `*_in_txn` functions are the operations'
  logic on one engine transaction, proved against `table.rs`; the `*_outcome`
  functions say what each outcome of an engine call is reported as; the
  backend's methods find the table, run that logic in a transaction of their
  own and commit, and state what that transaction saw and did.
- `src/heed_ops.rs`, `src/cache.rs`, `src/chunk_codec.rs` — the trusted
  boundary: the engine (heed), the handle cache (dashmap, parking_lot), zlib
  and Adler-32 (yazi) and WyHash.
- `src/chunks.rs`, `src/chunk_types.rs` — chunk keys and the chunk codec.
- `src/door.rs` — door placement decisions.
- `app/` — opening an environment, chunk (de)serialization with bitcode, and
  the door placement against the live world.
