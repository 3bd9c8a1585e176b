# yugendb

A typed key-value and document storage layer: applications store serialised
values by namespace, collection and key, through interchangeable drivers
(memory, SQLite, MySQL, MongoDB, Redis).

## Layout

- `src/` is the verified library: validated names, stored values and their
  expiry, the in-memory store, batches, the Redis keyspace and envelopes, the
  SQL record columns and MongoDB document mapping, schema descriptions, driver
  configuration, and the rules that every driver applies around its storage
  calls (what a read shows, when a write is refused, how a scan is collected).
  Each public function states in its contract what it returns, as far as the
  results of the outside crates it calls can be named; the laws of the
  storage model (read after write, isolation, delete, batches, key encodings,
  record round trips) are proof functions or clauses of those contracts.
- `app/` is the asynchronous layer around it: the `Driver` and `Codec` traits,
  the typed `Store`, and the drivers' I/O against each backend.
- `tests/` exercises the library on concrete values.
