# op-cache

A daemon that caches secrets read with `op read`, and the client that asks it first.

- `src/` is the verified library. It decides what a client and the daemon do, and every decision
  is proved against its contract. `src/laws/` holds what is true of several operations together:
  that a served value is the one last written, that accounts never share an entry unless BLAKE3
  collides, that exactly the references of an environment are substituted.
- `app/` performs the decisions: sockets, processes, files and signals.
- `tests/` runs the library with the real `blake3`, `moka` and `directories`.

The library takes BLAKE3 digests, the bounded expiring stores and the configuration directory from
those crates. What it relies on is written in the contracts of `src/digest.rs`,
`src/daemon/store.rs`, `src/config.rs` and, for three functions of the standard library on text,
`src/text.rs`. The stores drop entries on their own account, so the contracts say what a lookup
returns when it finds an entry, and what follows when it finds none, and not which of the two
happens.

Fetched files stay in the temporary directory: the daemon removes its socket and the file with its
process id when it stops, and a fetched file only with the last reference to it.
