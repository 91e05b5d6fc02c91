# mini_redis

A verified core for a small Redis-style client and server.

`src/` is the library, checked by Verus:

- `frame` — the frames of the protocol and the array builder that
  commands use to write themselves.
- `parse` — a cursor over the frames of a command that reads string, bytes
  and integer arguments, with the exact outcome of each read.
- `cmd::set` — the `SET` command: reading it from frames
  (`key value [EX seconds|PX milliseconds]`), writing it back, and the proof
  that what is written reads back with the same key and value and, as
  expiration, the duration of the original's whole milliseconds (when they
  fit in 64 bits).
- `shutdown` — the server's shutdown listener and the steps of waiting for
  the signal.
- `cli` — the command line's conversions of its arguments.
- `timed` — a future wrapper that measures how long a future took, and the
  proof that every poll measures from the first poll's instant.
- `bytes_buf`, `duration`, `text` — what the library relies on from the
  `bytes` crate and from `std`, each call with the contract it is trusted
  to meet.

`app/` holds what Verus does not see: the program that times a web
request, the pinned future, the asynchronous wait for shutdown, and the
command line definitions.
