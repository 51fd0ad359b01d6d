# fg-uds

Unix domain sockets for the glib event loop.

- `src/` decides: socket addresses, the system calls of a connection, readiness,
  which task waits and which task an event wakes. Verus proves the contracts
  there; the few functions that call another crate or the standard library say in
  their doc comments what is taken on trust. None of them performs I/O: an
  operation takes an event and returns the action that comes next.
- `app/` performs: it makes the calls on the system, on glib and on the futures
  runtime, and hands the results back to the library.
- `tests/` runs the library on concrete values.

The proofs that span several operations stand beside them, as functions whose
names begin with `law_`.
