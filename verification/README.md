# msim

The task executor of a deterministic simulator, verified with Verus.

A simulation has nodes, and each node has tasks. Tasks that are ready are run one at a time, in
an order that is drawn from a seeded generator, so that a run can be repeated from its seed. A
node can be killed, restarted, paused, resumed and deleted while its tasks run. Tasks can yield
at numbered points in their code, and are then released in the order of an input schedule.

## Layout

- `src/` is the verified library. It decides what is to be done next and keeps the state that
  the decisions rest on.
  - `model.rs` says what tasks and nodes are and what each operation makes of them; contracts
    are written over it.
  - `tasks.rs` holds the tasks and nodes, `executor.rs` drives them, `info.rs` is a single task.
  - `yields.rs` is about the points at which tasks yield, `join.rs` about handles on tasks.
  - `rng.rs` is the generator, `id.rs` and `time.rs` are identifiers and lengths of time.
  - `laws/` holds what is proved over several operations.
- `app/` runs real futures: it performs what the library says, and tells it what happened.
- `tests/` runs the library, also with real futures.

What the library has from other crates (`async-task`, `backtrace`, `rand`, `tokio`) stands behind
small functions that are marked `Trusted:` in their doc comments; nothing else is taken on trust.
