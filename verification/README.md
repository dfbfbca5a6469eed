# actor_rs

A small actor framework whose decisions are verified with [Verus](https://github.com/verus-lang/verus).

- `src/` is the verified library. It decides: what an actor does next, how a mailbox is drained, who
  is told of a signal, when a stream ends, what an error means. Nothing in it waits.
- `app/` is the runtime around it, in ordinary Rust. It waits: it owns the executor, the threads, the
  signals and the processes, does what the library says, and hands back what came of it.
- `tests/` runs the library against the channels, spans and streams that it is made for.

Where something has to be awaited, the library has a machine for it: a value with a
`step` (or `look`, `receive`, `poll_next`) that takes the outcome of the last action and returns the
next one. The laws of such a machine are the public proof functions beside it, whose names start with
`law_`.
