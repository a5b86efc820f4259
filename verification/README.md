# tio

A small asynchronous runtime, written as a Verus-verified library (`src/`) and the
runtime around it (`app/`).

`src/` holds the decisions of the runtime, each with a contract that Verus proves:

- `net::util` — the I/O error conventions: turning a `WouldBlock` failure into a
  pending poll (`may_block`), the "no address" error (`resolve_none`), settling a
  freshly opened socket by its pending error, and the bookkeeping of the loop that
  binds or connects to each resolved address in turn.
- `net::poll` — readiness channels: a channel becomes ready for good and hands back
  every waiting waker, oldest first.
- `net::reactor` — the event loop's registry of readiness records, keyed by the
  token each socket is registered with (a `Registration`), and what one event
  does to it.
- `task::block`, `task::yield_now`, `task::timer` — the re-entrance guard of
  `block_on`, the one-shot yield, and the interval's step with its deadlines, which stay on
  a fixed grid so that late polls cause no drift.
- `task::blocking` — the count of free threads of the blocking pool, with the laws
  that the pool never runs dry and that a quiet pool keeps one waiting thread.
- `task::spawn` — a worker's search for a task, one round at a time (its own
  queue first, then the global queue, then the other workers), and the executor's sleeping workers, woken in the
  order they slept.

`app/` performs what Verus cannot take: the `mio` event loop thread, the socket
types, the executor threads and the loop that retries a steal round, the
blocking threads, timers and filesystem calls. It keeps wakers in a store and hands the library their ids.
