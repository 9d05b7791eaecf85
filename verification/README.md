# continue_stream

A buffered single-producer single-consumer channel that bridges synchronous
senders and asynchronous receivers, verified with Verus.

- `src/buffer.rs`: the state kept under the channel's lock (the buffered
  items and whether each end has gone away), the operations on it, and their
  specification as a transition function `apply` with answers `answer`.
- `src/laws.rs`: proofs of what holds over any run of operations on the state
  under the lock: nothing is lost, duplicated or reordered; the stream ends
  only after everything sent was received; once ended it stays ended; each end
  reads as cancelled exactly when the other has gone; a fresh channel waits.
  These are proved of `apply` and `answer`, which `SharedLock::serve` is proved
  to follow. That each operation of an end is one such request rests on its
  request builder's contract and on `with_locked`, which runs `serve` under
  the lock; the state that the lock holds is shared with the other thread and
  is not named, so no end states its effect on it.
- `src/channel.rs`: the two ends of a channel and the receive future. Each
  operation serves one request on the state under the lock.
- `src/outside.rs`: the declarations through which the verified code calls
  `wasm_safe_mutex`, `atomic_waker` and `Arc::clone`.
- `app/`: the `Future`, `futures::Stream`, `Display` and `Drop`
  implementations, which forward to the library (a dropped sender calls
  `close`, a dropped receiver calls `cancel`).
