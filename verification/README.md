# telemt shared state

The per-process state that a telemt proxy's handshake and middle-relay paths
share, as a Verus library.

- `src/proxy/shared_state.rs`: the state types and `ProxySharedState::new`,
  whose contract states that every table starts empty, every slot and lock
  starts empty, unlocked and unpoisoned, and every counter starts at zero.
- `src/foreign.rs`: the declared std and dashmap types and the wrappers that
  build them; their contracts are trusted.
- `app/main.rs`: the process entry point, which starts the tokio runtime.
- `tests/`: runtime tests of the library.
