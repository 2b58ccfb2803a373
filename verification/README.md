# gpu_sim

A discrete-event simulator of a node of GPUs, written and verified in Verus: streams and events,
kernels and copies, device memory with pools, mapped ranges and managed pages, graphs with capture,
instantiation and update. Time is a counter of nanoseconds; nothing here touches a device.

## Layout

- `src/sim.rs` and `src/sim/` hold the simulator `Sim`. Each operation has a twin of the same name
  on the mathematical state `SimState`, and its contract says that it does what the twin does.
- `src/ops.rs`, `src/ids.rs`, `src/error.rs`, `src/profile.rs`, `src/state.rs` and `src/kinds.rs`
  hold the vocabulary: operations, handles, errors, hardware profiles and bookkeeping records.
- `src/table.rs`, `src/list.rs`, `src/spans.rs`, `src/persist.rs`, `src/topo.rs` and `src/num.rs`
  hold the collections and algorithms the simulator is built from.
- `src/history.rs` and `src/history/` prove what every operation keeps: time, counters and ids only
  grow, budgets hold, operations start only after what they wait for has ended (or, where a kernel
  fires an event or a trigger early, after that), no graph gets a cycle, and what is recorded for
  ranges, handles and streams stays valid.
- `src/laws/` states what relates several operations, as public proof functions.
- `tests/` runs the simulator on small cases.
