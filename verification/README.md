# accelerator-node-lifecycle

Durable transaction state for Bottlerocket accelerator nodes, and the rules of the programs around
it, written in Rust and verified with Verus.

A node moves between accelerator profiles in transitions. A coordinator begins a transition, the
node and the coordinator acknowledge its steps, and the transition ends with the target profile
committed or with the previous profile restored. Every request can be repeated safely, a stale one
is refused, and a process that starts again continues from the state on disk.

## Layout

- `src/model.rs` says what a lifecycle state is and what each operation makes of it; `src/state.rs`
  implements the operations; `src/laws.rs` proves what holds of the protocol as a whole.
- `src/resume.rs` and `src/run.rs` take the node's own steps, one at a time and in a row.
- `src/command.rs` carries out the coordinator's commands.
- `src/store.rs` and `src/locked_store.rs` decide how the state file is loaded, replaced and locked.
- `src/node_executor.rs` brings a node to an accelerator mode; `src/provider.rs` reconciles one
  provider service; `src/process.rs` holds the commands that both run.
- `src/block_device.rs` plans the work on encrypted block devices.
- `src/text.rs`, `src/path.rs`, `src/encoding.rs` and `src/json.rs` are what the others build on. The
  last two call `std` and `serde_json` behind stated contracts.
- `app/` reads, writes and runs programs. Where the library decides about a sequence of such steps,
  it takes what came of one step and names the next; `app/` carries the steps out.
