# remote_connections

Opens projects on remote machines: in a workspace that is already open on the project, or else over
a new connection. The library is verified with Verus.

- `src/` decides what is to be done. It hands out one step at a time and takes in how the step went.
  Windows, workspaces and items are numbers to it, and errors are text. Start at `open.rs`; what holds
  however a project is opened stands in `guarantees.rs`.
- `app/` takes the steps: it owns the windows, the prompts, the connections and the commands that run
  on the remote machine.
- `tests/` plays through whole conversations with the library, and checks single steps.

The library believes, without proof, what `src/locks.rs` states of `futures::lock::Mutex` and of
`std::sync::Weak`.
