# dap_debugger

A debug adapter for Clarity programs, verified with Verus. It stands between a client that speaks
the Debug Adapter Protocol, such as an editor, and the engine that runs the program.

- `src/debugger.rs` is the adapter. It neither reads nor writes: it is handed the client's messages
  and where the engine holds execution, and collects the actions to perform.
- `src/model.rs` states what each operation does, `src/laws.rs` what holds of them together, and
  `src/history.rs` what holds over the life of an adapter.
- `src/types.rs`, `src/messages.rs`, `src/clarity.rs` and `src/engine.rs` hold the data: the
  protocol's types and messages, what the adapter sees of a program, and what it exchanges with the
  engine.
- `src/json.rs` is the one place that relies on an outside crate: printing JSON values.
- `app/` runs the adapter over standard input and output.
