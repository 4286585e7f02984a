# tool_execution

Decides which of the tool calls that a model asks for are carried out, and what the model is told
about the others. Every decision is a verified function; the waiting around it is ordinary
asynchronous code.

- `src/` is the verified library. Its contracts are stated over views of its types.
  `src/approval_laws.rs` and the proof functions beside the other types state what holds of the
  library as a whole. `src/interop.rs` holds the calls into other crates, each with the contract
  that the proofs rest on.
- `app/` runs the library: it waits for answers and results, and dispatches tool calls.
- `tests/` runs the library on concrete values.
