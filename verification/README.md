# corpus_ipc

Wire models and backend selection for a compute-backend IPC layer.

- `src/` is the verified library (Verus):
  - `NeuromodulatorSnapshot<S>` and `from_scores`, whose contract states where
    each of the four packet scores lands; the score type is generic, and the
    wire instantiation is `f32`;
  - the `BatchMetadata` record, whose default is stated in its contract;
  - the `BackendType` selector, whose default (`Rust`) is stated in its
    contract, and `BackendFactory`, an empty namespace kept for API
    compatibility.
- `app/` holds the serde wire forms of the messages (`IpcMessage`,
  `SpikeBatch`, `TraceBatch`, ...), which carry `f32` fields, and serde copies
  of `NeuromodulatorSnapshot<f32>` and `BatchMetadata` with conversions in
  both directions.
- `tests/` exercises the library from outside.
