# crucible

Limits for running WebAssembly guests with wasmtime, written in Verus.

- `src/units.rs`: `ByteSize`, sizes in bytes, KiB, MiB and GiB.
- `src/limits.rs`: `CrucibleResourceLimiter`, which decides each memory
  growth of a guest against a cap and remembers whether it denied one.
- `src/sandbox.rs`, `src/sandbox/`: `SandboxBuilder` and `Sandbox` (memory
  limit, fuel budget, timeout), the steps of a guest call (`prepare`,
  `execute`, `finish_call`), how failures are classified, and `Invocation`,
  which records the host directories a guest is given.
- `src/wasm.rs`: the boundary with wasmtime: the outside types, the names
  for what outside calls return, and the trusted wrappers around them.
- `app/`: what runs around the library: the timeout watchdog thread
  (`SandboxRun::run`), opening host directories for WASI
  (`InvocationInvoke::invoke`), and an error type with messages.

A caller that sets a timeout must tick the engine's epoch while a call runs,
as `app/` does once per millisecond; otherwise the deadline is never reached.
