use vstd::prelude::*;

verus! {

/// Why building a sandbox, or running a guest in it, failed.
#[derive(Debug)]
pub enum SandboxError {
    /// The sandbox's configuration cannot be applied on this host.
    InvalidConfig(String),
    /// The wasm engine, or a store on it, could not be set up.
    EngineInit(wasmtime::Error),
    /// The module could not be compiled or instantiated.
    Compile(wasmtime::Error),
    /// The guest exhausted its fuel budget.
    OutOfFuel,
    /// The guest trapped on memory after a growth of its memory was denied.
    MemoryExceeded { limit_bytes: u64 },
    /// The guest exceeded its execution timeout.
    Timeout,
    /// The guest trapped for another reason, or the export was missing.
    Trap(String),
    /// A host I/O operation failed.
    Io(std::io::Error),
}

/// The result of the sandbox's operations.
pub type Result<T> = std::result::Result<T, SandboxError>;

} // verus!
