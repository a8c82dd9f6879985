//! Limits and configuration for running WebAssembly guests in a sandbox:
//! byte sizes, a memory-growth limiter, a sandbox builder, the steps of a
//! guest call and the classification of its failures.
use vstd::prelude::*;

pub mod error;
pub mod limits;
pub mod sandbox;
pub mod units;
mod wasm;

pub use crate::error::{Result, SandboxError};
pub use crate::limits::CrucibleResourceLimiter;
pub use crate::sandbox::{DirAccess, Invocation, PreparedCall, Preopen, Sandbox, SandboxBuilder};
pub use crate::units::ByteSize;
pub use crate::wasm::{duration_as_millis, SandboxData, TrapKind};
