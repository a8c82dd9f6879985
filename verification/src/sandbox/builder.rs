use std::time::Duration;
use vstd::prelude::*;

use super::Sandbox;
use crate::error::{Result, SandboxError};
use crate::units::ByteSize;
use crate::wasm::{engine_checks_epochs, engine_consumes_fuel, new_engine};

verus! {

/// Collects the limits of a sandbox before it is built: the memory limit,
/// and optionally a fuel budget and a wall-clock timeout.
pub struct SandboxBuilder {
    memory_limit: ByteSize,
    fuel: Option<u64>,
    timeout: Option<Duration>,
}

impl SandboxBuilder {
    /// The memory limit the sandbox will enforce.
    pub closed spec fn spec_memory_limit(&self) -> ByteSize {
        self.memory_limit
    }

    /// The fuel budget of each call, if any.
    pub closed spec fn spec_fuel(&self) -> Option<u64> {
        self.fuel
    }

    /// The timeout of each call, if any.
    pub closed spec fn spec_timeout(&self) -> Option<Duration> {
        self.timeout
    }

    /// A builder with the given memory limit, no fuel budget and no timeout.
    pub fn new(memory_limit: ByteSize) -> (r: Self)
        ensures
            r.spec_memory_limit() == memory_limit,
            r.spec_fuel() == None::<u64>,
            r.spec_timeout() == None::<Duration>,
    {
        Self { memory_limit, fuel: None, timeout: None }
    }

    /// Sets the fuel budget of each call; a later call replaces an earlier one.
    pub fn fuel(self, amount: u64) -> (r: Self)
        ensures
            r.spec_memory_limit() == self.spec_memory_limit(),
            r.spec_fuel() == Some(amount),
            r.spec_timeout() == self.spec_timeout(),
    {
        let mut b = self;
        b.fuel = Some(amount);
        b
    }

    /// Sets the timeout of each call; a later call replaces an earlier one.
    pub fn timeout(self, duration: Duration) -> (r: Self)
        ensures
            r.spec_memory_limit() == self.spec_memory_limit(),
            r.spec_fuel() == self.spec_fuel(),
            r.spec_timeout() == Some(duration),
    {
        let mut b = self;
        b.timeout = Some(duration);
        b
    }

    /// The memory limit the sandbox will enforce.
    pub fn memory_limit(&self) -> (r: ByteSize)
        ensures
            r == self.spec_memory_limit(),
    {
        self.memory_limit
    }

    /// The fuel budget set so far, if any.
    pub fn fuel_limit(&self) -> (r: Option<u64>)
        ensures
            r == self.spec_fuel(),
    {
        self.fuel
    }

    /// The timeout set so far, if any.
    pub fn timeout_limit(&self) -> (r: Option<Duration>)
        ensures
            r == self.spec_timeout(),
    {
        self.timeout
    }

    /// Builds the sandbox: an engine that counts fuel exactly when a fuel
    /// budget was set and checks epoch deadlines exactly when a timeout was
    /// set, and the builder's limits unchanged. Whether the host can build
    /// the engine is up to wasmtime; when it cannot, the error is
    /// `EngineInit`.
    pub fn build(self) -> (r: Result<Sandbox>)
        ensures
            r matches Ok(s) ==> s.spec_memory_limit() == self.spec_memory_limit()
                && s.spec_fuel_limit() == self.spec_fuel()
                && s.spec_timeout() == self.spec_timeout()
                && engine_consumes_fuel(s.spec_engine()) == self.spec_fuel() is Some
                && engine_checks_epochs(s.spec_engine()) == self.spec_timeout() is Some,
            r matches Err(e) ==> e is EngineInit,
    {
        let engine = match new_engine(self.fuel.is_some(), self.timeout.is_some()) {
            Ok(e) => e,
            Err(e) => {
                return Err(SandboxError::EngineInit(e));
            },
        };
        Ok(Sandbox { engine, fuel_limit: self.fuel, memory_limit: self.memory_limit, timeout: self.timeout })
    }
}

impl Default for SandboxBuilder {
    /// A builder with the default memory limit (one wasm page), no fuel
    /// budget and no timeout.
    fn default() -> (r: Self)
        ensures
            r.spec_memory_limit()@ == 64 * 1024,
            r.spec_fuel() == None::<u64>,
            r.spec_timeout() == None::<Duration>,
    {
        Self::new(Sandbox::default_memory_limit())
    }
}

} // verus!
