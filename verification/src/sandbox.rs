use std::time::Duration;
use vstd::prelude::*;

use crate::error::{Result, SandboxError};
use crate::limits::CrucibleResourceLimiter;
use crate::units::ByteSize;
use crate::wasm::{
    call_func, call_may_return, compile_module, debug_text, duration_as_millis, engine_accepts_module,
    engine_checks_epochs, engine_consumes_fuel, error_trap_kind, exported_func, func_result_count,
    func_store, instance_bytes, instance_store, instantiate, millis_of, module_needs_no_startup, new_store,
    placeholder_results, result_count, store_data, store_data_of, store_engine, store_epoch_deadline,
    store_fuel, store_id, store_set_epoch_deadline, store_set_fuel, store_use_limiter,
    store_uses_limiter, trap_kind, wasm_exports_func, SandboxData, TrapKind,
};
use vstd::string::to_string_from_display_ensures;

pub mod builder;
pub mod invocation;

pub use self::builder::SandboxBuilder;
pub use self::invocation::{DirAccess, Invocation, Preopen};

verus! {

/// The text of the error that a call to a function that the module does not
/// export fails with.
pub open spec fn export_missing_message(name: Seq<char>) -> Seq<char> {
    "Export '"@ + name + "', not found!"@
}

/// The text that the error for a memory limit that does not fit in a host
/// `usize` starts with.
pub open spec fn memory_limit_message_prefix() -> Seq<char> {
    "Failed to convert memory limit to host: "@
}

/// Whether `m` is the text of the error for a timeout too long to be an
/// epoch deadline: the duration's debug text between two fixed parts.
pub open spec fn is_timeout_message(m: Seq<char>) -> bool {
    exists|t: Seq<char>| m == "timeout "@ + t + " exceeds u64 ms"@
}

/// How a failed guest call is reported, given the kind of trap it raised
/// (if any), whether the limiter denied a memory growth during the call, the
/// sandbox's memory limit and the text of the failure.
pub open spec fn call_error_class(
    kind: Option<TrapKind>,
    refused: bool,
    limit_bytes: u64,
    message: String,
) -> SandboxError {
    match kind {
        Some(TrapKind::OutOfFuel) => SandboxError::OutOfFuel,
        Some(TrapKind::Interrupt) => SandboxError::Timeout,
        Some(TrapKind::MemoryOutOfBounds) => if refused {
            SandboxError::MemoryExceeded { limit_bytes }
        } else {
            SandboxError::Trap(message)
        },
        _ => SandboxError::Trap(message),
    }
}

/// How a failed call is reported, whatever the limit and text: running out
/// of fuel is `OutOfFuel` and an interrupt is `Timeout`; `MemoryExceeded`,
/// carrying the memory limit, is reported exactly for an out-of-bounds memory
/// access after the limiter denied a growth; every other failure (another
/// trap, an out-of-bounds access with no denied growth, or an error that is
/// no trap) is `Trap` with the failure's text, whatever the refusal flag.
pub proof fn lemma_call_errors_are_classified_by_trap_kind(
    kind: Option<TrapKind>,
    refused: bool,
    limit_bytes: u64,
    message: String,
)
    ensures
        kind == Some(TrapKind::OutOfFuel) ==> call_error_class(kind, refused, limit_bytes, message)
            == SandboxError::OutOfFuel,
        kind == Some(TrapKind::Interrupt) ==> call_error_class(kind, refused, limit_bytes, message)
            == SandboxError::Timeout,
        (call_error_class(kind, refused, limit_bytes, message) is MemoryExceeded) <==> (kind == Some(
            TrapKind::MemoryOutOfBounds,
        ) && refused),
        kind == Some(TrapKind::MemoryOutOfBounds) && refused ==> call_error_class(
            kind,
            refused,
            limit_bytes,
            message,
        ) == (SandboxError::MemoryExceeded { limit_bytes }),
        !(kind == Some(TrapKind::OutOfFuel) || kind == Some(TrapKind::Interrupt) || (kind == Some(
            TrapKind::MemoryOutOfBounds,
        ) && refused)) ==> call_error_class(kind, refused, limit_bytes, message)
            == SandboxError::Trap(message),
        call_error_class(kind, refused, limit_bytes, message) is OutOfFuel ==> kind == Some(
            TrapKind::OutOfFuel,
        ),
        call_error_class(kind, refused, limit_bytes, message) is Timeout ==> kind == Some(
            TrapKind::Interrupt,
        ),
{
}

/// How long, in nanoseconds, a call's watchdog keeps ticking past the
/// call's timeout before it gives up: 100 ms.
pub const WATCHDOG_GRACE_NANOS: u128 = 100_000_000;

/// Whether a call's watchdog, having just ticked the engine's epoch, ticks
/// again: the engine is still alive and no more than the timeout plus the
/// grace period has passed since the watchdog started. Once the epoch
/// deadline has passed, further ticks cannot help.
pub fn watchdog_continues(engine_alive: bool, elapsed_nanos: u128, timeout_nanos: u128) -> (r: bool)
    ensures
        r == (engine_alive && elapsed_nanos <= timeout_nanos + WATCHDOG_GRACE_NANOS),
{
    engine_alive && (elapsed_nanos <= timeout_nanos || elapsed_nanos - timeout_nanos <= WATCHDOG_GRACE_NANOS)
}

/// A wasm engine together with the limits that every guest call run on it
/// gets: a memory limit, and optionally a fuel budget and a timeout.
pub struct Sandbox {
    engine: wasmtime::Engine,
    fuel_limit: Option<u64>,
    memory_limit: ByteSize,
    timeout: Option<Duration>,
}

/// A guest function that is ready to be called: its own store (holding the
/// call's limiter), the function looked up in that store, and room for its
/// results.
pub struct PreparedCall {
    store: wasmtime::Store<SandboxData>,
    func: wasmtime::Func,
    results: Vec<wasmtime::Val>,
    instance: Ghost<wasmtime::Instance>,
    fresh: Ghost<wasmtime::Store<SandboxData>>,
}

impl PreparedCall {
    /// The function and the instance it was looked up in belong to the
    /// call's store, and there is room for exactly the function's results.
    #[verifier::type_invariant]
    closed spec fn well_formed(self) -> bool {
        &&& func_store(self.func) == store_id(self.store)
        &&& instance_store(self.instance@) == store_id(self.store)
        &&& self.results@.len() == func_result_count(self.func)
        &&& store_id(self.fresh@) == store_id(self.store)
    }

    /// The store the call runs in.
    pub closed spec fn spec_store(&self) -> wasmtime::Store<SandboxData> {
        self.store
    }

    /// The function that is called.
    pub closed spec fn spec_func(&self) -> wasmtime::Func {
        self.func
    }

    /// The instance the function was looked up in.
    pub closed spec fn spec_instance(&self) -> wasmtime::Instance {
        self.instance@
    }

    /// The call's store as it was set up, before the module was
    /// instantiated in it.
    pub closed spec fn spec_fresh_store(&self) -> wasmtime::Store<SandboxData> {
        self.fresh@
    }

    /// How many results the function returns.
    pub closed spec fn spec_result_count(&self) -> nat {
        self.results@.len()
    }
}

impl Sandbox {
    /// The engine counts fuel exactly when there is a fuel budget, and checks
    /// epoch deadlines exactly when there is a timeout.
    #[verifier::type_invariant]
    closed spec fn engine_matches_limits(self) -> bool {
        &&& engine_consumes_fuel(self.engine) == self.fuel_limit is Some
        &&& engine_checks_epochs(self.engine) == self.timeout is Some
    }

    /// The memory limit used when none is chosen: one wasm page (64 KiB).
    pub fn default_memory_limit() -> (r: ByteSize)
        ensures
            r@ == 64 * 1024,
    {
        ByteSize::kib(64)
    }

    /// The engine that compiles and runs the guests.
    pub closed spec fn spec_engine(&self) -> wasmtime::Engine {
        self.engine
    }

    /// The fuel budget of each call, if any.
    pub closed spec fn spec_fuel_limit(&self) -> Option<u64> {
        self.fuel_limit
    }

    /// The memory limit of each call.
    pub closed spec fn spec_memory_limit(&self) -> ByteSize {
        self.memory_limit
    }

    /// The timeout of each call, if any.
    pub closed spec fn spec_timeout(&self) -> Option<Duration> {
        self.timeout
    }

    /// Whether the memory limit fits in a host `usize`.
    pub open spec fn memory_limit_fits_host(&self) -> bool {
        self.spec_memory_limit()@ <= usize::MAX
    }

    /// Whether the timeout, counted in whole milliseconds, fits in half of
    /// the `u64` range, as an epoch deadline must.
    pub open spec fn timeout_fits_ticks(&self) -> bool {
        match self.spec_timeout() {
            Some(d) => duration_as_millis(d) <= u64::MAX / 2,
            None => true,
        }
    }

    /// A builder for a sandbox with the given memory limit, no fuel budget
    /// and no timeout.
    pub fn builder(memory_limit: ByteSize) -> (r: SandboxBuilder)
        ensures
            r.spec_memory_limit() == memory_limit,
            r.spec_fuel() == None::<u64>,
            r.spec_timeout() == None::<Duration>,
    {
        SandboxBuilder::new(memory_limit)
    }

    /// The fuel budget of each call, if any.
    pub fn fuel_limit(&self) -> (r: Option<u64>)
        ensures
            r == self.spec_fuel_limit(),
    {
        self.fuel_limit
    }

    /// The memory limit of each call.
    pub fn memory_limit(&self) -> (r: ByteSize)
        ensures
            r == self.spec_memory_limit(),
    {
        self.memory_limit
    }

    /// The timeout of each call, if any.
    pub fn timeout(&self) -> (r: Option<Duration>)
        ensures
            r == self.spec_timeout(),
    {
        self.timeout
    }

    /// The engine that compiles and runs the guests.
    pub fn engine(&self) -> (r: &wasmtime::Engine)
        ensures
            *r == self.spec_engine(),
    {
        &self.engine
    }

    /// Whether `st` is set up as a fresh store for one call under this
    /// sandbox's limits: its limiter caps memory at the memory limit, has
    /// denied nothing yet and is in use, it holds `wasi`, it has the whole
    /// fuel budget, and it traps once the timeout, counted in epoch ticks of
    /// one millisecond, has passed.
    pub open spec fn is_fresh_store(&self, st: wasmtime::Store<SandboxData>, wasi: Option<wasmtime_wasi::p1::WasiP1Ctx>) -> bool {
        &&& store_engine(st) == self.spec_engine()
        &&& store_data_of(st).limiter.cap() == self.spec_memory_limit()@
        &&& store_data_of(st).limiter.refusals() == 0
        &&& store_data_of(st).wasi_p1_ctx == wasi
        &&& store_uses_limiter(st)
        &&& (self.spec_fuel_limit() matches Some(f) ==> store_fuel(st) == f)
        &&& (self.spec_timeout() matches Some(d) ==> store_epoch_deadline(st) == duration_as_millis(d))
    }

    /// A fresh store for one call (see `is_fresh_store`). It fails with
    /// `InvalidConfig` when the memory limit does not fit in a host `usize`
    /// (checked first) or the timeout's milliseconds exceed half the `u64`
    /// range,
    /// and with `EngineInit` when wasmtime refuses the fuel budget.
    fn configure_store(&self, wasi: Option<wasmtime_wasi::p1::WasiP1Ctx>) -> (r: Result<wasmtime::Store<SandboxData>>)
        ensures
            r matches Ok(st) ==> self.is_fresh_store(st, wasi),
            !self.memory_limit_fits_host() ==> (r matches Err(SandboxError::InvalidConfig(m))
                && memory_limit_message_prefix().is_prefix_of(m@)),
            self.memory_limit_fits_host() && !self.timeout_fits_ticks() ==> (
                (r matches Err(SandboxError::InvalidConfig(m)) && is_timeout_message(m@))
                || (r is Err && r->Err_0 is EngineInit)),
            self.memory_limit_fits_host() && !self.timeout_fits_ticks()
                && self.spec_fuel_limit() is None ==> (r matches Err(SandboxError::InvalidConfig(m))
                && is_timeout_message(m@)),
            r is Ok ==> self.memory_limit_fits_host() && self.timeout_fits_ticks(),
            r matches Err(e) ==> match e {
                SandboxError::InvalidConfig(m) => (!self.memory_limit_fits_host()
                    && memory_limit_message_prefix().is_prefix_of(m@)) || (
                self.memory_limit_fits_host() && !self.timeout_fits_ticks() && is_timeout_message(
                    m@,
                )),
                SandboxError::EngineInit(_) => self.memory_limit_fits_host()
                    && self.spec_fuel_limit() is Some,
                _ => false,
            },
    {
        let bytes = self.memory_limit.as_bytes();
        let cap = match usize::try_from(bytes) {
            Ok(c) => c,
            Err(e) => {
                let mut msg = String::from_str("Failed to convert memory limit to host: ");
                let detail = e.to_string();
                msg.append(detail.as_str());
                proof {
                    assert(msg@ == memory_limit_message_prefix() + detail@);
                    assert(memory_limit_message_prefix() =~= msg@.subrange(0, memory_limit_message_prefix().len() as int));
                }
                return Err(SandboxError::InvalidConfig(msg));
            },
        };
        let state = SandboxData { limiter: CrucibleResourceLimiter::new(cap), wasi_p1_ctx: wasi };
        let mut store = new_store(&self.engine, state);
        if let Some(fuel) = self.fuel_limit {
            match store_set_fuel(&mut store, fuel) {
                Ok(()) => {},
                Err(e) => {
                    return Err(SandboxError::EngineInit(e));
                },
            }
        }
        if let Some(duration) = self.timeout {
            let millis = millis_of(&duration);
            let ticks = match u64::try_from(millis) {
                Ok(t) if t <= u64::MAX / 2 => t,
                _ => {
                    let mut msg = String::from_str("timeout ");
                    let shown = debug_text(&duration);
                    msg.append(shown.as_str());
                    msg.append(" exceeds u64 ms");
                    proof {
                        assert(msg@ == "timeout "@ + shown@ + " exceeds u64 ms"@);
                    }
                    return Err(SandboxError::InvalidConfig(msg));
                },
            };
            store_set_epoch_deadline(&mut store, ticks);
        }
        store_use_limiter(&mut store);
        Ok(store)
    }

    /// Everything before the guest runs: a fresh store for the call (see
    /// `configure_store`), the module `wasm` compiled and instantiated in it,
    /// and its exported function `func_name` looked up, with room for its
    /// results. `wasi` is the WASI context the call's store keeps, if any.
    /// The call's store keeps the whole fuel budget less what instantiating
    /// the module used, which is nothing for a module that needs no startup
    /// function (see `module_needs_no_startup`), and the epoch deadline of
    /// the timeout.
    /// Bytes that cannot be compiled or instantiated give `Compile`; a module
    /// without a function export called `func_name` gives `Trap`.
    pub fn prepare(&self, wasm: &[u8], func_name: &str, wasi: Option<wasmtime_wasi::p1::WasiP1Ctx>) -> (r: Result<PreparedCall>)
        ensures
            !self.memory_limit_fits_host() ==> (r matches Err(SandboxError::InvalidConfig(m))
                && memory_limit_message_prefix().is_prefix_of(m@)),
            self.memory_limit_fits_host() && !self.timeout_fits_ticks() ==> (
                (r matches Err(SandboxError::InvalidConfig(m)) && is_timeout_message(m@))
                || (r is Err && r->Err_0 is EngineInit)),
            self.memory_limit_fits_host() && !self.timeout_fits_ticks()
                && self.spec_fuel_limit() is None ==> (r matches Err(SandboxError::InvalidConfig(m))
                && is_timeout_message(m@)),
            self.memory_limit_fits_host() && self.timeout_fits_ticks() && self.spec_fuel_limit() is None
                && !engine_accepts_module(self.spec_engine(), wasm@) ==> (r matches Err(
                SandboxError::Compile(_),
            )),
            r matches Ok(c) ==> {
                &&& self.memory_limit_fits_host() && self.timeout_fits_ticks()
                &&& self.is_fresh_store(c.spec_fresh_store(), wasi)
                &&& engine_accepts_module(self.spec_engine(), wasm@)
                &&& wasm_exports_func(wasm@, func_name@)
                &&& instance_bytes(c.spec_instance()) == wasm@
                &&& instance_store(c.spec_instance()) == store_id(c.spec_store())
                &&& func_store(c.spec_func()) == store_id(c.spec_store())
                &&& store_id(c.spec_fresh_store()) == store_id(c.spec_store())
                &&& c.spec_result_count() == func_result_count(c.spec_func())
                &&& store_engine(c.spec_store()) == self.spec_engine()
                &&& store_data_of(c.spec_store()).limiter.cap() == self.spec_memory_limit()@
                &&& store_uses_limiter(c.spec_store())
                &&& (self.spec_timeout() matches Some(d) ==> store_epoch_deadline(c.spec_store())
                    == duration_as_millis(d))
                &&& (self.spec_fuel_limit() matches Some(f) ==> store_fuel(c.spec_store()) <= f)
                &&& (self.spec_fuel_limit() matches Some(f) ==> (module_needs_no_startup(wasm@)
                    ==> store_fuel(c.spec_store()) == f))
            },
            r matches Err(e) ==> match e {
                SandboxError::InvalidConfig(m) => (!self.memory_limit_fits_host()
                    && memory_limit_message_prefix().is_prefix_of(m@)) || (
                self.memory_limit_fits_host() && !self.timeout_fits_ticks() && is_timeout_message(
                    m@,
                )),
                SandboxError::EngineInit(_) => self.memory_limit_fits_host()
                    && self.spec_fuel_limit() is Some,
                SandboxError::Compile(_) => self.memory_limit_fits_host() && self.timeout_fits_ticks(),
                SandboxError::Trap(m) => self.memory_limit_fits_host() && self.timeout_fits_ticks()
                    && engine_accepts_module(self.spec_engine(), wasm@)
                    && !wasm_exports_func(wasm@, func_name@)
                    && m@ == export_missing_message(func_name@),
                _ => false,
            },
    {
        let mut store = match self.configure_store(wasi) {
            Ok(s) => s,
            Err(e) => {
                return Err(e);
            },
        };
        let ghost fresh = store;
        let module = match compile_module(&self.engine, wasm) {
            Ok(m) => m,
            Err(e) => {
                return Err(SandboxError::Compile(e));
            },
        };
        let instance = match instantiate(&mut store, &module) {
            Ok(i) => i,
            Err(e) => {
                return Err(SandboxError::Compile(e));
            },
        };
        let func = match exported_func(&instance, &mut store, func_name) {
            Some(f) => f,
            None => {
                let mut msg = String::from_str("Export '");
                msg.append(func_name);
                msg.append("', not found!");
                return Err(SandboxError::Trap(msg));
            },
        };
        let count = result_count(&func, &store);
        let results = placeholder_results(count);
        Ok(PreparedCall { store, func, results, instance: Ghost(instance), fresh: Ghost(fresh) })
    }

    /// Reports a failed guest call (see `call_error_class`): running out of
    /// fuel is `OutOfFuel`, an interrupt is `Timeout`, an out-of-bounds
    /// memory access after a denied growth is `MemoryExceeded` with the
    /// sandbox's memory limit, and anything else is `Trap` with its text.
    pub fn classify_call_error(&self, kind: Option<TrapKind>, refused: bool, message: String) -> (r: SandboxError)
        ensures
            r == call_error_class(kind, refused, self.spec_memory_limit()@ as u64, message),
            (r is OutOfFuel) <==> kind == Some(TrapKind::OutOfFuel),
            (r is Timeout) <==> kind == Some(TrapKind::Interrupt),
            (r is MemoryExceeded) <==> (kind == Some(TrapKind::MemoryOutOfBounds) && refused),
            r is MemoryExceeded ==> r->limit_bytes == self.spec_memory_limit()@,
            (r is Trap) <==> !(kind == Some(TrapKind::OutOfFuel) || kind == Some(TrapKind::Interrupt)
                || (kind == Some(TrapKind::MemoryOutOfBounds) && refused)),
            r is Trap ==> r->Trap_0 == message,
    {
        match kind {
            Some(TrapKind::OutOfFuel) => SandboxError::OutOfFuel,
            Some(TrapKind::Interrupt) => SandboxError::Timeout,
            Some(TrapKind::MemoryOutOfBounds) => {
                if refused {
                    SandboxError::MemoryExceeded { limit_bytes: self.memory_limit.as_bytes() }
                } else {
                    SandboxError::Trap(message)
                }
            },
            _ => SandboxError::Trap(message),
        }
    }

    /// What a call returns once the guest has run: its results when it
    /// returned normally; otherwise the failure reported by
    /// `classify_call_error` from the error's trap kind, whether the limiter
    /// of the store `after` the call denied a memory growth, and the error's
    /// text.
    pub open spec fn call_outcome(
        &self,
        outcome: std::result::Result<(), wasmtime::Error>,
        after: wasmtime::Store<SandboxData>,
        results: Vec<wasmtime::Val>,
        r: Result<Vec<wasmtime::Val>>,
    ) -> bool {
        match outcome {
            Ok(()) => r == Ok::<Vec<wasmtime::Val>, SandboxError>(results),
            Err(e) => r is Err && exists|m: String|
                #![trigger to_string_from_display_ensures::<wasmtime::Error>(&e, m)]
                to_string_from_display_ensures::<wasmtime::Error>(&e, m) && r->Err_0 == call_error_class(
                    error_trap_kind(e),
                    store_data_of(after).limiter.refusals() > 0,
                    self.spec_memory_limit()@ as u64,
                    m,
                ),
        }
    }

    /// Turns the outcome of a guest call into the call's result (see
    /// `call_outcome`); `after` is the call's store once the guest has run and
    /// `results` what the guest wrote.
    pub fn finish_call(
        &self,
        outcome: std::result::Result<(), wasmtime::Error>,
        after: &wasmtime::Store<SandboxData>,
        results: Vec<wasmtime::Val>,
    ) -> (r: Result<Vec<wasmtime::Val>>)
        ensures
            self.call_outcome(outcome, *after, results, r),
    {
        match outcome {
            Ok(()) => Ok(results),
            Err(e) => {
                let refused = store_data(after).limiter.refused_memory_growth();
                let kind = trap_kind(&e);
                let message = e.to_string();
                let err = self.classify_call_error(kind, refused, message);
                proof {
                    assert(to_string_from_display_ensures::<wasmtime::Error>(&e, message));
                }
                Err(err)
            },
        }
    }

    /// Runs a prepared guest function with `args` in the call's own store,
    /// then returns what `finish_call` makes of the outcome: the guest's
    /// results when it returned normally, or its classified failure. The
    /// function is called once, with `args`, in the store exactly as
    /// `prepare` left it (its fuel, epoch deadline and limiter untouched), and
    /// the outcome, results and refusal flag reported are those of that one
    /// call. A guest runs out of fuel only on an engine that counts fuel and
    /// times out only on one that checks epochs, so a call prepared by this
    /// sandbox fails with `OutOfFuel` only under a fuel budget and with
    /// `Timeout` only under a timeout.
    pub fn execute(&self, call: PreparedCall, args: &[wasmtime::Val]) -> (r: Result<Vec<wasmtime::Val>>)
        ensures
            exists|outcome: std::result::Result<(), wasmtime::Error>, after: wasmtime::Store<SandboxData>, written: Vec<wasmtime::Val>|
                #![trigger self.call_outcome(outcome, after, written, r)]
                call_may_return(call.spec_func(), call.spec_store(), args@, outcome, written@, after)
                && store_id(after) == store_id(call.spec_store())
                && store_engine(after) == store_engine(call.spec_store())
                && written.len() == func_result_count(call.spec_func())
                && self.call_outcome(outcome, after, written, r),
            r matches Ok(v) ==> v.len() == call.spec_result_count(),
            r matches Err(e) ==> match e {
                SandboxError::OutOfFuel => engine_consumes_fuel(store_engine(call.spec_store())),
                SandboxError::Timeout => engine_checks_epochs(store_engine(call.spec_store())),
                SandboxError::Trap(_) => true,
                SandboxError::MemoryExceeded { limit_bytes } => limit_bytes == self.spec_memory_limit()@,
                _ => false,
            },
            store_engine(call.spec_store()) == self.spec_engine() ==> {
                &&& (r matches Err(SandboxError::OutOfFuel) ==> self.spec_fuel_limit() is Some)
                &&& (r matches Err(SandboxError::Timeout) ==> self.spec_timeout() is Some)
            },
    {
        proof {
            self.memory_limit.lemma_view_bounded();
            use_type_invariant(&call);
            use_type_invariant(self);
        }
        let PreparedCall { mut store, func, mut results, instance, fresh } = call;
        let outcome = call_func(&func, &mut store, args, &mut results);
        let ghost written = results;
        let ghost ended = outcome;
        let r = self.finish_call(outcome, &store, results);
        proof {
            assert(self.call_outcome(ended, store, written, r));
            if let Err(e) = ended {
                let m = choose|m: String| to_string_from_display_ensures::<wasmtime::Error>(&e, m)
                    && r->Err_0 == call_error_class(
                    error_trap_kind(e),
                    store_data_of(store).limiter.refusals() > 0,
                    self.spec_memory_limit()@ as u64,
                    m,
                );
                assert(r->Err_0 is OutOfFuel ==> error_trap_kind(e) == Some(TrapKind::OutOfFuel));
                assert(r->Err_0 is Timeout ==> error_trap_kind(e) == Some(TrapKind::Interrupt));
            }
        }
        r
    }
}

} // verus!
