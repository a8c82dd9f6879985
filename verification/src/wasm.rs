//! The boundary with the `wasmtime` and `wasmtime_wasi` crates: the outside
//! types the library carries, the names for what outside calls return, and
//! the trusted wrappers around the outside calls it makes (each says what it
//! claims; none is proved). The limiter's `ResourceLimiter` impl here is
//! verified: it hands each decision to the limiter's verified methods.
use std::time::Duration;
use vstd::prelude::*;

use crate::limits::CrucibleResourceLimiter;

verus! {

#[verifier::external_type_specification]
#[verifier::external_body]
pub struct ExWasmtimeError(wasmtime::Error);

#[verifier::external_type_specification]
#[verifier::external_body]
pub struct ExEngine(wasmtime::Engine);

#[verifier::external_type_specification]
#[verifier::external_body]
pub struct ExModule(wasmtime::Module);

#[verifier::external_type_specification]
#[verifier::external_body]
pub struct ExInstance(wasmtime::Instance);

#[verifier::external_type_specification]
#[verifier::external_body]
pub struct ExFunc(wasmtime::Func);

#[verifier::external_type_specification]
#[verifier::external_body]
pub struct ExVal(wasmtime::Val);

#[verifier::external_type_specification]
#[verifier::external_body]
#[verifier::reject_recursive_types(T)]
pub struct ExStore<T: 'static>(wasmtime::Store<T>);

#[verifier::external_type_specification]
#[verifier::external_body]
pub struct ExWasiP1Ctx(wasmtime_wasi::p1::WasiP1Ctx);

#[verifier::external_type_specification]
#[verifier::external_body]
pub struct ExIoError(std::io::Error);

/// What a guest store carries: the memory limiter of the call, and the WASI
/// context of the call when one was built.
pub struct SandboxData {
    pub limiter: CrucibleResourceLimiter,
    pub wasi_p1_ctx: Option<wasmtime_wasi::p1::WasiP1Ctx>,
}

/// The kinds of trap that the library tells apart when a call fails.
#[derive(Debug, Clone, Copy, PartialEq, Eq, Structural)]
pub enum TrapKind {
    /// The guest used up its fuel.
    OutOfFuel,
    /// The epoch deadline passed: the call ran out of time.
    Interrupt,
    /// The guest accessed linear memory out of bounds.
    MemoryOutOfBounds,
    /// Any other trap.
    Other,
}

/// The limiter that wasmtime consults for each store: memory growth is
/// decided by `CrucibleResourceLimiter::decide_memory_growth`, tables may always
/// grow, and a store holds at most one instance, table and memory.
impl wasmtime::ResourceLimiter for CrucibleResourceLimiter {
    fn memory_growing(&mut self, current: usize, desired: usize, maximum: Option<usize>) -> (granted: Result<bool, wasmtime::Error>)
        ensures
            granted == Ok::<bool, wasmtime::Error>(desired <= old(self).cap()),
            CrucibleResourceLimiter::grow_step(*old(self), *final(self), desired),
    {
        Ok(CrucibleResourceLimiter::decide_memory_growth(self, current, desired, maximum))
    }

    fn table_growing(&mut self, current: usize, desired: usize, maximum: Option<usize>) -> (granted: Result<bool, wasmtime::Error>)
        ensures
            granted == Ok::<bool, wasmtime::Error>(true),
            *final(self) == *old(self),
    {
        Ok(CrucibleResourceLimiter::decide_table_growth(self, current, desired, maximum))
    }

    fn instances(&self) -> (count: usize)
        ensures
            count == 1,
    {
        CrucibleResourceLimiter::instances(self)
    }

    fn tables(&self) -> (count: usize)
        ensures
            count == 1,
    {
        CrucibleResourceLimiter::tables(self)
    }

    fn memories(&self) -> (count: usize)
        ensures
            count == 1,
    {
        CrucibleResourceLimiter::memories(self)
    }
}

/// A name for whether an engine's compiled code counts fuel, as
/// `wasmtime::Engine::config` reports it (`Config::consume_fuel`).
pub uninterp spec fn engine_consumes_fuel(e: wasmtime::Engine) -> bool;

/// A name for whether an engine's compiled code checks the epoch deadline,
/// as `wasmtime::Engine::config` reports it (`Config::epoch_interruption`).
pub uninterp spec fn engine_checks_epochs(e: wasmtime::Engine) -> bool;

/// A name for what `wasmtime::Store::engine` returns: the engine a store was
/// made on.
pub uninterp spec fn store_engine(s: wasmtime::Store<SandboxData>) -> wasmtime::Engine;

/// A name for the store that a store is, one that outlives mutation:
/// wasmtime's internal `StoreId`. wasmtime panics when a function or
/// instance is used with a store that does not own it.
pub uninterp spec fn store_id(s: wasmtime::Store<SandboxData>) -> int;

/// A name for the store that owns an instance (its `StoreId`).
pub uninterp spec fn instance_store(i: wasmtime::Instance) -> int;

/// A name for the store that owns a function (its `StoreId`).
pub uninterp spec fn func_store(f: wasmtime::Func) -> int;

/// A name for what `wasmtime::Store::data` returns: the data the store holds.
pub uninterp spec fn store_data_of(s: wasmtime::Store<SandboxData>) -> SandboxData;

/// A name for what `wasmtime::Store::get_fuel` returns once fuel was set:
/// the fuel the store has left.
pub uninterp spec fn store_fuel(s: wasmtime::Store<SandboxData>) -> u64;

/// A name for the epoch deadline of a store: the number of engine epoch
/// ticks, counted from when it was set, after which the store's guest traps.
pub uninterp spec fn store_epoch_deadline(s: wasmtime::Store<SandboxData>) -> u64;

/// A name for whether a store consults its data's limiter on every growth of
/// memory or tables (`wasmtime::Store::limiter` was called).
pub uninterp spec fn store_uses_limiter(s: wasmtime::Store<SandboxData>) -> bool;

/// A name for whether `engine` accepts `wasm` as a module: what
/// `wasmtime::Module::validate` decides, a function of the engine's
/// configuration and the bytes.
pub uninterp spec fn engine_accepts_module(engine: wasmtime::Engine, wasm: Seq<u8>) -> bool;

/// A name for whether the module that the bytes `wasm` encode exports a
/// function called `name` (its export section has a function export of that
/// name), as `wasmtime::Instance::get_func` finds it in an instance of it.
pub uninterp spec fn wasm_exports_func(wasm: Seq<u8>, name: Seq<char>) -> bool;

/// A name for the bytes a `wasmtime::Module` was compiled from.
pub uninterp spec fn module_bytes(m: wasmtime::Module) -> Seq<u8>;

/// A name for the bytes of the module a `wasmtime::Instance` was made from.
pub uninterp spec fn instance_bytes(i: wasmtime::Instance) -> Seq<u8>;

/// A name for how many results a function returns, as
/// `wasmtime::Func::ty(..).results().len()` reports it.
pub uninterp spec fn func_result_count(f: wasmtime::Func) -> nat;

/// A name for the possible outcomes of `wasmtime::Func::call`: whether
/// calling `f` with `args` in the store `before` may end with `outcome`,
/// leave `results` as the results it wrote, and leave the store as `after`.
/// It is a relation, not a function: which outcome a call has depends on the
/// guest, the store it starts from (its fuel, epoch deadline and limiter),
/// and the time it takes.
pub uninterp spec fn call_may_return(
    f: wasmtime::Func,
    before: wasmtime::Store<SandboxData>,
    args: Seq<wasmtime::Val>,
    outcome: Result<(), wasmtime::Error>,
    results: Seq<wasmtime::Val>,
    after: wasmtime::Store<SandboxData>,
) -> bool;

/// A name for the kind of trap an error is, as `trap_kind` tells it from
/// `wasmtime::Error::downcast_ref::<wasmtime::Trap>`.
pub uninterp spec fn error_trap_kind(e: wasmtime::Error) -> Option<TrapKind>;

/// Whether `after` is the same store as `before`, on the same engine, with
/// the same data, fuel, epoch deadline and limiter in use.
pub open spec fn store_unchanged(before: wasmtime::Store<SandboxData>, after: wasmtime::Store<SandboxData>) -> bool {
    &&& store_id(after) == store_id(before)
    &&& store_engine(after) == store_engine(before)
    &&& store_data_of(after) == store_data_of(before)
    &&& store_fuel(after) == store_fuel(before)
    &&& store_epoch_deadline(after) == store_epoch_deadline(before)
    &&& store_uses_limiter(after) == store_uses_limiter(before)
}

/// Calls `wasmtime::Config::default`, `Config::consume_fuel`,
/// `Config::epoch_interruption` and `wasmtime::Engine::new`. An engine that
/// is built counts fuel exactly when `consume_fuel` holds and checks epoch
/// deadlines exactly when `epoch_interruption` holds (`Engine::new` keeps a
/// copy of the config). Whether the engine can be built depends on the host,
/// so success is not claimed.
#[verifier::external_body]
pub(crate) fn new_engine(consume_fuel: bool, epoch_interruption: bool) -> (r: Result<wasmtime::Engine, wasmtime::Error>)
    ensures
        r matches Ok(e) ==> engine_consumes_fuel(e) == consume_fuel
            && engine_checks_epochs(e) == epoch_interruption,
{
    let mut config = wasmtime::Config::default();
    config.consume_fuel(consume_fuel);
    config.epoch_interruption(epoch_interruption);
    wasmtime::Engine::new(&config)
}

/// Calls `wasmtime::Store::new`: a fresh store on `engine` that holds `data`
/// and has no limiter yet.
#[verifier::external_body]
pub(crate) fn new_store(engine: &wasmtime::Engine, data: SandboxData) -> (r: wasmtime::Store<SandboxData>)
    ensures
        store_engine(r) == *engine,
        store_data_of(r) == data,
        !store_uses_limiter(r),
{
    wasmtime::Store::new(engine, data)
}

/// Calls `wasmtime::Store::set_fuel`: on success the store has `fuel` left.
/// wasmtime documents an error when the engine does not consume fuel, or when
/// memory runs out; that is left to the outcome. The store stays the same
/// store, on the same engine, with the same data, deadline and limiter.
#[verifier::external_body]
pub(crate) fn store_set_fuel(store: &mut wasmtime::Store<SandboxData>, fuel: u64) -> (r: Result<(), wasmtime::Error>)
    ensures
        r is Ok ==> store_fuel(*final(store)) == fuel,
        store_id(*final(store)) == store_id(*old(store)),
        store_engine(*final(store)) == store_engine(*old(store)),
        store_data_of(*final(store)) == store_data_of(*old(store)),
        store_epoch_deadline(*final(store)) == store_epoch_deadline(*old(store)),
        store_uses_limiter(*final(store)) == store_uses_limiter(*old(store)),
{
    store.set_fuel(fuel)
}

/// Calls `wasmtime::Store::set_epoch_deadline`: the guest traps once the
/// engine's epoch has been incremented `ticks` times. wasmtime adds `ticks`
/// to the engine's current epoch in a `u64`, so `ticks` is kept to half of
/// the `u64` range; the engine's epoch, ticked once per millisecond of a
/// call, stays below the other half (2^63 ticks is some 292 million
/// years). The store stays the same store, on the same engine, with the same
/// data, fuel and limiter.
#[verifier::external_body]
pub(crate) fn store_set_epoch_deadline(store: &mut wasmtime::Store<SandboxData>, ticks: u64)
    requires
        ticks <= u64::MAX / 2,
    ensures
        store_epoch_deadline(*final(store)) == ticks,
        store_id(*final(store)) == store_id(*old(store)),
        store_engine(*final(store)) == store_engine(*old(store)),
        store_data_of(*final(store)) == store_data_of(*old(store)),
        store_fuel(*final(store)) == store_fuel(*old(store)),
        store_uses_limiter(*final(store)) == store_uses_limiter(*old(store)),
{
    store.set_epoch_deadline(ticks)
}

/// Calls `wasmtime::Store::limiter` with a closure that picks the store's
/// `limiter` field, so that the store's growth is decided by it. Installing
/// it only reads the limiter's instance, table and memory counts, so the
/// data, fuel and deadline stay.
#[verifier::external_body]
pub(crate) fn store_use_limiter(store: &mut wasmtime::Store<SandboxData>)
    ensures
        store_uses_limiter(*final(store)),
        store_id(*final(store)) == store_id(*old(store)),
        store_engine(*final(store)) == store_engine(*old(store)),
        store_data_of(*final(store)) == store_data_of(*old(store)),
        store_fuel(*final(store)) == store_fuel(*old(store)),
        store_epoch_deadline(*final(store)) == store_epoch_deadline(*old(store)),
{
    store.limiter(|state| &mut state.limiter)
}

/// Calls `wasmtime::Store::data`: the data the store holds.
#[verifier::external_body]
pub(crate) fn store_data(store: &wasmtime::Store<SandboxData>) -> (r: &SandboxData)
    ensures
        *r == store_data_of(*store),
{
    store.data()
}

/// Calls `wasmtime::Module::from_binary`: compiles `wasm` for `engine`. Bytes
/// that the engine does not accept as a module never compile; a module that
/// is compiled is one the engine accepts, made from `wasm`. Compiling also
/// depends on the host's resources, so success is not claimed.
#[verifier::external_body]
pub(crate) fn compile_module(engine: &wasmtime::Engine, wasm: &[u8]) -> (r: Result<wasmtime::Module, wasmtime::Error>)
    ensures
        !engine_accepts_module(*engine, wasm@) ==> r is Err,
        r matches Ok(m) ==> engine_accepts_module(*engine, wasm@) && module_bytes(m) == wasm@,
{
    wasmtime::Module::from_binary(engine, wasm)
}

/// The unsigned LEB128 number that starts at `pos` in `b`, read over at most
/// `5 - k` more bytes (a `u32` takes at most five), with the position just
/// past it; `None` when the bytes end first or the number runs longer.
pub open spec fn leb128_at(b: Seq<u8>, pos: int, k: nat) -> Option<(int, int)>
    decreases 5 - k,
{
    if k >= 5 || pos < 0 || pos >= b.len() {
        None
    } else if b[pos] < 128 {
        Some((b[pos] as int, pos + 1))
    } else {
        match leb128_at(b, pos + 1, k + 1) {
            Some((rest, next)) => Some((b[pos] - 128 + 128 * rest, next)),
            None => None,
        }
    }
}

/// Whether the wasm sections from `pos` on in `b` (each an id byte, a
/// LEB128 size and that many bytes) run to the end of `b` and hold none of
/// the sections that make wasmtime run code when it instantiates a module:
/// a table (id 4), global (6), start (8), element (9) or data (11) section.
pub open spec fn sections_need_no_startup(b: Seq<u8>, pos: int) -> bool
    decreases b.len() - pos,
{
    if pos < 0 || pos > b.len() {
        false
    } else if pos == b.len() {
        true
    } else {
        match leb128_at(b, pos + 1, 0) {
            Some((size, next)) => {
                let id = b[pos];
                let end = next + size;
                &&& pos < end <= b.len()
                &&& id != 4 && id != 6 && id != 8 && id != 9 && id != 11
                &&& sections_need_no_startup(b, end)
            },
            None => false,
        }
    }
}

/// Whether the wasm module `wasm` (an 8-byte header, then its sections)
/// has no section that needs a startup function when it is instantiated:
/// no start function, and no table, global, element or data section whose
/// initialisation wasmtime defers to one.
pub open spec fn module_needs_no_startup(wasm: Seq<u8>) -> bool {
    wasm.len() >= 8 && sections_need_no_startup(wasm, 8)
}

/// Calls `wasmtime::Instance::new` with no imports: instantiates `module`
/// in `store`, or fails (for instance when the module has imports, or its
/// start function traps). An instance that is made belongs to `store` and
/// comes from `module`'s bytes. The store stays the same store, on the same
/// engine, with the same limiter in use and the same epoch deadline; its fuel
/// only goes down (a start function uses it), and stays when the module
/// needs no startup function (see `module_needs_no_startup`: wasmtime then
/// runs no guest code while instantiating); its data changes only through
/// the limiter's decisions, which keep the limiter's cap.
#[verifier::external_body]
pub(crate) fn instantiate(store: &mut wasmtime::Store<SandboxData>, module: &wasmtime::Module) -> (r: Result<wasmtime::Instance, wasmtime::Error>)
    ensures
        store_id(*final(store)) == store_id(*old(store)),
        store_engine(*final(store)) == store_engine(*old(store)),
        store_uses_limiter(*final(store)) == store_uses_limiter(*old(store)),
        store_epoch_deadline(*final(store)) == store_epoch_deadline(*old(store)),
        store_data_of(*final(store)).limiter.cap() == store_data_of(*old(store)).limiter.cap(),
        store_fuel(*final(store)) <= store_fuel(*old(store)),
        module_needs_no_startup(module_bytes(*module)) ==> store_fuel(*final(store)) == store_fuel(
            *old(store),
        ),
        r matches Ok(i) ==> instance_store(i) == store_id(*final(store))
            && instance_bytes(i) == module_bytes(*module),
{
    wasmtime::Instance::new(store, module, &[])
}

/// Calls `wasmtime::Instance::get_func`: the exported function called
/// `name`, exactly when the instance's module exports one; it belongs to the
/// instance's store. The instance must belong to `store`, else wasmtime
/// panics. Looking up an export runs no guest code: wasmtime may fill in a
/// cached export in the store, but the store's identity, engine, data, fuel,
/// deadline and limiter stay.
#[verifier::external_body]
pub(crate) fn exported_func(instance: &wasmtime::Instance, store: &mut wasmtime::Store<SandboxData>, name: &str) -> (r: Option<wasmtime::Func>)
    requires
        instance_store(*instance) == store_id(*old(store)),
    ensures
        store_unchanged(*old(store), *final(store)),
        (r is Some) == wasm_exports_func(instance_bytes(*instance), name@),
        r matches Some(f) ==> func_store(f) == instance_store(*instance),
{
    instance.get_func(store, name)
}

/// Calls `wasmtime::Func::ty` and `FuncType::results`: how many results
/// `func` returns. `func` must belong to `store`, else wasmtime panics.
#[verifier::external_body]
pub(crate) fn result_count(func: &wasmtime::Func, store: &wasmtime::Store<SandboxData>) -> (r: usize)
    requires
        func_store(*func) == store_id(*store),
    ensures
        r == func_result_count(*func),
{
    func.ty(store).results().len()
}

/// Builds `n` placeholder values `wasmtime::Val::I32(0)` for a call to
/// overwrite with its results.
#[verifier::external_body]
pub(crate) fn placeholder_results(n: usize) -> (r: Vec<wasmtime::Val>)
    ensures
        r.len() == n,
{
    vec![wasmtime::Val::I32(0); n]
}

/// Calls `wasmtime::Func::call`: runs `func` with `args`, writing its
/// results into `results`, whose number stays (it is a slice). What comes
/// back, and the store the call leaves, are one of the possible outcomes of
/// calling `func` with `args` in the store as it was, which depend on the
/// guest, the store's fuel, deadline and limiter, and the time it takes. A guest runs out of
/// fuel only on an engine that counts fuel, and is interrupted only on one
/// that checks epoch deadlines (wasmtime inserts those checks only then).
/// `func` must belong to `store`, else wasmtime panics; the store stays the
/// same store, on the same engine.
#[verifier::external_body]
pub(crate) fn call_func(func: &wasmtime::Func, store: &mut wasmtime::Store<SandboxData>, args: &[wasmtime::Val], results: &mut Vec<wasmtime::Val>) -> (r: Result<(), wasmtime::Error>)
    requires
        func_store(*func) == store_id(*old(store)),
    ensures
        final(results).len() == old(results).len(),
        store_id(*final(store)) == store_id(*old(store)),
        store_engine(*final(store)) == store_engine(*old(store)),
        call_may_return(*func, *old(store), args@, r, final(results)@, *final(store)),
        r matches Err(e) ==> (error_trap_kind(e) == Some(TrapKind::OutOfFuel) ==> engine_consumes_fuel(
            store_engine(*old(store)),
        )) && (error_trap_kind(e) == Some(TrapKind::Interrupt) ==> engine_checks_epochs(
            store_engine(*old(store)),
        )),
{
    func.call(store, args, results)
}

/// Calls `wasmtime::Error::downcast_ref::<wasmtime::Trap>` and tells the
/// trap's variants apart: `None` when the error is no trap. The kind is a
/// function of the error alone.
#[verifier::external_body]
pub(crate) fn trap_kind(e: &wasmtime::Error) -> (r: Option<TrapKind>)
    ensures
        r == error_trap_kind(*e),
{
    match e.downcast_ref::<wasmtime::Trap>() {
        Some(wasmtime::Trap::OutOfFuel) => Some(TrapKind::OutOfFuel),
        Some(wasmtime::Trap::Interrupt) => Some(TrapKind::Interrupt),
        Some(wasmtime::Trap::MemoryOutOfBounds) => Some(TrapKind::MemoryOutOfBounds),
        Some(_) => Some(TrapKind::Other),
        None => None,
    }
}

/// A name for what `Duration::as_millis` returns: the whole number of
/// milliseconds in a duration.
pub uninterp spec fn duration_as_millis(d: Duration) -> u128;

/// Calls `std::time::Duration::as_millis`: the whole milliseconds in `d`.
#[verifier::external_body]
pub(crate) fn millis_of(d: &Duration) -> (r: u128)
    ensures
        r == duration_as_millis(*d),
{
    d.as_millis()
}

/// Formats `d` with its `Debug` implementation (`format!("{d:?}")`).
#[verifier::external_body]
pub(crate) fn debug_text(d: &Duration) -> (r: String) {
    format!("{d:?}")
}

} // verus!
