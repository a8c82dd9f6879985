use std::time::Duration;

use crucible::sandbox::watchdog_continues;
use crucible::{ByteSize, CrucibleResourceLimiter, Sandbox, SandboxData, SandboxError, TrapKind};
use wasmtime::Val;

fn wasm(text: &str) -> Vec<u8> {
    wat::parse_str(text).expect("test wat should compile")
}

/// Prepares and runs a call without a watchdog thread.
fn run(s: &Sandbox, bytes: &[u8], name: &str, args: &[Val]) -> Result<Vec<Val>, SandboxError> {
    let call = s.prepare(bytes, name, None)?;
    s.execute(call, args)
}

/// Prepares a call, moves the engine's epoch well past any deadline of a few
/// dozen milliseconds, then runs it.
fn run_after_ticks(s: &Sandbox, bytes: &[u8], name: &str, ticks: u32) -> Result<Vec<Val>, SandboxError> {
    let call = s.prepare(bytes, name, None)?;
    for _ in 0..ticks {
        s.engine().increment_epoch();
    }
    s.execute(call, &[])
}

fn default_sandbox() -> Sandbox {
    Sandbox::builder(Sandbox::default_memory_limit()).build().unwrap()
}

#[test]
fn run_executes_function_with_no_args_or_results() {
    let sandbox = default_sandbox();
    let bytes = wasm("(module (func (export \"noop\")))");
    let result = run(&sandbox, &bytes, "noop", &[]).expect("call should succeed");
    assert!(result.is_empty());
}

#[test]
fn run_returns_value_from_no_arg_function() {
    let sandbox = default_sandbox();
    let bytes = wasm("(module (func (export \"answer\") (result i32) i32.const 42))");
    let result = run(&sandbox, &bytes, "answer", &[]).unwrap();
    assert_eq!(result.len(), 1);
    assert_eq!(result[0].i32(), Some(42));
}

#[test]
fn run_passes_args_and_returns_result() {
    let sandbox = default_sandbox();
    let bytes = wasm(
        "(module (func (export \"add\") (param i32 i32) (result i32)
            local.get 0 local.get 1 i32.add))",
    );
    let result = run(&sandbox, &bytes, "add", &[Val::I32(7), Val::I32(35)]).unwrap();
    assert_eq!(result[0].i32(), Some(42));
}

#[test]
fn run_returns_trap_when_export_missing() {
    let sandbox = default_sandbox();
    let bytes = wasm("(module (func (export \"only\")))");
    let err = run(&sandbox, &bytes, "missing", &[]).unwrap_err();
    match err {
        SandboxError::Trap(msg) => {
            assert!(msg.contains("missing"));
            assert_eq!(msg, "Export 'missing', not found!");
        }
        other => panic!("expected Trap, got {other:?}"),
    }
}

#[test]
fn run_returns_compile_error_for_invalid_bytes() {
    let sandbox = default_sandbox();
    let err = run(&sandbox, b"definitely not wasm", "anything", &[]).unwrap_err();
    assert!(matches!(err, SandboxError::Compile(_)));
}

#[test]
fn run_returns_out_of_fuel_when_fuel_is_exhausted() {
    let sandbox = Sandbox::builder(Sandbox::default_memory_limit())
        .fuel(10)
        .build()
        .unwrap();
    let bytes = wasm("(module (func (export \"spin\") (loop $l br $l)))");
    let err = run(&sandbox, &bytes, "spin", &[]).unwrap_err();
    assert!(matches!(err, SandboxError::OutOfFuel));
}

#[test]
fn run_traps_when_arg_types_mismatch_signature() {
    let sandbox = default_sandbox();
    let bytes = wasm("(module (func (export \"need_i32\") (param i32)))");
    let err = run(&sandbox, &bytes, "need_i32", &[Val::I64(0)]).unwrap_err();
    assert!(matches!(err, SandboxError::Trap(_)));
}

#[test]
fn run_times_out_on_infinite_loop() {
    let sandbox = Sandbox::builder(Sandbox::default_memory_limit())
        .timeout(Duration::from_millis(50))
        .build()
        .unwrap();
    let bytes = wasm("(module (func (export \"spin\") (loop $l br $l)))");
    let err = run_after_ticks(&sandbox, &bytes, "spin", 100).unwrap_err();
    assert!(matches!(err, SandboxError::Timeout));
}

#[test]
fn prepare_rejects_timeout_beyond_half_the_epoch_range() {
    let s = Sandbox::builder(Sandbox::default_memory_limit())
        .timeout(Duration::from_millis(u64::MAX / 2 + 1))
        .build()
        .unwrap();
    let bytes = wasm("(module (func (export \"noop\")))");
    assert!(matches!(s.prepare(&bytes, "noop", None), Err(SandboxError::InvalidConfig(_))));
    let s = Sandbox::builder(Sandbox::default_memory_limit())
        .timeout(Duration::from_millis(u64::MAX / 2))
        .build()
        .unwrap();
    assert!(s.prepare(&bytes, "noop", None).is_ok());
}

#[test]
fn prepare_rejects_timeout_beyond_u64_milliseconds() {
    let s = Sandbox::builder(Sandbox::default_memory_limit())
        .timeout(Duration::MAX)
        .build()
        .unwrap();
    let bytes = wasm("(module (func (export \"noop\")))");
    match s.prepare(&bytes, "noop", None) {
        Err(SandboxError::InvalidConfig(msg)) => {
            assert!(msg.starts_with("timeout "));
            assert!(msg.ends_with(" exceeds u64 ms"));
        }
        Err(other) => panic!("expected InvalidConfig, got {other:?}"),
        Ok(_) => panic!("expected InvalidConfig, got a prepared call"),
    }
}

#[test]
fn prepared_call_runs_in_an_invocation_sandbox() {
    let s = default_sandbox();
    let bytes = wasm("(module (func (export \"answer\") (result i32) i32.const 42))");
    let inv = s.module(&bytes);
    assert!(inv.preopens().is_empty());
    let call = inv.sandbox().prepare(inv.wasm(), "answer", None).unwrap();
    let result = inv.sandbox().execute(call, &[]).unwrap();
    assert_eq!(result[0].i32(), Some(42));
}

#[test]
fn classification_of_call_failures() {
    let s = default_sandbox();
    let msg = || String::from("boom");
    assert!(matches!(s.classify_call_error(Some(TrapKind::OutOfFuel), true, msg()), SandboxError::OutOfFuel));
    assert!(matches!(s.classify_call_error(Some(TrapKind::Interrupt), true, msg()), SandboxError::Timeout));
    assert!(matches!(
        s.classify_call_error(Some(TrapKind::MemoryOutOfBounds), true, msg()),
        SandboxError::MemoryExceeded { limit_bytes: 65536 }
    ));
    match s.classify_call_error(Some(TrapKind::MemoryOutOfBounds), false, msg()) {
        SandboxError::Trap(m) => assert_eq!(m, "boom"),
        other => panic!("expected Trap, got {other:?}"),
    }
    match s.classify_call_error(Some(TrapKind::Other), true, msg()) {
        SandboxError::Trap(m) => assert_eq!(m, "boom"),
        other => panic!("expected Trap, got {other:?}"),
    }
    match s.classify_call_error(None, true, msg()) {
        SandboxError::Trap(m) => assert_eq!(m, "boom"),
        other => panic!("expected Trap, got {other:?}"),
    }
}

#[test]
fn watchdog_stops_past_the_grace_period_or_without_engine() {
    let timeout = 50_000_000u128;
    assert!(watchdog_continues(true, 0, timeout));
    assert!(watchdog_continues(true, timeout + 100_000_000, timeout));
    assert!(!watchdog_continues(true, timeout + 100_000_001, timeout));
    assert!(!watchdog_continues(false, 0, timeout));
}

#[test]
fn finish_call_returns_results_or_classified_failure() {
    let s = default_sandbox();
    let data = SandboxData { limiter: CrucibleResourceLimiter::new(65536), wasi_p1_ctx: None };
    let mut store = wasmtime::Store::new(s.engine(), data);

    let ok = s.finish_call(Ok(()), &store, vec![Val::I32(7)]).unwrap();
    assert_eq!(ok.len(), 1);
    assert_eq!(ok[0].i32(), Some(7));

    let e = s.finish_call(Err(wasmtime::Trap::OutOfFuel.into()), &store, vec![]).unwrap_err();
    assert!(matches!(e, SandboxError::OutOfFuel));
    let e = s.finish_call(Err(wasmtime::Trap::Interrupt.into()), &store, vec![]).unwrap_err();
    assert!(matches!(e, SandboxError::Timeout));

    // an out-of-bounds access with no denied growth is a plain trap
    let e = s.finish_call(Err(wasmtime::Trap::MemoryOutOfBounds.into()), &store, vec![]).unwrap_err();
    assert!(matches!(e, SandboxError::Trap(_)));

    // once the store's limiter has denied a growth, it is MemoryExceeded
    assert!(!store.data_mut().limiter.decide_memory_growth(65536, 1 << 20, None));
    let e = s.finish_call(Err(wasmtime::Trap::MemoryOutOfBounds.into()), &store, vec![]).unwrap_err();
    assert!(matches!(e, SandboxError::MemoryExceeded { limit_bytes: 65536 }));

    // an error that is no trap keeps its text
    match s.finish_call(Err(wasmtime::Error::msg("boom")), &store, vec![]).unwrap_err() {
        SandboxError::Trap(m) => assert!(m.contains("boom")),
        other => panic!("expected Trap, got {other:?}"),
    }
}
