use std::time::Duration;

use crucible::{ByteSize, Sandbox, SandboxBuilder};

#[test]
fn default_memory_limit_is_one_wasm_page() {
    assert_eq!(Sandbox::default_memory_limit().as_bytes(), 64 * 1024);
}

#[test]
fn sandbox_default_builder_uses_default_memory_limit() {
    let b = SandboxBuilder::default();
    assert_eq!(b.memory_limit(), Sandbox::default_memory_limit());
}

#[test]
fn sandbox_builder_starts_with_no_fuel_or_timeout() {
    let b = Sandbox::builder(ByteSize::mib(1));
    assert_eq!(b.memory_limit(), ByteSize::mib(1));
    assert_eq!(b.fuel_limit(), None);
    assert_eq!(b.timeout_limit(), None);
}

#[test]
fn sandbox_setters_record_values() {
    let b = Sandbox::builder(Sandbox::default_memory_limit())
        .fuel(1_000)
        .timeout(Duration::from_millis(500));
    assert_eq!(b.memory_limit(), Sandbox::default_memory_limit());
    assert_eq!(b.fuel_limit(), Some(1_000));
    assert_eq!(b.timeout_limit(), Some(Duration::from_millis(500)));
}

#[test]
fn sandbox_last_setter_wins() {
    let b = Sandbox::builder(Sandbox::default_memory_limit())
        .fuel(100)
        .fuel(200);
    assert_eq!(b.fuel_limit(), Some(200));
}

#[test]
fn build_with_no_options_succeeds() {
    let sandbox = Sandbox::builder(Sandbox::default_memory_limit())
        .build()
        .expect("build should succeed");
    assert_eq!(sandbox.fuel_limit(), None);
    assert_eq!(sandbox.memory_limit(), Sandbox::default_memory_limit());
    assert_eq!(sandbox.timeout(), None);
}

#[test]
fn build_propagates_all_limits_to_sandbox() {
    let sandbox = Sandbox::builder(ByteSize::mib(2))
        .fuel(10_000)
        .timeout(Duration::from_millis(250))
        .build()
        .expect("build should succeed");
    assert_eq!(sandbox.fuel_limit(), Some(10_000));
    assert_eq!(sandbox.memory_limit(), ByteSize::mib(2));
    assert_eq!(sandbox.timeout(), Some(Duration::from_millis(250)));
}

#[test]
fn builder_default_builder_uses_default_memory_limit() {
    let b = SandboxBuilder::default();
    assert_eq!(b.memory_limit(), Sandbox::default_memory_limit());
}

#[test]
fn builder_builder_starts_with_no_fuel_or_timeout() {
    let b = Sandbox::builder(ByteSize::mib(1));
    assert_eq!(b.memory_limit(), ByteSize::mib(1));
    assert_eq!(b.fuel_limit(), None);
    assert_eq!(b.timeout_limit(), None);
}

#[test]
fn builder_setters_record_values() {
    let b = Sandbox::builder(Sandbox::default_memory_limit())
        .fuel(1_000)
        .timeout(Duration::from_millis(500));
    assert_eq!(b.memory_limit(), Sandbox::default_memory_limit());
    assert_eq!(b.fuel_limit(), Some(1_000));
    assert_eq!(b.timeout_limit(), Some(Duration::from_millis(500)));
}

#[test]
fn builder_last_setter_wins() {
    let b = Sandbox::builder(Sandbox::default_memory_limit())
        .fuel(100)
        .fuel(200);
    assert_eq!(b.fuel_limit(), Some(200));
}

#[test]
fn build_returns_ok_with_no_options() {
    let result = Sandbox::builder(Sandbox::default_memory_limit()).build();
    assert!(result.is_ok());
}

#[test]
fn build_returns_ok_with_all_limits() {
    let result = Sandbox::builder(ByteSize::mib(2))
        .fuel(10_000)
        .timeout(Duration::from_millis(250))
        .build();
    assert!(result.is_ok());
}

#[test]
fn timeout_setter_keeps_fuel_and_memory_limit() {
    let b = Sandbox::builder(ByteSize::kib(128))
        .fuel(7)
        .timeout(Duration::from_millis(1))
        .timeout(Duration::from_secs(2));
    assert_eq!(b.memory_limit(), ByteSize::kib(128));
    assert_eq!(b.fuel_limit(), Some(7));
    assert_eq!(b.timeout_limit(), Some(Duration::from_secs(2)));
}
