use wasmtime::ResourceLimiter;
use crucible::CrucibleResourceLimiter;

#[test]
fn fresh_limiter_has_refused_nothing() {
    let l = CrucibleResourceLimiter::new(65536);
    assert!(!l.refused_memory_growth());
}

#[test]
fn growth_up_to_the_cap_is_granted() {
    let mut l = CrucibleResourceLimiter::new(65536);
    assert!(l.decide_memory_growth(0, 65536, None));
    assert!(l.decide_memory_growth(0, 0, Some(10)));
    assert!(!l.refused_memory_growth());
}

#[test]
fn growth_above_the_cap_is_denied_and_remembered() {
    let mut l = CrucibleResourceLimiter::new(65536);
    assert!(!l.decide_memory_growth(65536, 65537, None));
    assert!(l.refused_memory_growth());
    // a later granted request does not clear the flag
    assert!(l.decide_memory_growth(0, 1024, None));
    assert!(l.refused_memory_growth());
}

#[test]
fn tables_always_grow_and_one_of_each_is_allowed() {
    let mut l = CrucibleResourceLimiter::new(0);
    assert!(l.decide_table_growth(0, usize::MAX, None));
    assert!(!l.refused_memory_growth());
    assert_eq!(l.instances(), 1);
    assert_eq!(l.tables(), 1);
    assert_eq!(l.memories(), 1);
}

#[test]
fn limiter_as_wasmtime_resource_limiter() {
    let mut l = CrucibleResourceLimiter::new(10);
    assert!(ResourceLimiter::memory_growing(&mut l, 0, 10, None).unwrap());
    assert!(!ResourceLimiter::memory_growing(&mut l, 0, 11, None).unwrap());
    assert!(ResourceLimiter::table_growing(&mut l, 0, 100, None).unwrap());
    assert!(l.refused_memory_growth());
}
