use crucible::ByteSize;

#[test]
fn unit_constructors_match_byte_counts() {
    assert_eq!(ByteSize::bytes(512).as_bytes(), 512);
    assert_eq!(ByteSize::kib(1).as_bytes(), 1024);
    assert_eq!(ByteSize::mib(1).as_bytes(), 1024 * 1024);
    assert_eq!(ByteSize::gib(1).as_bytes(), 1024 * 1024 * 1024);
}

#[test]
fn equal_sizes_compare_equal_regardless_of_constructor() {
    assert_eq!(ByteSize::kib(1024), ByteSize::mib(1));
    assert_eq!(ByteSize::mib(1024), ByteSize::gib(1));
}

#[test]
fn sizes_scale_by_1024_between_units() {
    assert_eq!(ByteSize::kib(3).as_bytes(), 3 * 1024);
    assert_eq!(ByteSize::mib(5).as_bytes(), 5 * 1024 * 1024);
    assert_eq!(ByteSize::gib(7).as_bytes(), 7 * 1024 * 1024 * 1024);
    assert_eq!(ByteSize::bytes(2048), ByteSize::kib(2));
    assert_ne!(ByteSize::bytes(2047), ByteSize::kib(2));
}

#[test]
fn sizes_order_by_byte_count() {
    assert!(ByteSize::kib(1) < ByteSize::mib(1));
    assert!(ByteSize::bytes(1025) > ByteSize::kib(1));
}

#[test]
fn largest_sizes_do_not_overflow() {
    assert_eq!(ByteSize::bytes(u64::MAX).as_bytes(), u64::MAX);
    assert_eq!(ByteSize::gib(u64::MAX / (1024 * 1024 * 1024)).as_bytes(), (u64::MAX / (1024 * 1024 * 1024)) * 1024 * 1024 * 1024);
}
