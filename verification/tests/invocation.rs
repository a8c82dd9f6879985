use crucible::{DirAccess, Sandbox};

#[test]
fn preopens_are_recorded_in_order_with_their_access() {
    let s = Sandbox::builder(Sandbox::default_memory_limit()).build().unwrap();
    let bytes = wat::parse_str("(module (func (export \"noop\")))").unwrap();
    let inv = s
        .module(&bytes)
        .allow_read_dir("/host/in", "/in")
        .allow_write_dir(std::path::PathBuf::from("/host/out"), String::from("/out"));
    let p = inv.preopens();
    assert_eq!(p.len(), 2);
    assert_eq!(p[0].access(), DirAccess::Read);
    assert_eq!(p[0].host_path(), &std::path::PathBuf::from("/host/in"));
    assert_eq!(p[0].guest_path(), "/in");
    assert_eq!(p[1].access(), DirAccess::ReadWrite);
    assert_eq!(p[1].host_path(), &std::path::PathBuf::from("/host/out"));
    assert_eq!(p[1].guest_path(), "/out");
    assert_eq!(inv.wasm(), &bytes[..]);
}
