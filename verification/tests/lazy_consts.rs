use lo_wasm::lazy_consts::LazyConsts;

#[test]
fn reserved_entries_are_unresolved() {
    let mut table = LazyConsts::new();
    assert_eq!(table.get(0), None);
    assert_eq!(table.reserve(), Some(0));
    assert_eq!(table.reserve(), Some(1));
    assert_eq!(table.get(0), None);
    assert_eq!(table.get(1), None);
    assert_eq!(table.get(2), None);
}

#[test]
fn an_entry_is_resolved_once() {
    let mut table = LazyConsts::new();
    let first = table.reserve().unwrap();
    let second = table.reserve().unwrap();
    assert!(table.resolve(second, -40));
    assert_eq!(table.get(second), Some(-40));
    assert_eq!(table.get(first), None);
    assert!(!table.resolve(second, 41));
    assert_eq!(table.get(second), Some(-40));
    assert!(table.resolve(first, 0));
    assert_eq!(table.get(first), Some(0));
    assert_eq!(table.reserve(), Some(2));
    assert_eq!(table.get(first), Some(0));
    assert_eq!(table.get(second), Some(-40));
}

#[test]
fn unknown_handles_cannot_be_resolved() {
    let mut table = LazyConsts::new();
    assert!(!table.resolve(0, 1));
    assert_eq!(table.get(0), None);
    table.reserve();
    assert!(!table.resolve(1, 1));
    assert!(!table.resolve(u32::MAX, 1));
    assert_eq!(table.get(u32::MAX), None);
}
