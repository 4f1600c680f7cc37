use b2ghald::table::CorrelationTable;

#[test]
fn register_then_resolve_returns_sink_once() {
    let mut table: CorrelationTable<String> = CorrelationTable::new();
    table.register(7, String::from("listener for 7"));
    table.register(9, String::from("listener for 9"));
    assert_eq!(table.len(), 2);

    // The first resolve hands back exactly the registered sink and drops it.
    assert_eq!(table.resolve(7), Some(String::from("listener for 7")));
    assert!(!table.contains(7));
    assert_eq!(table.len(), 1);

    // The second resolve of the same id misses.
    assert_eq!(table.resolve(7), None);

    // The other entry was never disturbed.
    assert!(table.contains(9));
    assert_eq!(table.resolve(9), Some(String::from("listener for 9")));
    assert_eq!(table.len(), 0);
}

#[test]
fn resolve_unregistered_is_a_miss_and_mutates_nothing() {
    let mut table: CorrelationTable<u32> = CorrelationTable::new();
    table.register(1, 100);
    table.register(2, 200);

    assert_eq!(table.resolve(42), None);

    assert_eq!(table.len(), 2);
    assert!(table.contains(1));
    assert!(table.contains(2));
    assert_eq!(table.resolve(1), Some(100));
    assert_eq!(table.resolve(2), Some(200));
}

#[test]
fn empty_table_misses_every_id() {
    let mut table: CorrelationTable<u32> = CorrelationTable::new();
    assert_eq!(table.len(), 0);
    assert_eq!(table.resolve(0), None);
    assert_eq!(table.resolve(u64::MAX), None);
    assert_eq!(table.len(), 0);
}
