use eap::environment::table::Table;

#[test]
fn table_reads_back_what_was_inserted() {
    let mut table = Table::new();
    assert_eq!(table.get(&"a".to_string()), None);
    table.insert("a".to_string(), "1".to_string());
    table.insert("b".to_string(), "2".to_string());
    table.insert("a".to_string(), "3".to_string());
    assert_eq!(table.get(&"a".to_string()), Some("3".to_string()));
    assert_eq!(table.get(&"b".to_string()), Some("2".to_string()));
    assert_eq!(table.get(&"c".to_string()), None);
}

#[test]
fn table_from_pairs_keeps_last_value() {
    let pairs = vec![
        ("x".to_string(), "1".to_string()),
        ("y".to_string(), "2".to_string()),
        ("x".to_string(), "4".to_string()),
    ];
    let table = Table::from_pairs(&pairs);
    assert_eq!(table.get(&"x".to_string()), Some("4".to_string()));
    assert_eq!(table.get(&"y".to_string()), Some("2".to_string()));
}
