use feature_flags::logging::LogEntry;

#[test]
fn record_field_routes_the_message_to_its_slot() {
    let mut entry = LogEntry::new(
        "2024-01-01T00:00:00Z".to_string(),
        "INFO".to_string(),
        "app".to_string(),
    );
    entry.record_field("message".to_string(), "hello".to_string());
    entry.record_field("key".to_string(), "value".to_string());

    assert_eq!(entry.message, "hello");
    assert_eq!(
        entry.fields,
        vec![("key".to_string(), "value".to_string())]
    );
    assert_eq!(entry.timestamp, "2024-01-01T00:00:00Z");
    assert_eq!(entry.level, "INFO");
    assert_eq!(entry.target, "app");
}

#[test]
fn record_field_keeps_non_message_fields_in_order() {
    let mut entry = LogEntry::new(String::new(), String::new(), String::new());
    entry.record_field("first".to_string(), "1".to_string());
    entry.record_field("second".to_string(), "2".to_string());

    assert_eq!(entry.message, "");
    assert_eq!(
        entry.fields,
        vec![
            ("first".to_string(), "1".to_string()),
            ("second".to_string(), "2".to_string()),
        ]
    );
}
