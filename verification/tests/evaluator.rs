use feature_flags::evaluator::EvaluationContext;

#[test]
fn default_context_is_empty() {
    let context = EvaluationContext::default();
    assert!(context.user_id.is_none());
    assert!(context.user_segment.is_none());
    assert!(context.properties.is_empty());
}

#[test]
fn context_carries_arbitrary_properties() {
    let mut context = EvaluationContext::new();
    context.user_id = Some("user-1".to_string());
    context.properties.insert("region".to_string(), "eu".to_string());

    assert_eq!(context.user_id.as_deref(), Some("user-1"));
    assert_eq!(context.properties.get("region"), Some(&"eu".to_string()));
}
