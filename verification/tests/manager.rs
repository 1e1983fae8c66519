use feature_flags::evaluator::{EvaluationContext, FeatureFlagEvaluator};
use feature_flags::manager::FeatureFlagManager;
use feature_flags::strategies::{PercentageRolloutEvaluator, UserSegmentEvaluator, FULL_ROLLOUT};

#[test]
fn manager_delegates_to_its_evaluator() {
    let segments = vec![("beta".to_string(), vec!["beta_testers".to_string()])];
    let evaluator = UserSegmentEvaluator::new(segments);
    let manager = FeatureFlagManager::new(evaluator, Vec::new());

    let mut member = EvaluationContext::default();
    member.user_segment = Some("beta_testers".to_string());
    assert!(manager.is_enabled("beta", &member));

    let outsider = EvaluationContext::default();
    assert!(!manager.is_enabled("beta", &outsider));
}

#[test]
fn manager_delegation_matches_direct_evaluation() {
    let percentages = vec![("half".to_string(), FULL_ROLLOUT / 2)];
    let evaluator = PercentageRolloutEvaluator::new(percentages.clone());
    let manager = FeatureFlagManager::new(PercentageRolloutEvaluator::new(percentages), Vec::new());

    for i in 0..50 {
        let mut context = EvaluationContext::default();
        context.user_id = Some(format!("user-{}", i));
        assert_eq!(
            manager.is_enabled("half", &context),
            evaluator.is_enabled("half", &context)
        );
    }
}

#[test]
fn update_flag_inserts_and_overwrites_overrides() {
    let evaluator = UserSegmentEvaluator::new(Vec::new());
    let manager = FeatureFlagManager::new(evaluator, Vec::new());

    assert_eq!(manager.flag_override("dark_mode"), None);

    manager.update_flag("dark_mode".to_string(), true);
    assert_eq!(manager.flag_override("dark_mode"), Some(true));

    manager.update_flag("dark_mode".to_string(), false);
    assert_eq!(manager.flag_override("dark_mode"), Some(false));
}

#[test]
fn manager_keeps_its_initial_overrides() {
    let evaluator = UserSegmentEvaluator::new(Vec::new());
    let flags = vec![
        ("search".to_string(), true),
        ("chat".to_string(), false),
        ("search".to_string(), false),
    ];
    let manager = FeatureFlagManager::new(evaluator, flags);

    // a later entry for the same name wins
    assert_eq!(manager.flag_override("search"), Some(false));
    assert_eq!(manager.flag_override("chat"), Some(false));
    assert_eq!(manager.flag_override("absent"), None);
}

#[test]
fn independent_managers_share_no_state() {
    let first = FeatureFlagManager::new(UserSegmentEvaluator::new(Vec::new()), Vec::new());
    let second = FeatureFlagManager::new(UserSegmentEvaluator::new(Vec::new()), Vec::new());

    first.update_flag("only_here".to_string(), true);
    assert_eq!(first.flag_override("only_here"), Some(true));
    assert_eq!(second.flag_override("only_here"), None);
}
