use feature_flags::evaluator::{EvaluationContext, FeatureFlagEvaluator};
use feature_flags::strategies::{PercentageRolloutEvaluator, FULL_ROLLOUT};

#[test]
fn enabled_share_converges_to_the_configured_fraction() {
    let percentages = vec![("half".to_string(), FULL_ROLLOUT / 2)];
    let evaluator = PercentageRolloutEvaluator::new(percentages);

    let total: u32 = 10_000;
    let mut enabled: u32 = 0;
    for i in 0..total {
        let mut context = EvaluationContext::default();
        context.user_id = Some(format!("synthetic-user-{}", i));
        if evaluator.is_enabled("half", &context) {
            enabled += 1;
        }
    }

    // within three percentage points of one half
    assert!(enabled >= 4_700, "enabled share too low: {} of {}", enabled, total);
    assert!(enabled <= 5_300, "enabled share too high: {} of {}", enabled, total);
}
