//! The evaluation context and the capability every strategy implements.

use vstd::prelude::*;
use vstd::hash_map::StringHashMap;

verus! {

/// Contains contextual information for evaluating a feature flag.
///
/// The context describes the caller for one evaluation. It is created fresh
/// per request and never mutated by an evaluator. No validation is performed:
/// arbitrary strings are accepted, and every field may be absent or empty.
pub struct EvaluationContext {
    /// A unique identifier for the user or session.
    pub user_id: Option<String>,
    /// The named segment the caller belongs to, if any.
    pub user_segment: Option<String>,
    /// Additional properties for custom evaluation strategies.
    pub properties: StringHashMap<String>,
}

impl EvaluationContext {
    /// Creates a context with no user id, no segment, and no properties.
    pub fn new() -> (r: Self)
        ensures
            r.user_id is None,
            r.user_segment is None,
            r.properties@ == Map::<Seq<char>, String>::empty(),
    {
        EvaluationContext { user_id: None, user_segment: None, properties: StringHashMap::new() }
    }
}

impl Default for EvaluationContext {
    /// The empty context: no user id, no segment, no properties.
    fn default() -> (r: Self)
        ensures
            r.user_id is None,
            r.user_segment is None,
            r.properties@ == Map::<Seq<char>, String>::empty(),
    {
        EvaluationContext::new()
    }
}

/// A trait for evaluating the state of a feature flag.
///
/// This trait allows for different strategies to be used for flag evaluation,
/// such as percentage-based rollouts or user targeting. A strategy is
/// read-only after construction: its decision is a function of the flag name
/// and the context alone, stated by `spec_is_enabled`.
pub trait FeatureFlagEvaluator {
    /// The decision the strategy makes for a flag name and a context.
    ///
    /// Every call of `is_enabled` returns exactly this value, so evaluation
    /// is deterministic, total, and free of side effects; an unknown flag is
    /// a normal case, not an error.
    spec fn spec_is_enabled(&self, flag_name: Seq<char>, context: &EvaluationContext) -> bool;

    /// Determines if a feature is enabled based on the given context.
    ///
    /// # Parameters
    /// - `flag_name`: The name of the feature flag to evaluate.
    /// - `context`: The evaluation context.
    ///
    /// # Returns
    /// `true` if the feature should be considered enabled, `false` otherwise.
    fn is_enabled(&self, flag_name: &str, context: &EvaluationContext) -> (r: bool)
        ensures
            r == self.spec_is_enabled(flag_name@, context),
    ;
}

} // verus!
