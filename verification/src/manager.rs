//! The façade callers use: one evaluator plus a concurrently mutable flag
//! override table behind a verified reader-writer lock.

use vstd::prelude::*;
use vstd::hash_map::StringHashMap;
use vstd::rwlock::{RwLock, RwLockPredicate};
use crate::evaluator::{EvaluationContext, FeatureFlagEvaluator};
use crate::tables::build_table;

verus! {

/// The lock invariant of the override table: any complete table is a valid
/// value. The reader-writer lock hands readers and the writer whole table
/// values, so no caller ever observes a partially applied update.
pub struct OverridePredicate;

impl RwLockPredicate<StringHashMap<bool>> for OverridePredicate {
    open spec fn inv(self, v: StringHashMap<bool>) -> bool {
        true
    }
}

/// Manages the state and evaluation of feature flags.
///
/// The manager owns one evaluation strategy, chosen at construction, and an
/// override table that `update_flag` mutates at runtime. Evaluation reads
/// only the strategy's immutable construction-time state, so any number of
/// callers may evaluate concurrently; the override table is shared under a
/// reader-writer lock, writers serializing against each other and against
/// readers. The table does not feed into `is_enabled`: in this version it is
/// runtime-updatable state that only `flag_override` reads back.
pub struct FeatureFlagManager<E: FeatureFlagEvaluator> {
    evaluator: E,
    flags: RwLock<StringHashMap<bool>, OverridePredicate>,
}

impl<E: FeatureFlagEvaluator> FeatureFlagManager<E> {
    /// The evaluation strategy the manager delegates to.
    pub closed spec fn spec_evaluator(&self) -> E {
        self.evaluator
    }

    /// Creates a new `FeatureFlagManager`.
    ///
    /// # Parameters
    /// - `evaluator`: The evaluator to use for checking flag states.
    /// - `flags`: The initial set of feature flag overrides; a later entry
    ///   for the same name replaces an earlier one.
    pub fn new(evaluator: E, flags: Vec<(String, bool)>) -> (r: Self)
        ensures
            r.spec_evaluator() == evaluator,
    {
        let table = build_table(flags);
        FeatureFlagManager { evaluator, flags: RwLock::new(table, Ghost(OverridePredicate)) }
    }

    /// Checks if a feature is enabled.
    ///
    /// This method delegates the evaluation to the configured evaluator and
    /// returns exactly the strategy's decision for the flag name and the
    /// context. It takes no lock: the evaluator's tables are immutable after
    /// construction.
    pub fn is_enabled(&self, flag_name: &str, context: &EvaluationContext) -> (r: bool)
        ensures
            r == self.spec_evaluator().spec_is_enabled(flag_name@, context),
    {
        self.evaluator.is_enabled(flag_name, context)
    }

    /// Updates a flag's override state at runtime, inserting or overwriting
    /// the entry under exclusive write access. This is the only mutating
    /// operation; it is total and cannot fail. Concurrent readers observe
    /// either the table before the update or the table after it, never a
    /// torn intermediate.
    pub fn update_flag(&self, flag_name: String, enabled: bool) {
        let (mut table, handle) = self.flags.acquire_write();
        table.insert(flag_name, enabled);
        handle.release_write(table);
    }

    /// Returns the override currently recorded for a flag, if any, under a
    /// read lock. Concurrent writers may change the table between two calls,
    /// so no relation between separate reads is promised.
    pub fn flag_override(&self, flag_name: &str) -> (r: Option<bool>) {
        let handle = self.flags.acquire_read();
        let r = match handle.borrow().get(flag_name) {
            Some(enabled) => Some(*enabled),
            None => None,
        };
        handle.release_read();
        r
    }
}

} // verus!
