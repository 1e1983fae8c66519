//! The two evaluation strategies: deterministic percentage rollout and
//! user-segment targeting.

use vstd::prelude::*;
use vstd::hash_map::StringHashMap;
use std::hash::{Hash, Hasher};
use crate::evaluator::{EvaluationContext, FeatureFlagEvaluator};
use crate::tables::{map_of, build_table};

verus! {

/// The scale rollout fractions are measured against: a fraction is stored in
/// ten-thousandths of the population, so `FULL_ROLLOUT` stands for the whole
/// of it. Values at or above the scale mean always on; zero means always off.
pub const FULL_ROLLOUT: u32 = 10000;

/// The 64-bit digest that hashing a flag name and then a user id into a
/// zero-keyed SipHash-2-4 hasher produces. The key is fixed, so the digest
/// is a function of the two strings alone: stable across calls, processes
/// and deployments.
pub uninterp spec fn sip_hash_of(flag_name: Seq<char>, user_id: Seq<char>) -> u64;

/// Relies on siphasher's `sip::SipHasher`: `new()` constructs a SipHash-2-4
/// hasher with key `(0, 0)`, and feeding it the flag name and then the user
/// id yields a digest that depends on those two strings alone.
#[verifier::external_body]
fn sip_pair_hash(flag_name: &str, user_id: &str) -> (r: u64)
    ensures
        r == sip_hash_of(flag_name@, user_id@),
{
    let mut hasher = siphasher::sip::SipHasher::new();
    flag_name.hash(&mut hasher);
    user_id.hash(&mut hasher);
    hasher.finish()
}

/// Whether a hashed caller falls inside a rollout fraction: the digest is
/// reduced to a bucket in `[0, 100)`, and the caller is enabled iff its
/// bucket lies strictly below the fraction's share of the scale.
pub open spec fn rollout_hits(fraction: u32, hash: u64) -> bool {
    (hash % 100) * 100 < fraction
}

/// Decides rollout membership for a caller already reduced to a digest.
pub fn rollout_within(fraction: u32, hash: u64) -> (r: bool)
    ensures
        r == rollout_hits(fraction, hash),
{
    (hash % 100) * 100 < fraction as u64
}

/// An evaluator that enables features based on a percentage rollout.
///
/// This implementation hashes the pair of flag name and user id to provide
/// consistent user targeting: the same pair always lands in the same bucket.
pub struct PercentageRolloutEvaluator {
    percentages: StringHashMap<u32>,
}

impl PercentageRolloutEvaluator {
    /// The rollout table: flag name to fraction of the scale.
    pub closed spec fn spec_table(&self) -> Map<Seq<char>, u32> {
        self.percentages@
    }

    /// The fraction configured for a flag; an absent flag counts as zero.
    pub open spec fn spec_fraction(&self, flag_name: Seq<char>) -> u32 {
        if self.spec_table().contains_key(flag_name) {
            self.spec_table()[flag_name]
        } else {
            0
        }
    }

    /// Creates an evaluator over the given rollout table. Fractions are
    /// measured against [`FULL_ROLLOUT`]; a later entry for the same flag
    /// name replaces an earlier one.
    pub fn new(percentages: Vec<(String, u32)>) -> (r: Self)
        ensures
            r.spec_table() == map_of(percentages@),
    {
        PercentageRolloutEvaluator { percentages: build_table(percentages) }
    }
}

impl FeatureFlagEvaluator for PercentageRolloutEvaluator {
    /// Enabled iff the configured fraction is the full scale or more; off if
    /// it is zero or the flag is not configured; otherwise the caller's
    /// identity decides: without a user id the decision is off, with one the
    /// hashed pair of flag name and user id must fall inside the fraction.
    open spec fn spec_is_enabled(&self, flag_name: Seq<char>, context: &EvaluationContext) -> bool {
        let fraction = self.spec_fraction(flag_name);
        if fraction >= FULL_ROLLOUT {
            true
        } else if fraction == 0 {
            false
        } else {
            match context.user_id {
                Some(user_id) => rollout_hits(fraction, sip_hash_of(flag_name, user_id@)),
                None => false,
            }
        }
    }

    fn is_enabled(&self, flag_name: &str, context: &EvaluationContext) -> (r: bool) {
        let fraction: u32 = match self.percentages.get(flag_name) {
            Some(fraction) => *fraction,
            None => 0,
        };
        if fraction >= FULL_ROLLOUT {
            return true;
        }
        if fraction == 0 {
            return false;
        }
        match &context.user_id {
            Some(user_id) => {
                let hash = sip_pair_hash(flag_name, user_id.as_str());
                rollout_within(fraction, hash)
            }
            None => false,
        }
    }
}

/// Whether some entry of the list reads as the given string.
pub open spec fn seq_has_string(entries: Seq<String>, s: Seq<char>) -> bool {
    exists|i: int| 0 <= i < entries.len() && entries[i]@ == s
}

/// Returns whether some entry of the list equals the given string.
fn vec_contains_str(entries: &Vec<String>, s: &String) -> (r: bool)
    ensures
        r == seq_has_string(entries@, s@),
{
    let mut i: usize = 0;
    while i < entries.len()
        invariant
            0 <= i <= entries@.len(),
            forall|j: int| 0 <= j < i ==> entries@[j]@ != s@,
        decreases entries@.len() - i,
    {
        if entries[i] == *s {
            return true;
        }
        i = i + 1;
    }
    false
}

/// An evaluator that enables features for specific user segments.
pub struct UserSegmentEvaluator {
    /// A map of feature flags to the segments they are enabled for.
    segments: StringHashMap<Vec<String>>,
}

impl UserSegmentEvaluator {
    /// The segment table: flag name to the segments the flag is enabled for.
    pub closed spec fn spec_table(&self) -> Map<Seq<char>, Vec<String>> {
        self.segments@
    }

    /// Creates an evaluator over the given segment table. A later entry for
    /// the same flag name replaces an earlier one.
    pub fn new(segments: Vec<(String, Vec<String>)>) -> (r: Self)
        ensures
            r.spec_table() == map_of(segments@),
    {
        UserSegmentEvaluator { segments: build_table(segments) }
    }
}

impl FeatureFlagEvaluator for UserSegmentEvaluator {
    /// Enabled iff the flag has a configured segment list and the caller's
    /// segment is a member of it by exact string equality. Evaluation is
    /// fail-closed: an unconfigured flag, or a context without a segment,
    /// yields off.
    open spec fn spec_is_enabled(&self, flag_name: Seq<char>, context: &EvaluationContext) -> bool {
        &&& self.spec_table().contains_key(flag_name)
        &&& match context.user_segment {
                Some(user_segment) => seq_has_string(
                    self.spec_table()[flag_name]@,
                    user_segment@,
                ),
                None => false,
            }
    }

    fn is_enabled(&self, flag_name: &str, context: &EvaluationContext) -> (r: bool) {
        match self.segments.get(flag_name) {
            Some(enabled_segments) => match &context.user_segment {
                Some(user_segment) => vec_contains_str(enabled_segments, user_segment),
                None => false,
            },
            None => false,
        }
    }
}

/// Law: a flag whose rollout fraction is the full scale or more is enabled
/// for every context, independent of the caller's identity.
pub proof fn lemma_full_rollout_always_on(
    evaluator: &PercentageRolloutEvaluator,
    flag_name: Seq<char>,
    context: &EvaluationContext,
)
    requires
        evaluator.spec_fraction(flag_name) >= FULL_ROLLOUT,
    ensures
        evaluator.spec_is_enabled(flag_name, context),
{
}

/// Law: a flag whose rollout fraction is zero, or which has no configured
/// fraction at all, is disabled for every context.
pub proof fn lemma_zero_rollout_always_off(
    evaluator: &PercentageRolloutEvaluator,
    flag_name: Seq<char>,
    context: &EvaluationContext,
)
    requires
        evaluator.spec_fraction(flag_name) == 0,
    ensures
        !evaluator.spec_is_enabled(flag_name, context),
{
}

/// Law: evaluation is deterministic. Any two results of evaluating the same
/// flag for the same context against the same table are equal; since
/// `is_enabled` returns exactly `spec_is_enabled`, repeated calls agree.
pub proof fn lemma_rollout_deterministic(
    evaluator: &PercentageRolloutEvaluator,
    flag_name: Seq<char>,
    context: &EvaluationContext,
    first: bool,
    second: bool,
)
    requires
        first == evaluator.spec_is_enabled(flag_name, context),
        second == evaluator.spec_is_enabled(flag_name, context),
    ensures
        first == second,
{
}

/// Law: a partial rollout needs an identity to hash. For a fraction strictly
/// between zero and the full scale, a context without a user id is disabled.
pub proof fn lemma_partial_rollout_needs_user_id(
    evaluator: &PercentageRolloutEvaluator,
    flag_name: Seq<char>,
    context: &EvaluationContext,
)
    requires
        0 < evaluator.spec_fraction(flag_name) < FULL_ROLLOUT,
        context.user_id is None,
    ensures
        !evaluator.spec_is_enabled(flag_name, context),
{
}

/// Law: segment evaluation is fail-closed. Without a configured entry for
/// the flag, or without a segment on the context, the decision is off.
pub proof fn lemma_segment_fail_closed(
    evaluator: &UserSegmentEvaluator,
    flag_name: Seq<char>,
    context: &EvaluationContext,
)
    requires
        !evaluator.spec_table().contains_key(flag_name) || context.user_segment is None,
    ensures
        !evaluator.spec_is_enabled(flag_name, context),
{
}

} // verus!


