//! Properties of the evaluation model that hold for every input, stated and
//! proved once here rather than left implicit in the engine's contracts.

use crate::records::{DynamicPaymentIntent, DynamicPolicyRules};
use crate::semantics::{
    approved_of, category_limit, category_violation, condition_holds, conditional_limit,
    first_category_match, hour_of, lemma_conditional_bounds, lemma_first_category_match_skip,
    risk_score_of, time_violation, vendor_limit, vendor_listed, vendor_violation, violations_of,
    weekday_of,
};
use vstd::prelude::*;

verus! {

/// Every evaluation's risk score lies in 0..=100, and the payment is
/// approved exactly when no rule category fired.
pub proof fn lemma_risk_bounded_and_approval_exact(
    intent: DynamicPaymentIntent,
    policy: DynamicPolicyRules,
    current_spending: u64,
    weekly_spending: u64,
)
    ensures
        0 <= risk_score_of(intent, policy, current_spending, weekly_spending) <= 100,
        approved_of(intent, policy, current_spending, weekly_spending) <==> violations_of(
            intent,
            policy,
            current_spending,
            weekly_spending,
        ) == 0,
{
    lemma_conditional_bounds(intent, policy, conditional_limit(policy));
}

/// The vendor check never fires when the allow-list count is 0, whatever
/// vendor the intent names.
pub proof fn lemma_vendor_check_inert_when_list_empty(
    intent: DynamicPaymentIntent,
    policy: DynamicPolicyRules,
)
    requires
        policy.allowed_vendor_count == 0,
    ensures
        !vendor_violation(intent, policy),
{
}

/// Only the first cap-table row whose identity matches the intent's category
/// decides the category check: given the first matching row `j`, the check
/// fires exactly when the amount exceeds row `j`'s cap, whatever any later
/// row (matching or not) holds.
pub proof fn lemma_category_first_match_wins(
    intent: DynamicPaymentIntent,
    policy: DynamicPolicyRules,
    j: int,
)
    requires
        0 <= j < category_limit(policy),
        policy.category_hashes[j] == intent.category_hash,
        forall|k: int| 0 <= k < j ==> policy.category_hashes[k] != intent.category_hash,
    ensures
        first_category_match(policy, intent.category_hash) == Some(j),
        category_violation(intent, policy) == (intent.amount
            > policy.category_max_amounts[j]),
{
    lemma_first_category_match_skip(policy, intent.category_hash, j);
}

/// A condition type of 0, or of 7 and above, is inert: it holds for no
/// threshold and no intent.
pub proof fn lemma_unknown_condition_types_inert(
    condition_type: u8,
    condition_value: u64,
    intent: DynamicPaymentIntent,
)
    requires
        condition_type == 0 || condition_type >= 7,
    ensures
        !condition_holds(condition_type, condition_value, intent),
{
}

/// The hour window is half-open: an hour equal to the window's end is a
/// violation, while an hour equal to its start is not (when the window is
/// non-empty).
pub proof fn lemma_hour_window_boundary(
    intent: DynamicPaymentIntent,
    policy: DynamicPolicyRules,
)
    ensures
        hour_of(intent.timestamp) == policy.allowed_hours_end ==> time_violation(intent, policy),
        (hour_of(intent.timestamp) == policy.allowed_hours_start
            && policy.allowed_hours_start < policy.allowed_hours_end) ==> !time_violation(
            intent,
            policy,
        ),
{
}

/// The weekday formula is pinned: the epoch's first day (timestamp 0) maps
/// to weekday index 4, on every run.
pub proof fn lemma_weekday_of_epoch()
    ensures
        weekday_of(0) == 4,
{
}

/// Allow-list counts beyond the table's capacity of 10 are silently clamped:
/// two policies with the same vendor table and any counts of at least 10
/// agree on whether a vendor is listed, so only the first 10 entries are
/// ever consulted.
pub proof fn lemma_vendor_count_clamped(
    p1: DynamicPolicyRules,
    p2: DynamicPolicyRules,
    vendor_hash: u64,
)
    requires
        p1.allowed_vendor_hashes == p2.allowed_vendor_hashes,
        p1.allowed_vendor_count >= 10,
        p2.allowed_vendor_count >= 10,
    ensures
        vendor_limit(p1) == 10,
        vendor_listed(p1, vendor_hash) == vendor_listed(p2, vendor_hash),
{
    assert forall|i: int| 0 <= i < 10 implies p1.allowed_vendor_hashes[i]
        == p2.allowed_vendor_hashes[i] by {}
    if vendor_listed(p1, vendor_hash) {
        let i = choose|i: int|
            0 <= i < vendor_limit(p1) && p1.allowed_vendor_hashes[i] == vendor_hash;
        assert(p2.allowed_vendor_hashes[i] == vendor_hash);
    }
    if vendor_listed(p2, vendor_hash) {
        let i = choose|i: int|
            0 <= i < vendor_limit(p2) && p2.allowed_vendor_hashes[i] == vendor_hash;
        assert(p1.allowed_vendor_hashes[i] == vendor_hash);
    }
}

} // verus!
