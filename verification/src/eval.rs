//! The executable rule-evaluation engine, proved to return exactly the
//! values the spec functions in `semantics` describe.

use crate::records::{DynamicPaymentIntent, DynamicPolicyEvaluation, DynamicPolicyRules};
use crate::semantics::{
    approved_of, base_mask, base_risk, base_violations, condition_holds,
    conditional_limit, conditional_mask_fold, conditional_risk_to,
    conditional_violations_to, first_category_match, lemma_conditional_bounds,
    lemma_first_category_match_skip, mask_of, risk_score_of, saturated,
    vendor_limit, vendor_listed, violations_of,
};
use vstd::prelude::*;

verus! {

/// Evaluates one conditional-rule predicate against the intent. The policy
/// parameter is accepted for signature stability but no condition type reads
/// it; types outside 1..=6 never hold.
pub fn evaluate_condition(
    condition_type: u8,
    condition_value: u64,
    intent: &DynamicPaymentIntent,
    _policy: &DynamicPolicyRules,
) -> (r: bool)
    ensures
        r == condition_holds(condition_type, condition_value, *intent),
{
    match condition_type {
        1 => intent.amount > condition_value,
        2 => intent.amount < condition_value,
        3 => intent.ai_confidence < condition_value,
        4 => intent.vendor_hash == condition_value,
        5 => intent.category_hash == condition_value,
        6 => (intent.timestamp / 3600) % 24 > condition_value,
        _ => false,
    }
}

/// Applies the seven rule categories to one payment intent in their fixed
/// order and assembles the decision. Returns exactly the model's values: the
/// violation count, the weight sum clamped to 100 as the risk score, the
/// approval flag (true iff nothing fired), and the applied-rules bitmask.
/// Every loop is bounded by its capacity-clamped count.
#[verifier::loop_isolation(false)]
pub fn evaluate_dynamic_policy(
    intent: &DynamicPaymentIntent,
    policy: &DynamicPolicyRules,
    current_spending: u64,
    weekly_spending: u64,
) -> (evaluation: DynamicPolicyEvaluation)
    ensures
        evaluation.violation_count as int == violations_of(
            *intent,
            *policy,
            current_spending,
            weekly_spending,
        ),
        evaluation.risk_score as int == risk_score_of(
            *intent,
            *policy,
            current_spending,
            weekly_spending,
        ),
        evaluation.approved == approved_of(*intent, *policy, current_spending, weekly_spending),
        evaluation.applied_rules_mask == mask_of(
            *intent,
            *policy,
            current_spending,
            weekly_spending,
        ),
{
    let mut violation_count: u8 = 0;
    let mut risk_score: u8 = 0;
    let mut applied_rules_mask: u64 = 0;

    // 1. Per-payment limit (weight 30, bit 0).
    if intent.amount > policy.max_per_payment {
        violation_count = violation_count + 1;
        risk_score = risk_score.saturating_add(30);
        applied_rules_mask = applied_rules_mask | 1;
    }

    // 2. Daily limit (weight 25, bit 1); the sum is taken exactly, in a
    // width that cannot wrap.
    if (current_spending as u128) + (intent.amount as u128) > (policy.max_per_day as u128) {
        violation_count = violation_count + 1;
        risk_score = risk_score.saturating_add(25);
        applied_rules_mask = applied_rules_mask | 2;
    }

    // 3. Weekly limit (weight 20, bit 2).
    if (weekly_spending as u128) + (intent.amount as u128) > (policy.max_per_week as u128) {
        violation_count = violation_count + 1;
        risk_score = risk_score.saturating_add(20);
        applied_rules_mask = applied_rules_mask | 4;
    }

    // 4. Vendor allow-list (weight 25, bit 3): scan the whole clamped table
    // before deciding absence.
    let vendor_n: usize = if policy.allowed_vendor_count > 10 {
        10
    } else {
        policy.allowed_vendor_count as usize
    };
    let mut vendor_allowed: bool = false;
    let mut vi: usize = 0;
    while vi < vendor_n
        invariant
            vi <= vendor_n,
            vendor_n as int == vendor_limit(*policy),
            vendor_allowed == exists|k: int|
                0 <= k < vi && policy.allowed_vendor_hashes[k] == intent.vendor_hash,
        decreases vendor_n - vi,
    {
        if policy.allowed_vendor_hashes[vi] == intent.vendor_hash {
            vendor_allowed = true;
        }
        vi = vi + 1;
    }
    assert(vendor_allowed == vendor_listed(*policy, intent.vendor_hash));

    if !vendor_allowed && policy.allowed_vendor_count > 0 {
        violation_count = violation_count + 1;
        risk_score = risk_score.saturating_add(25);
        applied_rules_mask = applied_rules_mask | 8;
    }

    // 5. Category cap (weight 20, bits 4-8): first matching row wins; rows
    // after it are never consulted.
    let category_n: usize = if policy.category_rules_count > 5 {
        5
    } else {
        policy.category_rules_count as usize
    };
    let mut ci: usize = 0;
    let mut cat_found: bool = false;
    while ci < category_n && !cat_found
        invariant
            ci <= category_n,
            forall|k: int| 0 <= k < ci ==> policy.category_hashes[k] != intent.category_hash,
            cat_found ==> ci < category_n && policy.category_hashes[ci as int]
                == intent.category_hash,
        decreases category_n - ci + (if cat_found { 0int } else { 1int }),
    {
        if policy.category_hashes[ci] == intent.category_hash {
            cat_found = true;
        } else {
            ci = ci + 1;
        }
    }
    proof {
        lemma_first_category_match_skip(*policy, intent.category_hash, ci as int);
        if cat_found {
            assert(first_category_match(*policy, intent.category_hash) == Some(ci as int));
        } else {
            assert(first_category_match(*policy, intent.category_hash) is None);
        }
    }
    if cat_found {
        if intent.amount > policy.category_max_amounts[ci] {
            violation_count = violation_count + 1;
            risk_score = risk_score.saturating_add(20);
            applied_rules_mask = applied_rules_mask | (16u64 << (ci as u64));
        }
    }

    assert(violation_count as int == base_violations(
        *intent,
        *policy,
        current_spending,
        weekly_spending,
    ));
    assert(risk_score as int == base_risk(*intent, *policy, current_spending, weekly_spending));
    assert(applied_rules_mask == base_mask(*intent, *policy, current_spending, weekly_spending));

    // 6. Conditional rules (weight 50 reject / 15 require-approval / 0
    // otherwise, bits 8-12): each row evaluated independently, in order.
    let cond_n: usize = if policy.conditional_rules_count > 5 {
        5
    } else {
        policy.conditional_rules_count as usize
    };
    let ghost base_v: int = violation_count as int;
    let ghost base_r: int = risk_score as int;
    let ghost base_m: u64 = applied_rules_mask;
    let mut qi: usize = 0;
    while qi < cond_n
        invariant
            qi <= cond_n,
            violation_count as int == base_v + conditional_violations_to(
                *intent,
                *policy,
                qi as int,
            ),
            risk_score as int == saturated(
                base_r + conditional_risk_to(*intent, *policy, qi as int),
            ),
            applied_rules_mask == conditional_mask_fold(base_m, *intent, *policy, qi as int),
        decreases cond_n - qi,
    {
        proof {
            lemma_conditional_bounds(*intent, *policy, qi as int);
        }
        let condition_met = evaluate_condition(
            policy.condition_types[qi],
            policy.condition_values[qi],
            intent,
            policy,
        );
        if condition_met {
            applied_rules_mask = applied_rules_mask | (256u64 << (qi as u64));
            match policy.condition_actions[qi] {
                2 => {
                    violation_count = violation_count + 1;
                    risk_score = risk_score.saturating_add(50);
                },
                3 => {
                    violation_count = violation_count + 1;
                    risk_score = risk_score.saturating_add(15);
                },
                _ => {},
            }
        }
        qi = qi + 1;
    }
    proof {
        lemma_conditional_bounds(*intent, *policy, conditional_limit(*policy));
    }

    // 7. AI confidence (weight 10, bit 12).
    if intent.ai_confidence < policy.min_ai_confidence {
        violation_count = violation_count + 1;
        risk_score = risk_score.saturating_add(10);
        applied_rules_mask = applied_rules_mask | 4096;
    }

    // 8. Time window (weight 15, bit 13): half-open [start, end), so an
    // hour equal to the end is already outside.
    let hour: u8 = ((intent.timestamp / 3600) % 24) as u8;
    if hour < policy.allowed_hours_start || hour >= policy.allowed_hours_end {
        violation_count = violation_count + 1;
        risk_score = risk_score.saturating_add(15);
        applied_rules_mask = applied_rules_mask | 8192;
    }

    // 9. Weekday window (weight 10, bit 14).
    proof {
        assert(intent.timestamp / 86400 <= intent.timestamp) by (nonlinear_arith);
    }
    let weekday: u8 = ((intent.timestamp / 86400 + 4) % 7) as u8;
    let weekday_bit: u8 = 1u8 << weekday;
    if (policy.allowed_weekday_mask & weekday_bit) == 0 {
        violation_count = violation_count + 1;
        risk_score = risk_score.saturating_add(10);
        applied_rules_mask = applied_rules_mask | 16384;
    }

    let approved: bool = violation_count == 0;

    DynamicPolicyEvaluation {
        approved,
        risk_score: if risk_score > 100 {
            100
        } else {
            risk_score
        },
        violation_count,
        applied_rules_mask,
    }
}

/// No-op trace sink: the engine must stay free of I/O and observable side
/// effects, so processing milestones are discarded.
pub fn console_log(_msg: &str) {
}

} // verus!
