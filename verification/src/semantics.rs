//! The mathematical model of one policy evaluation.
//!
//! Each rule category gets a spec function stating exactly when it fires;
//! `violations_of`, `raw_risk_of` and `mask_of` combine them in the order the
//! evaluator applies them. The executable engine in `eval` is proved to
//! return exactly these values.

use crate::records::{DynamicPaymentIntent, DynamicPolicyRules};
use vstd::prelude::*;

verus! {

/// Hour of day derived from a timestamp: `(timestamp / 3600) mod 24`.
pub open spec fn hour_of(timestamp: u64) -> int {
    ((timestamp as int) / 3600) % 24
}

/// Weekday index derived from a timestamp: `(timestamp / 86400 + 4) mod 7`.
/// The `+ 4` offset pins the epoch (day 0) to weekday index 4; the exact
/// formula defines which integer stands for which day.
pub open spec fn weekday_of(timestamp: u64) -> int {
    ((timestamp as int) / 86400 + 4) % 7
}

/// The conditional-rule predicate language: which condition types hold of an
/// intent, given a threshold. Types outside 1..=6 are inert: they never hold.
pub open spec fn condition_holds(
    condition_type: u8,
    condition_value: u64,
    intent: DynamicPaymentIntent,
) -> bool {
    if condition_type == 1 {
        intent.amount > condition_value
    } else if condition_type == 2 {
        intent.amount < condition_value
    } else if condition_type == 3 {
        intent.ai_confidence < condition_value
    } else if condition_type == 4 {
        intent.vendor_hash == condition_value
    } else if condition_type == 5 {
        intent.category_hash == condition_value
    } else if condition_type == 6 {
        hour_of(intent.timestamp) > condition_value
    } else {
        false
    }
}

/// The vendor allow-list count clamped to its array capacity of 10.
pub open spec fn vendor_limit(policy: DynamicPolicyRules) -> int {
    if policy.allowed_vendor_count as int <= 10 {
        policy.allowed_vendor_count as int
    } else {
        10
    }
}

/// The category cap-table count clamped to its array capacity of 5.
pub open spec fn category_limit(policy: DynamicPolicyRules) -> int {
    if policy.category_rules_count as int <= 5 {
        policy.category_rules_count as int
    } else {
        5
    }
}

/// The conditional-rule count clamped to its array capacity of 5.
pub open spec fn conditional_limit(policy: DynamicPolicyRules) -> int {
    if policy.conditional_rules_count as int <= 5 {
        policy.conditional_rules_count as int
    } else {
        5
    }
}

/// A vendor hash appears among the first `vendor_limit` allow-list entries.
pub open spec fn vendor_listed(policy: DynamicPolicyRules, vendor_hash: u64) -> bool {
    exists|i: int|
        0 <= i < vendor_limit(policy) && policy.allowed_vendor_hashes[i] == vendor_hash
}

/// Rule 1: the per-payment limit fires when the amount exceeds it.
pub open spec fn per_payment_violation(
    intent: DynamicPaymentIntent,
    policy: DynamicPolicyRules,
) -> bool {
    intent.amount > policy.max_per_payment
}

/// Rule 2: the daily limit fires when today's committed spending plus this
/// amount exceeds it (exact integer sum, no wrap-around).
pub open spec fn daily_violation(
    intent: DynamicPaymentIntent,
    policy: DynamicPolicyRules,
    current_spending: u64,
) -> bool {
    current_spending + intent.amount > policy.max_per_day
}

/// Rule 3: the weekly limit fires when this week's committed spending plus
/// this amount exceeds it (exact integer sum, no wrap-around).
pub open spec fn weekly_violation(
    intent: DynamicPaymentIntent,
    policy: DynamicPolicyRules,
    weekly_spending: u64,
) -> bool {
    weekly_spending + intent.amount > policy.max_per_week
}

/// Rule 4: the vendor check fires when the allow-list is non-empty and the
/// intent's vendor is absent from its clamped prefix. The whole table is
/// consulted before deciding absence.
pub open spec fn vendor_violation(
    intent: DynamicPaymentIntent,
    policy: DynamicPolicyRules,
) -> bool {
    policy.allowed_vendor_count > 0 && !vendor_listed(policy, intent.vendor_hash)
}

/// Index of the first cap-table row at or after `i` whose category identity
/// matches, within the clamped count; `None` when no row matches. Later rows
/// with the same identity are unreachable: first match wins.
pub open spec fn first_category_match_from(
    policy: DynamicPolicyRules,
    category_hash: u64,
    i: int,
) -> Option<int>
    decreases category_limit(policy) - i,
{
    if i < 0 || i >= category_limit(policy) {
        None
    } else if policy.category_hashes[i] == category_hash {
        Some(i)
    } else {
        first_category_match_from(policy, category_hash, i + 1)
    }
}

/// Index of the first matching cap-table row, scanning from the top.
pub open spec fn first_category_match(
    policy: DynamicPolicyRules,
    category_hash: u64,
) -> Option<int> {
    first_category_match_from(policy, category_hash, 0)
}

/// Scanning may skip a prefix free of matches: the first match from the top
/// is the first match from any index the scan has cleared.
pub proof fn lemma_first_category_match_skip(
    policy: DynamicPolicyRules,
    category_hash: u64,
    i: int,
)
    requires
        0 <= i <= category_limit(policy),
        forall|k: int| 0 <= k < i ==> policy.category_hashes[k] != category_hash,
    ensures
        first_category_match(policy, category_hash) == first_category_match_from(
            policy,
            category_hash,
            i,
        ),
    decreases i,
{
    if i > 0 {
        lemma_first_category_match_skip(policy, category_hash, i - 1);
    }
}

/// Rule 5: the category cap fires when the first row matching the intent's
/// category exists and the amount exceeds that row's cap. Rows after the
/// first match are never consulted.
pub open spec fn category_violation(
    intent: DynamicPaymentIntent,
    policy: DynamicPolicyRules,
) -> bool {
    match first_category_match(policy, intent.category_hash) {
        Some(i) => intent.amount > policy.category_max_amounts[i],
        None => false,
    }
}

/// Conditional rule `i` applies when its condition holds of the intent.
pub open spec fn conditional_applies(
    intent: DynamicPaymentIntent,
    policy: DynamicPolicyRules,
    i: int,
) -> bool {
    condition_holds(policy.condition_types[i], policy.condition_values[i], intent)
}

/// Violations contributed by conditional rules `0 .. n`: one per applying
/// rule whose action is reject (2) or require-approval (3). Applying rules
/// with any other action contribute none.
pub open spec fn conditional_violations_to(
    intent: DynamicPaymentIntent,
    policy: DynamicPolicyRules,
    n: int,
) -> int
    decreases n,
{
    if n <= 0 {
        0
    } else {
        conditional_violations_to(intent, policy, n - 1) + if conditional_applies(
            intent,
            policy,
            n - 1,
        ) && (policy.condition_actions[n - 1] == 2 || policy.condition_actions[n - 1] == 3) {
            1int
        } else {
            0int
        }
    }
}

/// Risk weight contributed by conditional rules `0 .. n`: 50 per applying
/// reject rule, 15 per applying require-approval rule, 0 otherwise.
pub open spec fn conditional_risk_to(
    intent: DynamicPaymentIntent,
    policy: DynamicPolicyRules,
    n: int,
) -> int
    decreases n,
{
    if n <= 0 {
        0
    } else {
        conditional_risk_to(intent, policy, n - 1) + if conditional_applies(
            intent,
            policy,
            n - 1,
        ) {
            if policy.condition_actions[n - 1] == 2 {
                50int
            } else if policy.condition_actions[n - 1] == 3 {
                15int
            } else {
                0int
            }
        } else {
            0int
        }
    }
}

/// Mask bits contributed by conditional rules `0 .. n`, folded onto `mask`:
/// rule `i` marks bit `8 + i` whenever it applies, whatever its action.
pub open spec fn conditional_mask_fold(
    mask: u64,
    intent: DynamicPaymentIntent,
    policy: DynamicPolicyRules,
    n: int,
) -> u64
    decreases n,
{
    if n <= 0 {
        mask
    } else {
        let m = conditional_mask_fold(mask, intent, policy, n - 1);
        if conditional_applies(intent, policy, n - 1) {
            m | (256u64 << ((n - 1) as u64))
        } else {
            m
        }
    }
}

/// An 8-bit saturating accumulator holds `min(sum, 255)` of what was added.
pub open spec fn saturated(v: int) -> int {
    if v > 255 {
        255
    } else {
        v
    }
}

/// Conditional rules `0 .. n` contribute at most one violation and at most
/// 50 risk weight each, and never a negative amount.
pub proof fn lemma_conditional_bounds(
    intent: DynamicPaymentIntent,
    policy: DynamicPolicyRules,
    n: int,
)
    requires
        n >= 0,
    ensures
        0 <= conditional_violations_to(intent, policy, n) <= n,
        0 <= conditional_risk_to(intent, policy, n) <= 50 * n,
    decreases n,
{
    if n > 0 {
        lemma_conditional_bounds(intent, policy, n - 1);
    }
}

/// Rule 7: the AI-confidence check fires when confidence is below the
/// policy's minimum.
pub open spec fn confidence_violation(
    intent: DynamicPaymentIntent,
    policy: DynamicPolicyRules,
) -> bool {
    intent.ai_confidence < policy.min_ai_confidence
}

/// Rule 8: the time-window check fires when the derived hour lies outside
/// the half-open window `[start, end)`; `hour == end` is a violation,
/// `hour == start` is not (when the window is non-empty).
pub open spec fn time_violation(
    intent: DynamicPaymentIntent,
    policy: DynamicPolicyRules,
) -> bool {
    hour_of(intent.timestamp) < policy.allowed_hours_start || hour_of(intent.timestamp)
        >= policy.allowed_hours_end
}

/// Rule 9: the weekday check fires when the derived weekday's bit is absent
/// from the allowed-weekday mask.
pub open spec fn weekday_violation(
    intent: DynamicPaymentIntent,
    policy: DynamicPolicyRules,
) -> bool {
    policy.allowed_weekday_mask & (1u8 << (weekday_of(intent.timestamp) as u8)) == 0
}

/// Violations from the five checks that precede the conditional rules:
/// per-payment, daily, weekly, vendor, category.
pub open spec fn base_violations(
    intent: DynamicPaymentIntent,
    policy: DynamicPolicyRules,
    current_spending: u64,
    weekly_spending: u64,
) -> int {
    (if per_payment_violation(intent, policy) {
        1int
    } else {
        0int
    }) + (if daily_violation(intent, policy, current_spending) {
        1int
    } else {
        0int
    }) + (if weekly_violation(intent, policy, weekly_spending) {
        1int
    } else {
        0int
    }) + (if vendor_violation(intent, policy) {
        1int
    } else {
        0int
    }) + (if category_violation(intent, policy) {
        1int
    } else {
        0int
    })
}

/// Violations from the three checks that follow the conditional rules:
/// AI confidence, time window, weekday.
pub open spec fn tail_violations(
    intent: DynamicPaymentIntent,
    policy: DynamicPolicyRules,
) -> int {
    (if confidence_violation(intent, policy) {
        1int
    } else {
        0int
    }) + (if time_violation(intent, policy) {
        1int
    } else {
        0int
    }) + (if weekday_violation(intent, policy) {
        1int
    } else {
        0int
    })
}

/// Total violation count of one evaluation: every rule category that fired,
/// one increment each, conditional rules counted per applying reject or
/// require-approval row.
pub open spec fn violations_of(
    intent: DynamicPaymentIntent,
    policy: DynamicPolicyRules,
    current_spending: u64,
    weekly_spending: u64,
) -> int {
    base_violations(intent, policy, current_spending, weekly_spending)
        + conditional_violations_to(intent, policy, conditional_limit(policy)) + tail_violations(
        intent,
        policy,
    )
}

/// Risk weight from the five checks preceding the conditional rules, with
/// the fixed weights 30, 25, 20, 25, 20.
pub open spec fn base_risk(
    intent: DynamicPaymentIntent,
    policy: DynamicPolicyRules,
    current_spending: u64,
    weekly_spending: u64,
) -> int {
    (if per_payment_violation(intent, policy) {
        30int
    } else {
        0int
    }) + (if daily_violation(intent, policy, current_spending) {
        25int
    } else {
        0int
    }) + (if weekly_violation(intent, policy, weekly_spending) {
        20int
    } else {
        0int
    }) + (if vendor_violation(intent, policy) {
        25int
    } else {
        0int
    }) + (if category_violation(intent, policy) {
        20int
    } else {
        0int
    })
}

/// Risk weight from the three checks following the conditional rules, with
/// the fixed weights 10, 15, 10.
pub open spec fn tail_risk(intent: DynamicPaymentIntent, policy: DynamicPolicyRules) -> int {
    (if confidence_violation(intent, policy) {
        10int
    } else {
        0int
    }) + (if time_violation(intent, policy) {
        15int
    } else {
        0int
    }) + (if weekday_violation(intent, policy) {
        10int
    } else {
        0int
    })
}

/// The unclamped sum of all risk weights contributed by firing rules.
pub open spec fn raw_risk_of(
    intent: DynamicPaymentIntent,
    policy: DynamicPolicyRules,
    current_spending: u64,
    weekly_spending: u64,
) -> int {
    base_risk(intent, policy, current_spending, weekly_spending) + conditional_risk_to(
        intent,
        policy,
        conditional_limit(policy),
    ) + tail_risk(intent, policy)
}

/// The reported risk score: the raw weight sum clamped to 100. The engine
/// accumulates with a saturating 8-bit add, but since every weight is
/// non-negative and the final clamp is 100 < 255, the result is exactly
/// `min(raw, 100)`.
pub open spec fn risk_score_of(
    intent: DynamicPaymentIntent,
    policy: DynamicPolicyRules,
    current_spending: u64,
    weekly_spending: u64,
) -> int {
    if raw_risk_of(intent, policy, current_spending, weekly_spending) > 100 {
        100
    } else {
        raw_risk_of(intent, policy, current_spending, weekly_spending)
    }
}

/// Mask bits set by the five checks preceding the conditional rules, in
/// evaluation order: bit 0 per-payment, bit 1 daily, bit 2 weekly, bit 3
/// vendor, bit `4 + i` for a firing category row `i`.
pub open spec fn base_mask(
    intent: DynamicPaymentIntent,
    policy: DynamicPolicyRules,
    current_spending: u64,
    weekly_spending: u64,
) -> u64 {
    let m1 = if per_payment_violation(intent, policy) {
        0u64 | 1u64
    } else {
        0u64
    };
    let m2 = if daily_violation(intent, policy, current_spending) {
        m1 | 2u64
    } else {
        m1
    };
    let m3 = if weekly_violation(intent, policy, weekly_spending) {
        m2 | 4u64
    } else {
        m2
    };
    let m4 = if vendor_violation(intent, policy) {
        m3 | 8u64
    } else {
        m3
    };
    match first_category_match(policy, intent.category_hash) {
        Some(i) => if intent.amount > policy.category_max_amounts[i] {
            m4 | (16u64 << (i as u64))
        } else {
            m4
        },
        None => m4,
    }
}

/// Mask bits set by the three checks following the conditional rules, folded
/// onto `mask`: bit 12 AI confidence, bit 13 time window, bit 14 weekday.
pub open spec fn tail_mask(
    mask: u64,
    intent: DynamicPaymentIntent,
    policy: DynamicPolicyRules,
) -> u64 {
    let m1 = if confidence_violation(intent, policy) {
        mask | 4096u64
    } else {
        mask
    };
    let m2 = if time_violation(intent, policy) {
        m1 | 8192u64
    } else {
        m1
    };
    if weekday_violation(intent, policy) {
        m2 | 16384u64
    } else {
        m2
    }
}

/// The applied-rules bitmask of one evaluation: every bit set by a rule that
/// applied, accumulated in evaluation order.
pub open spec fn mask_of(
    intent: DynamicPaymentIntent,
    policy: DynamicPolicyRules,
    current_spending: u64,
    weekly_spending: u64,
) -> u64 {
    tail_mask(
        conditional_mask_fold(
            base_mask(intent, policy, current_spending, weekly_spending),
            intent,
            policy,
            conditional_limit(policy),
        ),
        intent,
        policy,
    )
}

/// A payment is approved exactly when no rule category fired.
pub open spec fn approved_of(
    intent: DynamicPaymentIntent,
    policy: DynamicPolicyRules,
    current_spending: u64,
    weekly_spending: u64,
) -> bool {
    violations_of(intent, policy, current_spending, weekly_spending) == 0
}

} // verus!
