//! Fixed-capacity record types: the payment intent under evaluation, the
//! policy it is checked against, and the decision handed back.
//!
//! Every list-like policy field is a fixed-size array paired with an explicit
//! count; the evaluator clamps each count to its array's capacity before any
//! loop reads it, so excess entries are silently ignored and the total work
//! per evaluation is bounded by the capacities alone.

use vstd::prelude::*;

verus! {

/// The payment request being evaluated. Identities (recipient, vendor,
/// category) are opaque fixed-width hashes; `timestamp` is seconds since the
/// epoch; `ai_confidence` is scaled 0-100. Constructed once per evaluation
/// and never mutated.
#[derive(Clone, Debug)]
pub struct DynamicPaymentIntent {
    pub amount: u64,
    pub recipient_hash: u64,
    pub vendor_hash: u64,
    pub category_hash: u64,
    pub timestamp: u64,
    pub ai_confidence: u64,
}

/// The configurable rule set a payment is checked against.
///
/// The vendor allow-list holds up to 10 entries, the per-category cap table
/// and the conditional-rule table up to 5 each; each table carries its own
/// count, clamped to capacity before use. An empty vendor list means no
/// vendor restriction. The hour window is half-open `[start, end)`; the
/// weekday mask has bit `i` set when weekday `i` is permitted.
#[derive(Clone, Debug)]
pub struct DynamicPolicyRules {
    pub max_per_payment: u64,
    pub max_per_day: u64,
    pub max_per_week: u64,
    pub allowed_hours_start: u8,
    pub allowed_hours_end: u8,
    pub allowed_weekday_mask: u8,
    pub allowed_vendor_count: u8,
    pub allowed_vendor_hashes: [u64; 10],
    pub category_rules_count: u8,
    pub category_hashes: [u64; 5],
    pub category_max_amounts: [u64; 5],
    pub conditional_rules_count: u8,
    pub condition_types: [u8; 5],
    pub condition_values: [u64; 5],
    pub condition_actions: [u8; 5],
    pub min_ai_confidence: u64,
}

/// The decision produced by one evaluation: `approved` is true exactly when
/// no rule category fired, `risk_score` is the saturating weight sum clamped
/// to 0-100, `violation_count` counts one per rule that fired, and
/// `applied_rules_mask` records which rules applied, one bit (or bit range)
/// per rule category.
#[derive(Debug)]
pub struct DynamicPolicyEvaluation {
    pub approved: bool,
    pub risk_score: u8,
    pub violation_count: u8,
    pub applied_rules_mask: u64,
}

} // verus!
