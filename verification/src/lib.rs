//! A deterministic policy-decision core for payment authorization.
//!
//! Given a payment intent, a fixed-capacity spending policy, and running
//! spending totals, the engine decides whether the payment is authorized and
//! produces a compact, auditable decision: an approval flag, a bounded risk
//! score, a violation count, and a bitmask recording which rules fired.
//! Every evaluation is a pure, bounded computation: no clock, no randomness,
//! no floating point, and every loop bounded by a capacity-clamped count.

pub mod eval;
pub mod laws;
pub mod records;
pub mod semantics;

pub use eval::{console_log, evaluate_condition, evaluate_dynamic_policy};
pub use records::{DynamicPaymentIntent, DynamicPolicyEvaluation, DynamicPolicyRules};
