//! Plan applicability: the contract by which a placement planner refuses to
//! apply an unsafe or useless plan rather than silently executing it.
//!
//! A planner accumulates blocking reasons as it checks a plan (out-of-bounds
//! targets, a score that does not improve); the plan's status is
//! `"applicable"` only when none were found. Every planner that can produce a
//! plan a caller should not blindly apply shares this one shape.
//!
//! * [`applicability`] holds [`PlanApplicability`] and its operations.
//! * [`laws`] holds what the operations promise together.
//! * [`json`] and [`reason`] hold what is taken on trust of `serde_json` and
//!   of the standard library's string conversions.

pub mod applicability;
pub mod json;
pub mod laws;
pub mod reason;

pub use applicability::PlanApplicability;
