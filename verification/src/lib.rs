//! Verified core of a provable-SQL expression evaluation protocol.
//!
//! A prover evaluates a boolean expression tree over committed columns and
//! emits algebraic evidence (auxiliary columns and sumcheck constraints);
//! a verifier replays the same tree over claimed evaluations at a random
//! challenge point and folds every constraint into one aggregate check.

pub mod column;
pub mod count_builder;
pub mod error;
pub mod identifier;
pub mod or_expr;
pub mod owned_table_utility;
pub mod plan;
pub mod proof_builder;
pub mod protocol;
pub mod scalar;
pub mod verification_builder;
