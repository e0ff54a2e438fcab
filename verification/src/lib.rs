//! Formal verification core for AISP specification documents.
//!
//! A typed document (header plus typed blocks: type definitions, rules,
//! functions, evidence) is checked by encoding document-derived obligations
//! as solver formulas, delegating satisfiability to an external SMT solver,
//! and folding the per-property outcomes into one document-level verdict.
//! A separate compliance validator runs four fault-contained phases and
//! combines them into a weighted score and compliance tier.
//!
//! Scores and rates are held as scaled integers throughout:
//! compliance scores in basis points (one ten-thousandth), success rates
//! and ambiguity values in parts per million.

pub mod ast;
pub mod backend;
pub mod compliance;
pub mod encoder;
pub mod engine;
pub mod environment;
pub mod error;
pub mod facade;
pub mod numeric;
pub mod tri_vector;
pub mod types;
