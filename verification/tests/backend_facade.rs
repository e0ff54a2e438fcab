//! Tests of the backend facade: availability, construction, and the
//! disabled stand-in that substitutes values instead of erroring.

use aisp_core::ast::CanonicalAispDocument;
use aisp_core::facade::Z3VerificationFacade;
use aisp_core::types::{
    AdvancedVerificationConfig, EnhancedVerificationResult, PropertyResult, VerificationStatus,
};

fn empty_document() -> CanonicalAispDocument {
    CanonicalAispDocument::new(
        "test".to_string(),
        "5.1".to_string(),
        "2026-01-26".to_string(),
    )
}

#[test]
fn enhanced_z3_verification_test_z3_verification_availability() {
    let available = Z3VerificationFacade::is_available();
    println!("Z3 verification available: {}", available);
}

#[test]
fn test_enhanced_verification_config() {
    let config = AdvancedVerificationConfig::default();
    assert!(config.query_timeout_ms > 0);

    assert!(config.incremental);
    assert!(config.generate_proofs);
    assert!(config.generate_models);
}

#[test]
fn test_default_config_tactics() {
    let config = AdvancedVerificationConfig::default();
    assert_eq!(config.query_timeout_ms, 30_000);
    assert!(config.generate_unsat_cores);
    assert_eq!(
        config.solver_tactics,
        vec!["simplify".to_string(), "solve-eqs".to_string(), "smt".to_string()]
    );
    assert_eq!(config.max_memory_mb, 4_096);
    assert_eq!(config.random_seed, Some(42));
}

#[test]
fn enhanced_z3_verification_test_z3_facade_creation() {
    let result = Z3VerificationFacade::new();

    assert!(result.is_ok());
}

#[test]
fn verifier_test_z3_verification_availability() {
    let available = Z3VerificationFacade::is_available();
    println!("Z3 verification available: {}", available);

    assert!(available);
}

#[test]
fn verifier_test_z3_facade_creation() {
    let facade = Z3VerificationFacade::new();
    assert!(facade.is_ok());
}

#[test]
fn test_disabled_verification() {
    let mut facade = Z3VerificationFacade::new_disabled();
    let result = facade.verify_smt_formula("(check-sat)").unwrap();
    assert_eq!(result, PropertyResult::Unsupported);
}

#[test]
fn test_facade_default() {
    let facade = Z3VerificationFacade::default();
    drop(facade);
}

#[test]
fn test_disabled_result_creation() {
    let result = EnhancedVerificationResult::disabled();
    assert_eq!(result.status, VerificationStatus::Disabled);
    assert!(result.verified_properties.is_empty());
    assert!(result.proofs.is_empty());
    assert!(result.counterexamples.is_empty());
}

#[test]
fn test_z3_verifier_creation() {
    let config = AdvancedVerificationConfig::default();
    let verifier = aisp_core::engine::EnhancedZ3Verifier::with_config(config);
    assert!(verifier.is_ok());

    let verifier = verifier.unwrap();
    assert_eq!(verifier.get_stats().smt_queries, 0);
    assert!(verifier.get_config().incremental);
}

#[test]
fn test_disabled_facade_document_verification() {
    let mut facade = Z3VerificationFacade::new_disabled();
    let doc = empty_document();
    let result = facade.verify_document(&doc, None).unwrap();
    assert_eq!(result.status, VerificationStatus::Disabled);
    assert!(result.verified_properties.is_empty());
    assert!(result.proofs.is_empty());
    assert!(result.counterexamples.is_empty());
}

#[test]
fn test_enabled_facade_decides_formulas() {
    let mut facade = Z3VerificationFacade::new().unwrap();
    let result = facade.verify_smt_formula("(check-sat)").unwrap();
    assert!(matches!(
        result,
        PropertyResult::Proven | PropertyResult::Disproven | PropertyResult::Unknown
    ));
}
