//! Tests of the property verifier, the document verifier and the strict
//! result aggregation.

use aisp_core::ast::{
    BasicType, CanonicalAispBlock, CanonicalAispDocument, FunctionsBlock, TypeDefinition,
    TypeExpression, TypesBlock,
};
use aisp_core::engine::{EnhancedZ3Verifier, PropertyVerifier};
use aisp_core::environment::SortKind;
use aisp_core::tri_vector::{
    OrthogonalityResult, OrthogonalityType, SafetyIsolationResult, TriVectorSignal,
    TriVectorValidationResult, VectorSpace,
};
use aisp_core::types::{
    AdvancedVerificationConfig, PropertyCategory, PropertyResult, VerificationStatus,
    VerifiedProperty,
};

fn create_test_tri_vector_result() -> TriVectorValidationResult {
    let semantic_space = VectorSpace {
        name: "V_H".to_string(),
        dimension: 768,
        type_annotation: Some("ℝ⁷⁶⁸".to_string()),
    };

    let structural_space = VectorSpace {
        name: "V_L".to_string(),
        dimension: 512,
        type_annotation: Some("ℝ⁵¹²".to_string()),
    };

    let safety_space = VectorSpace {
        name: "V_S".to_string(),
        dimension: 256,
        type_annotation: Some("ℝ²⁵⁶".to_string()),
    };

    let signal = TriVectorSignal {
        semantic: semantic_space,
        structural: structural_space,
        safety: safety_space,
    };

    let orthogonality_results = vec![(
        "V_H ⊥ V_S".to_string(),
        OrthogonalityResult {
            space1: "V_H".to_string(),
            space2: "V_S".to_string(),
            orthogonality_type: OrthogonalityType::CompletelyOrthogonal,
            proof: None,
            counterexample: None,
            confidence_ppm: 1_000_000,
        },
    )];

    TriVectorValidationResult {
        valid: true,
        signal: Some(signal),
        orthogonality_results,
        safety_isolation: SafetyIsolationResult {
            isolated: true,
            isolation_proof: None,
            preserved_properties: vec!["safety".to_string()],
            violations: vec![],
        },
        proof_certificates: vec![],
        errors: vec![],
        warnings: vec![],
    }
}

fn empty_document() -> CanonicalAispDocument {
    CanonicalAispDocument::new(
        "test".to_string(),
        "5.1".to_string(),
        "2026-01-26".to_string(),
    )
}

fn property(id: &str, result: PropertyResult) -> VerifiedProperty {
    VerifiedProperty::new(
        id.to_string(),
        PropertyCategory::TriVectorOrthogonality,
        id.to_string(),
        result,
    )
}

#[test]
fn test_property_verifier_creation() {
    let config = AdvancedVerificationConfig::default();
    let verifier = PropertyVerifier::new(config);
    assert_eq!(verifier.stats.smt_queries, 0);
    assert_eq!(verifier.stats.successful_proofs, 0);
}

#[test]
fn test_tri_vector_verification() {
    let config = AdvancedVerificationConfig::default();
    let mut verifier = PropertyVerifier::new(config);
    let tri_result = create_test_tri_vector_result();

    let properties = verifier.verify_tri_vector_properties(&tri_result);
    assert!(properties.is_ok());

    let properties = properties.unwrap();
    assert!(!properties.is_empty());

    let has_orthogonality = properties
        .iter()
        .any(|p| p.category == PropertyCategory::TriVectorOrthogonality);
    assert!(has_orthogonality);
}

#[test]
fn test_orthogonality_formula_creation() {
    let config = AdvancedVerificationConfig::default();
    let verifier = PropertyVerifier::new(config);

    let formula = verifier.create_orthogonality_formula("V_H", "V_S");
    assert!(formula.is_ok());

    let formula = formula.unwrap();
    assert!(formula.contains("forall"));
    assert!(formula.contains("dot_product"));
    assert!(formula.contains("V_H"));
    assert!(formula.contains("V_S"));
}

#[test]
fn test_orthogonality_formula_exact_text() {
    let config = AdvancedVerificationConfig::default();
    let verifier = PropertyVerifier::new(config);
    let formula = verifier.create_orthogonality_formula("V_H", "V_S").unwrap();
    assert_eq!(
        formula,
        "(forall ((v1 Vector) (v2 Vector)) (=> (and (in_space v1 V_H) (in_space v2 V_S)) \
         (= (dot_product v1 v2) 0)))"
    );
}

#[test]
fn test_safety_isolation_verification() {
    let config = AdvancedVerificationConfig::default();
    let mut verifier = PropertyVerifier::new(config);

    let safety_result = SafetyIsolationResult {
        isolated: true,
        isolation_proof: None,
        preserved_properties: vec!["safety".to_string()],
        violations: vec![],
    };

    let property = verifier.verify_safety_isolation(&safety_result);
    assert!(property.is_ok());

    let property = property.unwrap();
    assert_eq!(property.id, "safety_isolation");
    assert_eq!(property.result, PropertyResult::Proven);
    assert!(property.proof_certificate.is_some());
}

#[test]
fn test_safety_isolation_not_isolated() {
    let config = AdvancedVerificationConfig::default();
    let mut verifier = PropertyVerifier::new(config);

    let safety_result = SafetyIsolationResult {
        isolated: false,
        isolation_proof: None,
        preserved_properties: vec![],
        violations: vec!["optimization touches the safety space".to_string()],
    };

    let property = verifier.verify_safety_isolation(&safety_result).unwrap();
    assert_eq!(property.result, PropertyResult::Disproven);
    assert!(property.proof_certificate.is_none());
}

#[test]
fn test_safety_certificate_is_nonempty() {
    let config = AdvancedVerificationConfig::default();
    let verifier = PropertyVerifier::new(config);
    let certificate = verifier.generate_safety_certificate(&PropertyResult::Proven);
    assert_eq!(
        certificate.as_deref(),
        Some("Safety isolation verified by orthogonality constraints")
    );
    assert!(verifier
        .generate_safety_certificate(&PropertyResult::Unknown)
        .is_none());
}

#[test]
fn test_orthogonality_certificate_text() {
    let config = AdvancedVerificationConfig::default();
    let verifier = PropertyVerifier::new(config);
    let certificate =
        verifier.generate_orthogonality_certificate("V_H ⊥ V_S", &PropertyResult::Proven);
    assert_eq!(
        certificate.as_deref(),
        Some("Orthogonality constraint 'V_H ⊥ V_S' proven by AISP tri-vector specification")
    );
    assert!(verifier
        .generate_orthogonality_certificate("V_H ⊥ V_S", &PropertyResult::Disproven)
        .is_none());
}

#[test]
fn test_orthogonality_property_id_mangles_spaces() {
    let config = AdvancedVerificationConfig::default();
    let mut verifier = PropertyVerifier::new(config);
    let tri_result = create_test_tri_vector_result();
    let properties = verifier.verify_tri_vector_properties(&tri_result).unwrap();
    assert_eq!(properties.len(), 3);
    assert_eq!(properties[0].id, "orthogonality_V_H_⊥_V_S");
    assert_eq!(properties[1].id, "safety_isolation");
    assert_eq!(properties[2].id, "signal_decomposition");
}

#[test]
fn test_verification_statistics() {
    let config = AdvancedVerificationConfig::default();
    let mut verifier = PropertyVerifier::new(config);
    let tri_result = create_test_tri_vector_result();

    let _properties = verifier.verify_tri_vector_properties(&tri_result).unwrap();

    assert!(verifier.get_stats().smt_queries > 0);
    assert!(verifier.get_stats().successful_proofs > 0);

    verifier.reset_stats();
    assert_eq!(verifier.get_stats().smt_queries, 0);
    assert_eq!(verifier.get_stats().successful_proofs, 0);
}

#[test]
fn test_statistics_track_batch_outcomes() {
    let config = AdvancedVerificationConfig::default();
    let mut verifier = PropertyVerifier::new(config);
    let tri_result = create_test_tri_vector_result();

    let properties = verifier.verify_tri_vector_properties(&tri_result).unwrap();

    let proven = properties
        .iter()
        .filter(|p| p.result == PropertyResult::Proven)
        .count();
    let disproven = properties
        .iter()
        .filter(|p| p.result == PropertyResult::Disproven)
        .count();
    let stats = verifier.get_stats();
    assert_eq!(stats.smt_queries, tri_result.orthogonality_results.len() + 2);
    assert_eq!(stats.successful_proofs, proven);
    assert_eq!(stats.counterexamples, disproven);
    assert_eq!(stats.timeouts, 0);

    let no_signal = TriVectorValidationResult { signal: None, ..tri_result };
    let before = verifier.get_stats().clone();
    let empty = verifier.verify_tri_vector_properties(&no_signal).unwrap();
    assert!(empty.is_empty());
    let after = verifier.get_stats();
    assert_eq!(after.smt_queries, before.smt_queries);
    assert_eq!(after.successful_proofs, before.successful_proofs);
    assert_eq!(after.counterexamples, before.counterexamples);
}

#[test]
fn test_empty_obligation_batches() {
    let config = AdvancedVerificationConfig::default();
    let mut verifier = PropertyVerifier::new(config);
    let doc = empty_document();
    assert!(verifier.verify_temporal_properties(&doc).unwrap().is_empty());
    assert!(verifier.verify_type_safety_properties(&doc).unwrap().is_empty());
    assert!(verifier.verify_correctness_properties(&doc).unwrap().is_empty());
}

#[test]
fn test_verification_status_determination() {
    let config = AdvancedVerificationConfig::default();
    let verifier = EnhancedZ3Verifier::with_config(config).unwrap();

    let empty_props: Vec<VerifiedProperty> = vec![];
    let status = verifier.determine_verification_status(&empty_props);
    assert_eq!(status, VerificationStatus::Incomplete);

    let proven_props = vec![
        VerifiedProperty::new(
            "test1".to_string(),
            PropertyCategory::TriVectorOrthogonality,
            "Test 1".to_string(),
            PropertyResult::Proven,
        ),
        VerifiedProperty::new(
            "test2".to_string(),
            PropertyCategory::TypeSafety,
            "Test 2".to_string(),
            PropertyResult::Proven,
        ),
    ];
    let status = verifier.determine_verification_status(&proven_props);
    assert_eq!(status, VerificationStatus::AllVerified);
}

#[test]
fn test_aggregation_rule_cases() {
    let verifier = EnhancedZ3Verifier::new().unwrap();

    let empty: Vec<VerifiedProperty> = vec![];
    assert_eq!(
        verifier.determine_verification_status(&empty),
        VerificationStatus::Incomplete
    );

    let all_proven = vec![
        property("a", PropertyResult::Proven),
        property("b", PropertyResult::Proven),
    ];
    assert_eq!(
        verifier.determine_verification_status(&all_proven),
        VerificationStatus::AllVerified
    );

    let with_disproven = vec![
        property("a", PropertyResult::Proven),
        property("b", PropertyResult::Disproven),
    ];
    assert_eq!(
        verifier.determine_verification_status(&with_disproven),
        VerificationStatus::Failed("Property disproven".to_string())
    );

    let with_unknown = vec![
        property("a", PropertyResult::Proven),
        property("b", PropertyResult::Unknown),
    ];
    assert_eq!(
        verifier.determine_verification_status(&with_unknown),
        VerificationStatus::PartiallyVerified
    );

    let with_error = vec![
        property("a", PropertyResult::Proven),
        property("b", PropertyResult::Error("formula rejected".to_string())),
    ];
    assert_eq!(
        verifier.determine_verification_status(&with_error),
        VerificationStatus::Failed("Verification error encountered".to_string())
    );
}

#[test]
fn test_document_without_obligations_is_incomplete() {
    let mut verifier = EnhancedZ3Verifier::new().unwrap();
    let doc = empty_document();
    let result = verifier.verify_document(&doc, None).unwrap();
    assert_eq!(result.status, VerificationStatus::Incomplete);
    assert!(result.verified_properties.is_empty());
    assert!(result.proofs.is_empty());
    assert!(result.counterexamples.is_empty());
}

#[test]
fn test_environment_setup_declares_sorts_and_functions() {
    let mut verifier = EnhancedZ3Verifier::new().unwrap();
    let mut doc = empty_document();
    doc.add_block(CanonicalAispBlock::Types(TypesBlock {
        definitions: vec![
            TypeDefinition {
                name: "Counter".to_string(),
                type_expr: TypeExpression::Basic(BasicType::Natural),
                span: None,
            },
            TypeDefinition {
                name: "Flag".to_string(),
                type_expr: TypeExpression::Basic(BasicType::Boolean),
                span: None,
            },
            TypeDefinition {
                name: "Label".to_string(),
                type_expr: TypeExpression::Basic(BasicType::Custom("Label".to_string())),
                span: None,
            },
        ],
        span: None,
    }));
    doc.add_block(CanonicalAispBlock::Functions(FunctionsBlock {
        functions: vec!["increment".to_string(), "reset".to_string()],
        span: None,
    }));

    verifier.setup_aisp_environment(&doc).unwrap();
    let env = verifier.get_environment();

    assert_eq!(env.sorts.len(), 8);
    assert_eq!(env.sorts[0].name, "Real");
    assert_eq!(env.sorts[5].name, "Counter");
    assert_eq!(env.sorts[5].kind, SortKind::IntSort);
    assert_eq!(env.sorts[6].name, "Flag");
    assert_eq!(env.sorts[6].kind, SortKind::BoolSort);
    assert_eq!(env.sorts[7].name, "Label");
    assert_eq!(env.sorts[7].kind, SortKind::Uninterpreted);

    assert_eq!(env.functions.len(), 2);
    assert_eq!(env.functions[0].name, "increment");
    assert_eq!(env.functions[0].domain, vec!["Any".to_string()]);
    assert_eq!(env.functions[0].codomain, "Any");
    assert_eq!(env.functions[1].name, "reset");
}

#[test]
fn test_document_verification_with_tri_vector_input() {
    let mut verifier = EnhancedZ3Verifier::new().unwrap();
    let doc = empty_document();
    let tri_result = create_test_tri_vector_result();
    let result = verifier.verify_document(&doc, Some(&tri_result)).unwrap();

    assert_eq!(result.verified_properties.len(), 3);
    assert_eq!(result.verified_properties[1].id, "safety_isolation");
    assert_eq!(result.verified_properties[1].result, PropertyResult::Proven);
    for p in &result.verified_properties {
        assert!(matches!(
            p.result,
            PropertyResult::Proven | PropertyResult::Disproven | PropertyResult::Unknown
        ));
        if p.proof_certificate.is_some() {
            assert_eq!(p.result, PropertyResult::Proven);
        }
    }
    let proven_ids: Vec<String> = result
        .verified_properties
        .iter()
        .filter(|p| p.result == PropertyResult::Proven)
        .map(|p| p.id.clone())
        .collect();
    let disproven_ids: Vec<String> = result
        .verified_properties
        .iter()
        .filter(|p| p.result == PropertyResult::Disproven)
        .map(|p| p.id.clone())
        .collect();
    assert_eq!(result.proofs.len(), proven_ids.len());
    for (proof, id) in result.proofs.iter().zip(proven_ids.iter()) {
        assert_eq!(proof.id, format!("proof_{}", id));
    }
    assert_eq!(result.counterexamples.len(), disproven_ids.len());
    for (model, id) in result.counterexamples.iter().zip(disproven_ids.iter()) {
        assert_eq!(model.id, format!("counterexample_{}", id));
    }
}

#[test]
fn test_proof_and_counterexample_artifacts() {
    let verifier = EnhancedZ3Verifier::new().unwrap();
    let certificate = "Safety isolation verified by orthogonality constraints".to_string();
    let proof = verifier.generate_formal_proof("safety_isolation", Some(&certificate));
    assert_eq!(proof.id, "proof_safety_isolation");
    assert_eq!(proof.format, "Z3");
    assert_eq!(proof.content, certificate);
    assert!(proof.valid);

    let missing = verifier.generate_formal_proof("safety_isolation", None);
    assert_eq!(missing.content, "Proof generation not available");

    let model = verifier.generate_counterexample("safety_isolation");
    assert_eq!(model.id, "counterexample_safety_isolation");
    assert!(model.assignments.is_empty());
    assert_eq!(model.evaluation, "Counterexample found");
    assert_eq!(model.explanation, "Property violated by model");
}

#[test]
fn test_error_messages() {
    let e = aisp_core::error::AispError::validation_error("bad input".to_string());
    assert_eq!(e.message(), "bad input");
    let s = aisp_core::error::AispError::setup_error("no environment".to_string());
    assert_eq!(s.message(), "no environment");
}

#[test]
fn test_artifacts_omitted_when_generation_disabled() {
    let mut config = AdvancedVerificationConfig::default();
    config.generate_proofs = false;
    config.generate_models = false;
    let mut verifier = EnhancedZ3Verifier::with_config(config).unwrap();

    let disabled_proof = verifier.generate_formal_proof("safety_isolation", None);
    assert_eq!(disabled_proof.content, "Proof generation disabled");

    let doc = empty_document();
    let tri_result = create_test_tri_vector_result();
    let result = verifier.verify_document(&doc, Some(&tri_result)).unwrap();
    assert_eq!(result.verified_properties.len(), 3);
    assert!(result.proofs.is_empty());
    assert!(result.counterexamples.is_empty());
}
