//! Tests of the reference compliance validator: scoring, tiers, the fixed
//! feature registry, pipeline mathematics and token efficiency.

use std::collections::HashSet;

use aisp_core::ast::CanonicalAispDocument;
use aisp_core::compliance::{
    ComplianceLevel, FeatureComplianceResult, LayerCompositionResult, MathFoundationResult,
    ReferenceValidator, SemanticAnalysisResult, TokenEfficiencyResult,
    TriVectorOrthogonalityResult,
};

fn create_test_document() -> CanonicalAispDocument {
    CanonicalAispDocument::new(
        "test".to_string(),
        "5.1".to_string(),
        "2026-01-26".to_string(),
    )
}

fn semantic_input() -> SemanticAnalysisResult {
    SemanticAnalysisResult { semantic_density_ppm: 15_000 }
}

fn math_result(ambiguity_verified: bool, meets_spec: bool) -> MathFoundationResult {
    MathFoundationResult {
        ambiguity_verified,
        calculated_ambiguity_ppm: 15_000,
        pipeline_proofs: vec![],
        token_efficiency: TokenEfficiencyResult {
            compilation_tokens: 100,
            execution_tokens: 0,
            efficiency_ratio: None,
            meets_spec,
        },
    }
}

fn trivector_result(vh: bool, vl: bool) -> TriVectorOrthogonalityResult {
    TriVectorOrthogonalityResult {
        vh_vs_orthogonal: vh,
        vl_vs_orthogonal: vl,
        vh_vl_overlap_allowed: true,
        orthogonality_certificates: vec![],
    }
}

fn feature_result(implemented: usize) -> FeatureComplianceResult {
    FeatureComplianceResult {
        features_implemented: implemented,
        features_specified: 20,
        compliance_percent: (implemented as u32) * 5,
        feature_results: vec![],
    }
}

fn layer_result(l0: bool, l1: bool, l2: bool) -> LayerCompositionResult {
    LayerCompositionResult {
        layer0_verified: l0,
        layer1_verified: l1,
        layer2_verified: l2,
        composition_proofs: vec![],
    }
}

#[test]
fn test_reference_validator_creation() {
    let validator = ReferenceValidator::new();
    drop(validator);
}

#[test]
fn test_pipeline_proof_generation() {
    let mut validator = ReferenceValidator::new();
    let proofs = validator.generate_pipeline_proofs().unwrap();

    assert_eq!(proofs.len(), 4);

    let ten_step_proof = proofs.iter().find(|p| p.steps == 10).unwrap();
    assert!((ten_step_proof.prose_rate_ppm as i64 - 8_400).abs() < 1_000);
    assert!((ten_step_proof.aisp_rate_ppm as i64 - 817_000).abs() < 10_000);
    assert!(ten_step_proof.improvement_factor > 90);
}

#[test]
fn test_pipeline_proof_exact_rates() {
    let mut validator = ReferenceValidator::new();
    let proofs = validator.generate_pipeline_proofs().unwrap();

    let by_steps: Vec<(usize, u64, u64, u64)> = proofs
        .iter()
        .map(|p| (p.steps, p.prose_rate_ppm, p.aisp_rate_ppm, p.improvement_factor))
        .collect();
    assert_eq!(
        by_steps,
        vec![
            (1, 620_000, 980_000, 1),
            (5, 91_613, 903_920, 9),
            (10, 8_392, 817_070, 97),
            (20, 69, 667_601, 9_675),
        ]
    );
    for p in &proofs {
        assert!(p.aisp_rate_ppm > p.prose_rate_ppm);
        assert!(p.improvement_factor >= 1);
    }
}

#[test]
fn test_compliance_level_determination() {
    let validator = ReferenceValidator::new();

    assert_eq!(validator.determine_compliance_level(10_000), ComplianceLevel::Perfect);
    assert_eq!(validator.determine_compliance_level(9_000), ComplianceLevel::High);
    assert_eq!(validator.determine_compliance_level(7_000), ComplianceLevel::Partial);
    assert_eq!(validator.determine_compliance_level(4_000), ComplianceLevel::Low);
    assert_eq!(validator.determine_compliance_level(1_000), ComplianceLevel::Failed);
}

#[test]
fn test_compliance_tier_boundaries() {
    let validator = ReferenceValidator::new();

    assert_eq!(validator.determine_compliance_level(9_500), ComplianceLevel::High);
    assert_eq!(validator.determine_compliance_level(8_500), ComplianceLevel::High);
    assert_eq!(validator.determine_compliance_level(8_499), ComplianceLevel::Partial);
    assert_eq!(validator.determine_compliance_level(6_000), ComplianceLevel::Partial);
    assert_eq!(validator.determine_compliance_level(5_900), ComplianceLevel::Low);
    assert_eq!(validator.determine_compliance_level(3_000), ComplianceLevel::Low);
    assert_eq!(validator.determine_compliance_level(2_999), ComplianceLevel::Failed);
    assert_eq!(validator.determine_compliance_level(500), ComplianceLevel::Failed);
    assert_eq!(validator.determine_compliance_level(0), ComplianceLevel::Failed);
}

#[test]
fn test_feature_verification_count() {
    let validator = ReferenceValidator::new();
    let features = validator.get_reference_features();

    assert_eq!(features.len(), 20);

    let feature_names: HashSet<_> = features.iter().collect();
    assert!(feature_names.contains(&"TriVectorDecomposition".to_string()));
    assert!(feature_names.contains(&"GhostIntentSearch".to_string()));
    assert!(feature_names.contains(&"Sigma512Glossary".to_string()));
}

#[test]
fn test_feature_registry_names_unique() {
    let mut validator = ReferenceValidator::new();
    let doc = create_test_document();
    let compliance = validator.verify_feature_compliance(&doc).unwrap();

    assert_eq!(compliance.feature_results.len(), 20);
    assert_eq!(compliance.features_specified, 20);
    assert_eq!(compliance.features_implemented, 19);
    assert_eq!(compliance.compliance_percent, 95);

    let names: HashSet<_> = compliance.feature_results.iter().map(|(n, _)| n).collect();
    assert_eq!(names.len(), 20);

    let anti_drift = compliance
        .feature_results
        .iter()
        .find(|(n, _)| n == "AntiDriftProtocol")
        .unwrap();
    assert!(!anti_drift.1.implemented);
    assert_eq!(anti_drift.1.verification_details, "Not yet implemented");
}

#[test]
fn test_token_efficiency_verification() {
    let mut validator = ReferenceValidator::new();
    let doc = create_test_document();
    let source = "test source content";

    let result = validator.verify_token_efficiency(&doc, source).unwrap();

    assert!(result.compilation_tokens > 0);
    assert_eq!(result.execution_tokens, 0);
    assert!(result.meets_spec);
}

#[test]
fn test_token_efficiency_exact_estimate() {
    let mut validator = ReferenceValidator::new();
    let doc = create_test_document();
    let result = validator
        .verify_token_efficiency(&doc, "test source content")
        .unwrap();
    assert_eq!(result.compilation_tokens, 4);
    assert!(result.efficiency_ratio.is_none());
}

#[test]
fn test_compliance_score_weighting() {
    let validator = ReferenceValidator::new();

    let full = validator.calculate_compliance_score(
        &math_result(true, true),
        &trivector_result(true, true),
        &feature_result(20),
        &layer_result(true, true, true),
    );
    assert_eq!(full, 10_000);

    let empty = validator.calculate_compliance_score(
        &math_result(false, false),
        &trivector_result(false, false),
        &feature_result(0),
        &layer_result(false, false, false),
    );
    assert_eq!(empty, 0);

    let mixed = validator.calculate_compliance_score(
        &math_result(false, true),
        &trivector_result(true, false),
        &feature_result(19),
        &layer_result(true, true, true),
    );
    assert_eq!(mixed, 1_250 + 1_250 + 35 * 95 + 1_500);
    assert_eq!(
        validator.determine_compliance_level(mixed),
        ComplianceLevel::Partial
    );
}

#[test]
fn test_compliance_score_stays_in_unit_range() {
    let mut validator = ReferenceValidator::new();
    let doc = create_test_document();
    let report = validator
        .validate_reference_compliance(&doc, "𝔸5.1.Demo type blocks", &semantic_input())
        .unwrap();
    assert!(report.compliance_score_bp <= 10_000);
    assert_eq!(
        report.compliance_level,
        validator.determine_compliance_level(report.compliance_score_bp)
    );
    assert!(report.verification_issues.is_empty());
    assert!(report.trivector_orthogonality.vh_vl_overlap_allowed);
    assert_eq!(report.feature_compliance.features_implemented, 19);
    assert!(report.layer_composition.layer0_verified);
    assert!(report.layer_composition.layer1_verified);
    assert!(report.layer_composition.layer2_verified);
}

#[test]
fn test_composition_proofs_fixed_edges() {
    let mut validator = ReferenceValidator::new();
    let proofs = validator.generate_composition_proofs().unwrap();
    assert_eq!(proofs.len(), 2);
    assert_eq!(proofs[0].from_layer, "L0_Signal");
    assert_eq!(proofs[0].to_layer, "L1_Pocket");
    assert_eq!(proofs[0].enables_property, "stable∧deterministic⇒integrity");
    assert_eq!(proofs[0].certificate.as_deref(), Some("L0_L1_COMPOSITION_VERIFIED"));
    assert_eq!(proofs[1].from_layer, "L1_Pocket");
    assert_eq!(proofs[1].to_layer, "L2_Intelligence");
    assert_eq!(proofs[1].enables_property, "integrity∧zero_copy⇒bounded");
    assert_eq!(proofs[1].certificate.as_deref(), Some("L1_L2_COMPOSITION_VERIFIED"));
}

#[test]
fn test_ambiguity_clamped_to_bound() {
    let mut validator = ReferenceValidator::new();
    let doc = create_test_document();
    let dense = SemanticAnalysisResult { semantic_density_ppm: 500_000 };
    let math = validator
        .verify_mathematical_foundations(&doc, "source", &dense)
        .unwrap();
    assert_eq!(math.calculated_ambiguity_ppm, 20_000);

    let sparse = SemanticAnalysisResult { semantic_density_ppm: 1_500 };
    let math = validator
        .verify_mathematical_foundations(&doc, "source", &sparse)
        .unwrap();
    assert_eq!(math.calculated_ambiguity_ppm, 1_500);
}

#[test]
fn test_decimal_rendering() {
    assert_eq!(aisp_core::numeric::u64_to_string(0), "0");
    assert_eq!(aisp_core::numeric::u64_to_string(7), "7");
    assert_eq!(aisp_core::numeric::u64_to_string(10), "10");
    assert_eq!(aisp_core::numeric::u64_to_string(12_345), "12345");
    assert_eq!(
        aisp_core::numeric::u64_to_string(u64::MAX),
        "18446744073709551615"
    );
}

#[test]
fn test_compounded_rate_values() {
    assert_eq!(aisp_core::numeric::success_rate_ppm(62, 0), 1_000_000);
    assert_eq!(aisp_core::numeric::success_rate_ppm(62, 10), 8_392);
    assert_eq!(aisp_core::numeric::success_rate_ppm(98, 10), 817_070);
    assert_eq!(aisp_core::numeric::success_rate_ppm(0, 3), 0);
    assert_eq!(aisp_core::numeric::success_rate_ppm(100, 9), 1_000_000);
}

#[test]
fn test_pipeline_formula_mentions_step_count() {
    let formula = aisp_core::encoder::pipeline_formula(10);
    assert!(formula.contains("(^ 0.62 10)"));
    assert!(formula.contains("(^ 0.98 10)"));
    assert!(formula.contains("improvement_factor"));
}
