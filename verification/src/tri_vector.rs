//! Tri-vector concern-space analysis inputs.
//!
//! A signal decomposes into three concern spaces — semantic (meaning),
//! structural (syntax/layout) and safety (constraints). The analysis result
//! is produced by an upstream validation pass and consumed read-only here;
//! the engine turns its obligations into solver formulas. Confidence values
//! are held in parts per million.

use vstd::prelude::*;

verus! {

/// One concern space of the tri-vector decomposition.
#[derive(Debug, Clone)]
pub struct VectorSpace {
    /// Space name (e.g. "V_H").
    pub name: String,
    /// Dimension of the space.
    pub dimension: usize,
    /// Optional type annotation from the source document.
    pub type_annotation: Option<String>,
}

/// A signal decomposed into the three concern spaces.
#[derive(Debug, Clone)]
pub struct TriVectorSignal {
    /// Semantic space.
    pub semantic: VectorSpace,
    /// Structural space.
    pub structural: VectorSpace,
    /// Safety space.
    pub safety: VectorSpace,
}

/// How strongly two spaces were found to be orthogonal.
#[derive(Debug, Clone, PartialEq, Eq, Structural)]
pub enum OrthogonalityType {
    /// Every pair of member vectors has zero inner product.
    CompletelyOrthogonal,
    /// Some member vectors overlap.
    PartiallyOrthogonal,
    /// The spaces overlap.
    NotOrthogonal,
}

/// Upstream analysis of one orthogonality obligation between two spaces.
#[derive(Debug, Clone)]
pub struct OrthogonalityResult {
    /// First space name.
    pub space1: String,
    /// Second space name.
    pub space2: String,
    /// Kind of orthogonality found.
    pub orthogonality_type: OrthogonalityType,
    /// Optional proof sketch from the analysis.
    pub proof: Option<String>,
    /// Optional counterexample from the analysis.
    pub counterexample: Option<String>,
    /// Confidence in parts per million.
    pub confidence_ppm: u64,
}

/// Upstream analysis of the safety-isolation obligation.
#[derive(Debug, Clone)]
pub struct SafetyIsolationResult {
    /// Whether the safety space is isolated from optimization.
    pub isolated: bool,
    /// Optional isolation proof sketch.
    pub isolation_proof: Option<String>,
    /// Safety properties preserved under isolation.
    pub preserved_properties: Vec<String>,
    /// Violations found, when not isolated.
    pub violations: Vec<String>,
}

/// Complete tri-vector validation result handed to the engine.
#[derive(Debug, Clone)]
pub struct TriVectorValidationResult {
    /// Whether the decomposition as a whole was accepted upstream.
    pub valid: bool,
    /// The decomposed signal, when one was recovered.
    pub signal: Option<TriVectorSignal>,
    /// Orthogonality analyses, keyed by constraint text.
    pub orthogonality_results: Vec<(String, OrthogonalityResult)>,
    /// Safety-isolation analysis.
    pub safety_isolation: SafetyIsolationResult,
    /// Proof certificates collected upstream.
    pub proof_certificates: Vec<String>,
    /// Errors reported upstream.
    pub errors: Vec<String>,
    /// Warnings reported upstream.
    pub warnings: Vec<String>,
}

} // verus!
