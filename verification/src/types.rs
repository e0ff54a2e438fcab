//! Result, configuration and statistics types of the verification engine.
//!
//! One set of types serves both the solver-backed engine and the disabled
//! stand-in: absent backend capability never changes a return type, it only
//! substitutes `Unsupported` / `Disabled` values.

use vstd::prelude::*;

verus! {

/// Category of a verified property.
#[derive(Debug, Clone, PartialEq, Eq, Structural)]
pub enum PropertyCategory {
    /// Tri-vector orthogonality.
    TriVectorOrthogonality,
    /// Temporal safety property.
    TemporalSafety,
    /// Temporal liveness property.
    TemporalLiveness,
    /// Type safety invariant.
    TypeSafety,
    /// Functional correctness.
    Correctness,
    /// Resource constraints.
    ResourceConstraints,
    /// Protocol compliance.
    ProtocolCompliance,
}

/// Result of verifying one property.
#[derive(Debug, Clone, PartialEq)]
pub enum PropertyResult {
    /// Property proven valid.
    Proven,
    /// Property disproven with a counterexample.
    Disproven,
    /// Property unknown (timeout or resource limit).
    Unknown,
    /// Verification error with its reason.
    Error(String),
    /// No solver backend is available.
    Unsupported,
}

impl PropertyResult {
    /// Whether this verdict is a proof: the decode every compliance phase
    /// uses to turn a solver verdict into its flag.
    pub fn is_proven(&self) -> (b: bool)
        ensures
            b == (self is Proven),
    {
        match self {
            PropertyResult::Proven => true,
            _ => false,
        }
    }
}

/// Document-level status of a verification run.
#[derive(Debug, Clone, PartialEq)]
pub enum VerificationStatus {
    /// All properties successfully verified.
    AllVerified,
    /// Some properties verified, none disproven or in error.
    PartiallyVerified,
    /// No property was resolved.
    Incomplete,
    /// Verification failed: a property was disproven or errored.
    Failed(String),
    /// The solver backend is disabled.
    Disabled,
}

/// One verified property with its formula, outcome and artifacts.
#[derive(Debug, Clone)]
pub struct VerifiedProperty {
    /// Property identifier, unique within a run.
    pub id: String,
    /// Property category.
    pub category: PropertyCategory,
    /// Human-readable description.
    pub description: String,
    /// Formula text handed to the solver.
    pub smt_formula: String,
    /// Verification result.
    pub result: PropertyResult,
    /// Verification time in milliseconds.
    pub verification_time_ms: u64,
    /// Proof certificate, present only when the result is `Proven`.
    pub proof_certificate: Option<String>,
}

impl VerifiedProperty {
    /// A well-formed property carries a certificate only when proven.
    pub open spec fn wf(&self) -> bool {
        self.proof_certificate is Some ==> self.result == PropertyResult::Proven
    }

    /// Builds a property record with no formula, time or certificate.
    pub fn new(
        id: String,
        category: PropertyCategory,
        description: String,
        result: PropertyResult,
    ) -> (r: VerifiedProperty)
        ensures
            r.id@ == id@,
            r.category == category,
            r.description@ == description@,
            r.smt_formula@.len() == 0,
            r.result == result,
            r.verification_time_ms == 0,
            r.proof_certificate is None,
            r.wf(),
    {
        VerifiedProperty {
            id,
            category,
            description,
            smt_formula: String::new(),
            result,
            verification_time_ms: 0,
            proof_certificate: None,
        }
    }
}

/// Formal proof artifact attached to a proven property.
#[derive(Debug, Clone)]
pub struct FormalProof {
    /// Proof identifier.
    pub id: String,
    /// Proof format name.
    pub format: String,
    /// Proof content.
    pub content: String,
    /// Number of proof steps.
    pub size: usize,
    /// Identifiers of proofs this one depends on.
    pub dependencies: Vec<String>,
    /// Whether the proof was validated.
    pub valid: bool,
}

/// Interpretation of one function inside a counterexample model.
#[derive(Debug, Clone)]
pub struct FunctionInterpretation {
    /// Function name.
    pub name: String,
    /// Domain type names.
    pub domain: Vec<String>,
    /// Codomain type name.
    pub codomain: String,
    /// Argument tuples mapped to values.
    pub mapping: Vec<(Vec<String>, String)>,
    /// Default value for a partial function.
    pub default: Option<String>,
}

/// Counterexample model attached to a disproven property.
#[derive(Debug, Clone)]
pub struct CounterexampleModel {
    /// Model identifier.
    pub id: String,
    /// Variable assignments, one name/value pair each.
    pub assignments: Vec<(String, String)>,
    /// Function interpretations.
    pub function_interpretations: Vec<FunctionInterpretation>,
    /// Model text as the solver printed it.
    pub evaluation: String,
    /// Human-readable explanation.
    pub explanation: String,
}

/// Minimal unsatisfiable core of an unsatisfiable assertion set.
#[derive(Debug, Clone)]
pub struct UnsatCore {
    /// Core identifier.
    pub id: String,
    /// Minimal unsatisfiable subset of assertions.
    pub core_assertions: Vec<String>,
    /// Explanation of unsatisfiability.
    pub explanation: String,
    /// Suggestions for resolution.
    pub suggestions: Vec<String>,
}

/// Severity of a solver diagnostic.
#[derive(Debug, Clone, PartialEq, Eq, Structural)]
pub enum DiagnosticLevel {
    /// Information.
    Info,
    /// Warning.
    Warning,
    /// Error.
    Error,
    /// Performance issue.
    Performance,
}

/// Diagnostic message emitted around a solver interaction.
#[derive(Debug, Clone)]
pub struct SolverDiagnostic {
    /// Diagnostic level.
    pub level: DiagnosticLevel,
    /// Diagnostic message.
    pub message: String,
    /// Context information.
    pub context: String,
    /// Milliseconds since the run started.
    pub timestamp_ms: u64,
}

/// Configuration of the verification engine.
#[derive(Debug, Clone)]
pub struct AdvancedVerificationConfig {
    /// Timeout for an individual solver query, in milliseconds.
    pub query_timeout_ms: u64,
    /// Enable incremental solving.
    pub incremental: bool,
    /// Enable proof generation.
    pub generate_proofs: bool,
    /// Enable model generation.
    pub generate_models: bool,
    /// Enable unsat-core generation.
    pub generate_unsat_cores: bool,
    /// Ordered solver tactic names to compose.
    pub solver_tactics: Vec<String>,
    /// Maximum memory usage in megabytes.
    pub max_memory_mb: usize,
    /// Deterministic random seed, when reproducibility is wanted.
    pub random_seed: Option<u64>,
}

impl Default for AdvancedVerificationConfig {
    /// The default configuration: thirty-second queries, incremental
    /// solving, all artifact generation on, the standard tactic stack.
    fn default() -> (r: AdvancedVerificationConfig)
        ensures
            r.query_timeout_ms == 30000,
            r.incremental,
            r.generate_proofs,
            r.generate_models,
            r.generate_unsat_cores,
            r.solver_tactics@.len() == 3,
            r.solver_tactics@[0]@ == "simplify"@,
            r.solver_tactics@[1]@ == "solve-eqs"@,
            r.solver_tactics@[2]@ == "smt"@,
            r.max_memory_mb == 4096,
            r.random_seed == Some(42u64),
    {
        let mut solver_tactics: Vec<String> = Vec::new();
        solver_tactics.push(String::from_str("simplify"));
        solver_tactics.push(String::from_str("solve-eqs"));
        solver_tactics.push(String::from_str("smt"));
        AdvancedVerificationConfig {
            query_timeout_ms: 30000,
            incremental: true,
            generate_proofs: true,
            generate_models: true,
            generate_unsat_cores: true,
            solver_tactics,
            max_memory_mb: 4096,
            random_seed: Some(42),
        }
    }
}

/// Cumulative statistics of one engine instance.
#[derive(Debug, Clone)]
pub struct EnhancedVerificationStats {
    /// Total verification time in milliseconds.
    pub total_time_ms: u64,
    /// Number of solver queries issued.
    pub smt_queries: usize,
    /// Number of successful proofs.
    pub successful_proofs: usize,
    /// Number of counterexamples found.
    pub counterexamples: usize,
    /// Number of queries that timed out.
    pub timeouts: usize,
    /// Peak memory usage in bytes.
    pub peak_memory: usize,
}

impl EnhancedVerificationStats {
    /// All counters zero.
    pub open spec fn is_zeroed(&self) -> bool {
        &&& self.total_time_ms == 0
        &&& self.smt_queries == 0
        &&& self.successful_proofs == 0
        &&& self.counterexamples == 0
        &&& self.timeouts == 0
        &&& self.peak_memory == 0
    }
}

impl Default for EnhancedVerificationStats {
    /// Fresh statistics: every counter zero.
    fn default() -> (r: EnhancedVerificationStats)
        ensures
            r.is_zeroed(),
    {
        EnhancedVerificationStats {
            total_time_ms: 0,
            smt_queries: 0,
            successful_proofs: 0,
            counterexamples: 0,
            timeouts: 0,
            peak_memory: 0,
        }
    }
}

/// Complete result of one document verification run.
#[derive(Debug, Clone)]
pub struct EnhancedVerificationResult {
    /// Overall verification status.
    pub status: VerificationStatus,
    /// Verified properties with detailed results.
    pub verified_properties: Vec<VerifiedProperty>,
    /// Formal proofs generated for proven properties.
    pub proofs: Vec<FormalProof>,
    /// Counterexamples for disproven properties.
    pub counterexamples: Vec<CounterexampleModel>,
    /// Unsat cores for unsatisfiable constraint sets.
    pub unsat_cores: Vec<UnsatCore>,
    /// Solver diagnostics.
    pub diagnostics: Vec<SolverDiagnostic>,
    /// Statistics of the run.
    pub stats: EnhancedVerificationStats,
}

impl EnhancedVerificationResult {
    /// The result substituted when the solver backend is disabled:
    /// status `Disabled`, everything else empty.
    pub fn disabled() -> (r: EnhancedVerificationResult)
        ensures
            r.status == VerificationStatus::Disabled,
            r.verified_properties@.len() == 0,
            r.proofs@.len() == 0,
            r.counterexamples@.len() == 0,
            r.unsat_cores@.len() == 0,
            r.diagnostics@.len() == 0,
            r.stats.is_zeroed(),
    {
        EnhancedVerificationResult {
            status: VerificationStatus::Disabled,
            verified_properties: Vec::new(),
            proofs: Vec::new(),
            counterexamples: Vec::new(),
            unsat_cores: Vec::new(),
            diagnostics: Vec::new(),
            stats: EnhancedVerificationStats::default(),
        }
    }
}

} // verus!
