//! Backend facade: one interface whether or not a solver backend is held.
//!
//! Construction decides which implementation a caller holds: `new` yields a
//! working engine, `new_disabled` the stand-in. Every verification call on
//! the stand-in substitutes `Unsupported` / `Disabled` values instead of
//! erroring, so calling code never branches on availability.

use vstd::prelude::*;

use crate::ast::AispDocument;
use crate::backend::is_decided_result;
use crate::engine::{stats_wf, EnhancedZ3Verifier};
use crate::error::AispResult;
use crate::tri_vector::TriVectorValidationResult;
use crate::types::{EnhancedVerificationResult, PropertyResult, VerificationStatus};

verus! {

/// Facade over the verification engine; holds the engine when the solver
/// backend is in use, nothing when it is disabled.
pub struct Z3VerificationFacade {
    /// The engine, absent when disabled.
    pub inner: Option<EnhancedZ3Verifier>,
}

impl Z3VerificationFacade {
    /// Creates a facade holding a working engine under the default
    /// configuration.
    pub fn new() -> (r: AispResult<Z3VerificationFacade>)
        ensures
            r matches Ok(f) && ({
                &&& f.inner matches Some(v) && ({
                    &&& v.property_verifier.stats.is_zeroed()
                    &&& v.stats.is_zeroed()
                    &&& stats_wf(v.property_verifier.stats)
                })
            }),
    {
        let verifier = match EnhancedZ3Verifier::new() {
            Ok(v) => v,
            Err(e) => {
                return Err(e);
            },
        };
        Ok(Z3VerificationFacade { inner: Some(verifier) })
    }

    /// Creates the disabled stand-in, for tests or explicit opt-out.
    pub fn new_disabled() -> (r: Z3VerificationFacade)
        ensures
            r.inner is None,
    {
        Z3VerificationFacade { inner: None }
    }

    /// Whether a solver backend is linked into this build.
    pub fn is_available() -> (r: bool)
        ensures
            r,
    {
        true
    }

    /// Has the backend decide one formula. On the disabled stand-in the
    /// result is always `Unsupported`; on a working engine it is whatever
    /// the solver decided.
    pub fn verify_smt_formula(&mut self, formula: &str) -> (r: AispResult<PropertyResult>)
        ensures
            old(self).inner is None ==> (r matches Ok(p) && p == PropertyResult::Unsupported),
            old(self).inner is Some ==> (r matches Ok(p) && is_decided_result(p)),
            *final (self) == *old(self),
    {
        match &mut self.inner {
            Some(verifier) => verifier.verify_smt_formula(formula),
            None => Ok(PropertyResult::Unsupported),
        }
    }

    /// Verifies a document through the engine; on the disabled stand-in the
    /// run substitutes the disabled result (status `Disabled`, no
    /// properties, no artifacts) instead of erroring.
    pub fn verify_document(
        &mut self,
        document: &AispDocument,
        tri_vector_result: Option<&TriVectorValidationResult>,
    ) -> (r: AispResult<EnhancedVerificationResult>)
        requires
            match old(self).inner {
                Some(v) => stats_wf(v.property_verifier.stats),
                None => true,
            },
        ensures
            old(self).inner is None ==> (r matches Ok(res) && ({
                &&& res.status == VerificationStatus::Disabled
                &&& res.verified_properties@.len() == 0
                &&& res.proofs@.len() == 0
                &&& res.counterexamples@.len() == 0
            }) && *final (self) == *old(self)),
            old(self).inner matches Some(v) ==> (r matches Ok(res) && ({
                &&& crate::engine::status_matches_aggregate(res.verified_properties@, res.status)
                &&& forall|i: int|
                    0 <= i < res.verified_properties@.len() ==> (
                    #[trigger] res.verified_properties@[i]).wf()
                &&& res.proofs@.len() == (if v.config.generate_proofs {
                    crate::engine::proven_ids(res.verified_properties@).len()
                } else {
                    0nat
                })
                &&& forall|k: int|
                    0 <= k < res.proofs@.len() ==> (#[trigger] res.proofs@[k]).id@ == "proof_"@
                        + crate::engine::proven_ids(res.verified_properties@)[k]
                &&& res.counterexamples@.len() == (if v.config.generate_models {
                    crate::engine::disproven_ids(res.verified_properties@).len()
                } else {
                    0nat
                })
                &&& forall|k: int|
                    0 <= k < res.counterexamples@.len() ==> (
                    #[trigger] res.counterexamples@[k]).id@ == "counterexample_"@
                        + crate::engine::disproven_ids(res.verified_properties@)[k]
                &&& res.unsat_cores@.len() == 0
                &&& res.diagnostics@.len() == 0
                &&& tri_vector_result is None ==> res.verified_properties@.len() == 0
                    && res.status == VerificationStatus::Incomplete && res.proofs@.len() == 0
                    && res.counterexamples@.len() == 0
                &&& match tri_vector_result {
                    Some(t) => {
                        let n = t.orthogonality_results@.len() as int;
                        &&& t.signal is None ==> res.verified_properties@.len() == 0 && res.status
                            == VerificationStatus::Incomplete
                        &&& t.signal is Some ==> {
                            &&& res.verified_properties@.len() == n + 2
                            &&& res.verified_properties@[n].id@ == "safety_isolation"@
                            &&& res.verified_properties@[n].category
                                == crate::types::PropertyCategory::TriVectorOrthogonality
                            &&& res.verified_properties@[n].result == (
                            if t.safety_isolation.isolated {
                                PropertyResult::Proven
                            } else {
                                PropertyResult::Disproven
                            })
                            &&& t.safety_isolation.isolated ==> (
                            res.verified_properties@[n].proof_certificate matches Some(c)
                                && c@.len() > 0)
                        }
                    },
                    None => true,
                }
            })),
    {
        match &mut self.inner {
            Some(verifier) => verifier.verify_document(document, tri_vector_result),
            None => Ok(EnhancedVerificationResult::disabled()),
        }
    }
}

impl Default for Z3VerificationFacade {
    /// The default facade holds a working engine.
    fn default() -> (r: Z3VerificationFacade)
        ensures
            r.inner is Some,
    {
        match Z3VerificationFacade::new() {
            Ok(f) => f,
            Err(_) => Z3VerificationFacade::new_disabled(),
        }
    }
}

} // verus!
