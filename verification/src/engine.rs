//! SMT verification engine.
//!
//! The property verifier turns tri-vector obligations into formulas, has the
//! solver backend decide them, attaches certificates, and keeps cumulative
//! statistics. The document verifier drives a whole run: environment setup,
//! property batches, artifact collection, and the aggregation of
//! per-property outcomes into one document-level status.
//!
//! Aggregation is strict: any disproven or errored property fails the whole
//! document; a disproven safety obligation is never reported as partial
//! success.

use vstd::prelude::*;

use crate::ast::AispDocument;
use crate::backend::{is_decided_result, solve_and_decide};
use crate::encoder;
use crate::error::AispResult;
use crate::tri_vector::{SafetyIsolationResult, TriVectorSignal, TriVectorValidationResult};
use crate::types::{
    AdvancedVerificationConfig, CounterexampleModel, EnhancedVerificationResult,
    EnhancedVerificationStats, FormalProof, PropertyCategory, PropertyResult, VerificationStatus,
    VerifiedProperty,
};

verus! {

/// The given characters with every space turned into an underscore.
pub open spec fn underscored(s: Seq<char>) -> Seq<char> {
    s.map_values(|c: char| if c == ' ' { '_' } else { c })
}

/// Relies on `str::replace` with a one-character pattern and a one-character
/// replacement: every space becomes an underscore, all else is unchanged.
#[verifier::external_body]
fn underscore_spaces(s: &str) -> (r: String)
    ensures
        r@ == underscored(s@),
{
    s.replace(' ', "_")
}

/// Whether some property in the sequence carries an error result.
pub open spec fn any_error(props: Seq<VerifiedProperty>) -> bool {
    exists|i: int| 0 <= i < props.len() && props[i].result is Error
}

/// Whether some property in the sequence was disproven.
pub open spec fn any_disproven(props: Seq<VerifiedProperty>) -> bool {
    exists|i: int| 0 <= i < props.len() && props[i].result is Disproven
}

/// Whether every property in the sequence was proven.
pub open spec fn all_proven(props: Seq<VerifiedProperty>) -> bool {
    forall|i: int| 0 <= i < props.len() ==> props[i].result is Proven
}

/// The strict aggregation rule: no properties is incomplete; any error or
/// any disproven property fails the document; all proven is fully verified;
/// a mix of proven and unknown is partially verified.
pub open spec fn status_matches_aggregate(
    props: Seq<VerifiedProperty>,
    status: VerificationStatus,
) -> bool {
    if props.len() == 0 {
        status == VerificationStatus::Incomplete
    } else if any_error(props) {
        status matches VerificationStatus::Failed(m) && m@ == "Verification error encountered"@
    } else if any_disproven(props) {
        status matches VerificationStatus::Failed(m) && m@ == "Property disproven"@
    } else if all_proven(props) {
        status == VerificationStatus::AllVerified
    } else {
        status == VerificationStatus::PartiallyVerified
    }
}

/// The identifiers of the proven properties of the sequence, in order.
pub open spec fn proven_ids(props: Seq<VerifiedProperty>) -> Seq<Seq<char>>
    decreases props.len(),
{
    if props.len() == 0 {
        Seq::empty()
    } else {
        proven_ids(props.drop_last()) + (if props.last().result is Proven {
            seq![props.last().id@]
        } else {
            Seq::<Seq<char>>::empty()
        })
    }
}

/// The identifiers of the disproven properties of the sequence, in order.
pub open spec fn disproven_ids(props: Seq<VerifiedProperty>) -> Seq<Seq<char>>
    decreases props.len(),
{
    if props.len() == 0 {
        Seq::empty()
    } else {
        disproven_ids(props.drop_last()) + (if props.last().result is Disproven {
            seq![props.last().id@]
        } else {
            Seq::<Seq<char>>::empty()
        })
    }
}

/// Counter addition that sticks at the top of the counter's range instead
/// of wrapping: the counters never panic and never lie low.
pub open spec fn sat_add(a: int, b: int) -> int {
    if a + b <= usize::MAX {
        a + b
    } else {
        usize::MAX as int
    }
}

/// Consistent statistics: proofs and counterexamples each came from a query.
pub open spec fn stats_wf(stats: EnhancedVerificationStats) -> bool {
    stats.successful_proofs <= stats.smt_queries && stats.counterexamples <= stats.smt_queries
}

/// Property verifier: encodes obligations, has the backend decide them, and
/// keeps cumulative statistics.
pub struct PropertyVerifier {
    /// Cumulative statistics of this verifier.
    pub stats: EnhancedVerificationStats,
    /// Verification configuration.
    pub config: AdvancedVerificationConfig,
}

impl PropertyVerifier {
    /// Creates a property verifier with fresh statistics.
    pub fn new(config: AdvancedVerificationConfig) -> (r: PropertyVerifier)
        ensures
            r.stats.is_zeroed(),
            r.config == config,
            stats_wf(r.stats),
    {
        PropertyVerifier { stats: EnhancedVerificationStats::default(), config }
    }

    /// Current statistics of this verifier.
    pub fn get_stats(&self) -> (r: &EnhancedVerificationStats)
        ensures
            r == &self.stats,
    {
        &self.stats
    }

    /// Resets the statistics; the configuration is kept.
    pub fn reset_stats(&mut self)
        ensures
            final (self).stats.is_zeroed(),
            final (self).config == old(self).config,
    {
        self.stats = EnhancedVerificationStats::default();
    }

    /// The configured per-query timeout, clamped to what the solver accepts.
    fn clamped_timeout(&self) -> (r: u32)
        ensures
            self.config.query_timeout_ms <= u32::MAX ==> r == self.config.query_timeout_ms,
    {
        if self.config.query_timeout_ms > u32::MAX as u64 {
            u32::MAX
        } else {
            self.config.query_timeout_ms as u32
        }
    }

    /// Has the solver backend decide one formula. The result is always one
    /// of `Proven`, `Disproven` and `Unknown`; statistics are left to the
    /// per-obligation callers.
    pub fn verify_smt_formula(&mut self, formula: &str, property_id: &str) -> (r: AispResult<
        PropertyResult,
    >)
        ensures
            r matches Ok(p) && is_decided_result(p),
            *final (self) == *old(self),
    {
        let timeout = self.clamped_timeout();
        Ok(solve_and_decide(timeout))
    }

    /// Builds the orthogonality formula for two named spaces; construction
    /// is pure and never fails.
    pub fn create_orthogonality_formula(&self, space1: &str, space2: &str) -> (r: AispResult<
        String,
    >)
        ensures
            r matches Ok(f) && f@ == encoder::orthogonality_formula_view(space1@, space2@),
    {
        Ok(encoder::orthogonality_formula(space1, space2))
    }

    /// Builds the certificate for a decided orthogonality obligation:
    /// present and non-empty exactly when the property was proven.
    pub fn generate_orthogonality_certificate(
        &self,
        constraint: &str,
        result: &PropertyResult,
    ) -> (r: Option<String>)
        ensures
            result is Proven ==> (r matches Some(c) && c@ == "Orthogonality constraint '"@
                + constraint@ + "' proven by AISP tri-vector specification"@ && c@.len() > 0),
            !(result is Proven) ==> r is None,
    {
        match result {
            PropertyResult::Proven => {
                let mut c = String::from_str("Orthogonality constraint '");
                c.append(constraint);
                c.append("' proven by AISP tri-vector specification");
                proof {
                    reveal_strlit("Orthogonality constraint '");
                }
                Some(c)
            },
            _ => None,
        }
    }

    /// Builds the safety-isolation certificate: present and non-empty
    /// exactly when the property was proven.
    pub fn generate_safety_certificate(&self, result: &PropertyResult) -> (r: Option<String>)
        ensures
            result is Proven ==> (r matches Some(c) && c@
                == "Safety isolation verified by orthogonality constraints"@ && c@.len() > 0),
            !(result is Proven) ==> r is None,
    {
        match result {
            PropertyResult::Proven => {
                proof {
                    reveal_strlit("Safety isolation verified by orthogonality constraints");
                }
                Some(String::from_str("Safety isolation verified by orthogonality constraints"))
            },
            _ => None,
        }
    }

    /// Builds the signal-decomposition certificate: present and non-empty
    /// exactly when the property was proven.
    pub fn generate_decomposition_certificate(&self, result: &PropertyResult) -> (r: Option<
        String,
    >)
        ensures
            result is Proven ==> (r matches Some(c) && c@
                == "Signal decomposition uniqueness proven by direct sum properties"@ && c@.len()
                > 0),
            !(result is Proven) ==> r is None,
    {
        match result {
            PropertyResult::Proven => {
                proof {
                    reveal_strlit("Signal decomposition uniqueness proven by direct sum properties");
                }
                Some(
                    String::from_str(
                        "Signal decomposition uniqueness proven by direct sum properties",
                    ),
                )
            },
            _ => None,
        }
    }

    /// Records one decided query in the statistics: the query counter always
    /// moves, the proof counter on a proven result, the counterexample
    /// counter on a disproven one.
    fn record_query(&mut self, result: &PropertyResult)
        requires
            stats_wf(old(self).stats),
        ensures
            final (self).stats.smt_queries == sat_add(old(self).stats.smt_queries as int, 1),
            final (self).stats.successful_proofs == (if result is Proven {
                sat_add(old(self).stats.successful_proofs as int, 1)
            } else {
                old(self).stats.successful_proofs as int
            }),
            final (self).stats.counterexamples == (if result is Disproven {
                sat_add(old(self).stats.counterexamples as int, 1)
            } else {
                old(self).stats.counterexamples as int
            }),
            final (self).stats.timeouts == old(self).stats.timeouts,
            final (self).stats.total_time_ms == old(self).stats.total_time_ms,
            final (self).stats.peak_memory == old(self).stats.peak_memory,
            final (self).config == old(self).config,
            stats_wf(final (self).stats),
    {
        if self.stats.smt_queries < usize::MAX {
            self.stats.smt_queries = self.stats.smt_queries + 1;
        }
        match result {
            PropertyResult::Proven => {
                if self.stats.successful_proofs < usize::MAX {
                    self.stats.successful_proofs = self.stats.successful_proofs + 1;
                }
            },
            PropertyResult::Disproven => {
                if self.stats.counterexamples < usize::MAX {
                    self.stats.counterexamples = self.stats.counterexamples + 1;
                }
            },
            _ => {},
        }
    }

    /// Verifies one orthogonality obligation: encodes the two spaces, has
    /// the solver decide the formula, attaches the certificate, and records
    /// the query.
    fn verify_orthogonality_constraint(
        &mut self,
        constraint: &str,
        space1: &str,
        space2: &str,
    ) -> (r: AispResult<VerifiedProperty>)
        requires
            stats_wf(old(self).stats),
        ensures
            r matches Ok(p) && ({
                &&& p.id@ == "orthogonality_"@ + underscored(constraint@)
                &&& p.category == PropertyCategory::TriVectorOrthogonality
                &&& p.smt_formula@ == encoder::orthogonality_formula_view(space1@, space2@)
                &&& is_decided_result(p.result)
                &&& (p.result is Proven <==> p.proof_certificate is Some)
                &&& (p.proof_certificate matches Some(cert) ==> cert@.len() > 0)
                &&& p.wf()
                &&& final (self).stats.successful_proofs == (if p.result is Proven {
                    sat_add(old(self).stats.successful_proofs as int, 1)
                } else {
                    old(self).stats.successful_proofs as int
                })
                &&& final (self).stats.counterexamples == (if p.result is Disproven {
                    sat_add(old(self).stats.counterexamples as int, 1)
                } else {
                    old(self).stats.counterexamples as int
                })
            }),
            final (self).stats.smt_queries == sat_add(old(self).stats.smt_queries as int, 1),
            final (self).stats.timeouts == old(self).stats.timeouts,
            final (self).stats.total_time_ms == old(self).stats.total_time_ms,
            final (self).stats.peak_memory == old(self).stats.peak_memory,
            stats_wf(final (self).stats),
            final (self).config == old(self).config,
    {
        let smt_formula = encoder::orthogonality_formula(space1, space2);
        let result = match self.verify_smt_formula(smt_formula.as_str(), constraint) {
            Ok(result) => result,
            Err(e) => {
                return Err(e);
            },
        };
        self.record_query(&result);
        let mut id = String::from_str("orthogonality_");
        let mangled = underscore_spaces(constraint);
        id.append(mangled.as_str());
        let proof_certificate = self.generate_orthogonality_certificate(constraint, &result);
        let mut description = String::from_str("Orthogonality constraint: ");
        description.append(constraint);
        Ok(
            VerifiedProperty {
                id,
                category: PropertyCategory::TriVectorOrthogonality,
                description,
                smt_formula,
                result,
                verification_time_ms: 0,
                proof_certificate,
            },
        )
    }

    /// Verifies the safety-isolation obligation. An isolated input is always
    /// proven and carries a non-empty certificate; a non-isolated input is
    /// always disproven.
    pub fn verify_safety_isolation(&mut self, safety_result: &SafetyIsolationResult) -> (r:
        AispResult<VerifiedProperty>)
        requires
            stats_wf(old(self).stats),
        ensures
            r matches Ok(p) && ({
                &&& p.id@ == "safety_isolation"@
                &&& p.category == PropertyCategory::TriVectorOrthogonality
                &&& p.smt_formula@ == encoder::safety_isolation_formula_view()
                &&& p.result == (if safety_result.isolated {
                    PropertyResult::Proven
                } else {
                    PropertyResult::Disproven
                })
                &&& safety_result.isolated ==> (p.proof_certificate matches Some(c) && c@.len()
                    > 0)
                &&& !safety_result.isolated ==> p.proof_certificate is None
                &&& p.wf()
            }),
            final (self).stats.smt_queries == sat_add(old(self).stats.smt_queries as int, 1),
            final (self).stats.successful_proofs == (if safety_result.isolated {
                sat_add(old(self).stats.successful_proofs as int, 1)
            } else {
                old(self).stats.successful_proofs as int
            }),
            final (self).stats.counterexamples == (if safety_result.isolated {
                old(self).stats.counterexamples as int
            } else {
                sat_add(old(self).stats.counterexamples as int, 1)
            }),
            final (self).stats.timeouts == old(self).stats.timeouts,
            final (self).stats.total_time_ms == old(self).stats.total_time_ms,
            final (self).stats.peak_memory == old(self).stats.peak_memory,
            stats_wf(final (self).stats),
            final (self).config == old(self).config,
    {
        let smt_formula = encoder::safety_isolation_formula();
        let result = if safety_result.isolated {
            PropertyResult::Proven
        } else {
            PropertyResult::Disproven
        };
        self.record_query(&result);
        let proof_certificate = self.generate_safety_certificate(&result);
        Ok(
            VerifiedProperty {
                id: String::from_str("safety_isolation"),
                category: PropertyCategory::TriVectorOrthogonality,
                description: String::from_str(
                    "Safety constraints are isolated from optimization",
                ),
                smt_formula,
                result,
                verification_time_ms: 0,
                proof_certificate,
            },
        )
    }

    /// Verifies the signal-decomposition obligation through the solver.
    fn verify_signal_decomposition(&mut self, signal: &TriVectorSignal) -> (r: AispResult<
        VerifiedProperty,
    >)
        requires
            stats_wf(old(self).stats),
        ensures
            r matches Ok(p) && ({
                &&& p.id@ == "signal_decomposition"@
                &&& p.category == PropertyCategory::TriVectorOrthogonality
                &&& p.smt_formula@ == encoder::decomposition_formula_view()
                &&& is_decided_result(p.result)
                &&& (p.result is Proven <==> p.proof_certificate is Some)
                &&& (p.proof_certificate matches Some(cert) ==> cert@.len() > 0)
                &&& p.wf()
                &&& final (self).stats.successful_proofs == (if p.result is Proven {
                    sat_add(old(self).stats.successful_proofs as int, 1)
                } else {
                    old(self).stats.successful_proofs as int
                })
                &&& final (self).stats.counterexamples == (if p.result is Disproven {
                    sat_add(old(self).stats.counterexamples as int, 1)
                } else {
                    old(self).stats.counterexamples as int
                })
            }),
            final (self).stats.smt_queries == sat_add(old(self).stats.smt_queries as int, 1),
            final (self).stats.timeouts == old(self).stats.timeouts,
            final (self).stats.total_time_ms == old(self).stats.total_time_ms,
            final (self).stats.peak_memory == old(self).stats.peak_memory,
            stats_wf(final (self).stats),
            final (self).config == old(self).config,
    {
        let smt_formula = encoder::decomposition_formula();
        let result = match self.verify_smt_formula(smt_formula.as_str(), "signal_decomposition") {
            Ok(result) => result,
            Err(e) => {
                return Err(e);
            },
        };
        self.record_query(&result);
        let proof_certificate = self.generate_decomposition_certificate(&result);
        Ok(
            VerifiedProperty {
                id: String::from_str("signal_decomposition"),
                category: PropertyCategory::TriVectorOrthogonality,
                description: String::from_str("Signal decomposition is unique and lossless"),
                smt_formula,
                result,
                verification_time_ms: 0,
                proof_certificate,
            },
        )
    }

    /// Verifies every tri-vector obligation of one analysis result: each
    /// orthogonality constraint, then safety isolation, then signal
    /// decomposition. The query counter grows by one per obligation, the
    /// proof and counterexample counters by the proven and disproven
    /// outcomes. Without a recovered signal there is nothing to verify and
    /// nothing changes.
    pub fn verify_tri_vector_properties(&mut self, tri_result: &TriVectorValidationResult) -> (r:
        AispResult<Vec<VerifiedProperty>>)
        requires
            stats_wf(old(self).stats),
        ensures
            r matches Ok(props) && ({
                let n = tri_result.orthogonality_results@.len() as int;
                &&& tri_result.signal is None ==> props@.len() == 0
                &&& tri_result.signal is Some ==> {
                    &&& props@.len() == n + 2
                    &&& forall|i: int|
                        0 <= i < n ==> {
                            let (constraint, orth) = #[trigger] tri_result.orthogonality_results@[i];
                            &&& props@[i].id@ == "orthogonality_"@ + underscored(constraint@)
                            &&& props@[i].category == PropertyCategory::TriVectorOrthogonality
                            &&& props@[i].smt_formula@ == encoder::orthogonality_formula_view(
                                orth.space1@,
                                orth.space2@,
                            )
                            &&& is_decided_result(props@[i].result)
                            &&& (props@[i].result is Proven <==> props@[i].proof_certificate
                                is Some)
                            &&& (props@[i].proof_certificate matches Some(cert) ==> cert@.len()
                                > 0)
                            &&& props@[i].wf()
                        }
                    &&& props@[n].id@ == "safety_isolation"@
                    &&& props@[n].category == PropertyCategory::TriVectorOrthogonality
                    &&& props@[n].smt_formula@ == encoder::safety_isolation_formula_view()
                    &&& props@[n].result == (if tri_result.safety_isolation.isolated {
                        PropertyResult::Proven
                    } else {
                        PropertyResult::Disproven
                    })
                    &&& tri_result.safety_isolation.isolated ==> (
                    props@[n].proof_certificate matches Some(c) && c@.len() > 0)
                    &&& !tri_result.safety_isolation.isolated ==> props@[n].proof_certificate
                        is None
                    &&& props@[n + 1].id@ == "signal_decomposition"@
                    &&& props@[n + 1].category == PropertyCategory::TriVectorOrthogonality
                    &&& props@[n + 1].smt_formula@ == encoder::decomposition_formula_view()
                    &&& is_decided_result(props@[n + 1].result)
                    &&& (props@[n + 1].result is Proven <==> props@[n + 1].proof_certificate
                        is Some)
                    &&& (props@[n + 1].proof_certificate matches Some(cert) ==> cert@.len() > 0)
                    &&& forall|i: int| 0 <= i < props@.len() ==> #[trigger] props@[i].wf()
                    &&& final (self).stats.smt_queries == sat_add(
                        old(self).stats.smt_queries as int,
                        n + 2,
                    )
                    &&& final (self).stats.successful_proofs == sat_add(
                        old(self).stats.successful_proofs as int,
                        proven_ids(props@).len() as int,
                    )
                    &&& final (self).stats.counterexamples == sat_add(
                        old(self).stats.counterexamples as int,
                        disproven_ids(props@).len() as int,
                    )
                }
            }),
            tri_result.signal is None ==> *final (self) == *old(self),
            final (self).stats.timeouts == old(self).stats.timeouts,
            final (self).stats.total_time_ms == old(self).stats.total_time_ms,
            final (self).stats.peak_memory == old(self).stats.peak_memory,
            stats_wf(final (self).stats),
            final (self).config == old(self).config,
    {
        let mut properties: Vec<VerifiedProperty> = Vec::new();
        let signal = match &tri_result.signal {
            Some(signal) => signal,
            None => {
                return Ok(properties);
            },
        };
        let n = tri_result.orthogonality_results.len();
        let mut i: usize = 0;
        while i < n
            invariant
                0 <= i <= n,
                n == tri_result.orthogonality_results@.len(),
                properties@.len() == i,
                self.stats.smt_queries == sat_add(old(self).stats.smt_queries as int, i as int),
                self.stats.successful_proofs == sat_add(
                    old(self).stats.successful_proofs as int,
                    proven_ids(properties@).len() as int,
                ),
                self.stats.counterexamples == sat_add(
                    old(self).stats.counterexamples as int,
                    disproven_ids(properties@).len() as int,
                ),
                self.stats.timeouts == old(self).stats.timeouts,
                self.stats.total_time_ms == old(self).stats.total_time_ms,
                self.stats.peak_memory == old(self).stats.peak_memory,
                stats_wf(self.stats),
                self.config == old(self).config,
                forall|k: int|
                    0 <= k < i as int ==> {
                        let (constraint, orth) = #[trigger] tri_result.orthogonality_results@[k];
                        &&& properties@[k].id@ == "orthogonality_"@ + underscored(constraint@)
                        &&& properties@[k].category == PropertyCategory::TriVectorOrthogonality
                        &&& properties@[k].smt_formula@ == encoder::orthogonality_formula_view(
                            orth.space1@,
                            orth.space2@,
                        )
                        &&& is_decided_result(properties@[k].result)
                        &&& (properties@[k].result is Proven <==> properties@[k].proof_certificate
                            is Some)
                        &&& (properties@[k].proof_certificate matches Some(cert) ==> cert@.len()
                            > 0)
                        &&& properties@[k].wf()
                    },
            decreases n - i,
        {
            let pair = &tri_result.orthogonality_results[i];
            let property = match self.verify_orthogonality_constraint(
                pair.0.as_str(),
                pair.1.space1.as_str(),
                pair.1.space2.as_str(),
            ) {
                Ok(property) => property,
                Err(e) => {
                    return Err(e);
                },
            };
            let ghost before = properties@;
            properties.push(property);
            proof {
                assert(properties@.drop_last() =~= before);
            }
            i = i + 1;
        }
        let safety_property = match self.verify_safety_isolation(&tri_result.safety_isolation) {
            Ok(p) => p,
            Err(e) => {
                return Err(e);
            },
        };
        let ghost before_safety = properties@;
        properties.push(safety_property);
        proof {
            assert(properties@.drop_last() =~= before_safety);
            assert(properties@.last() == safety_property);
            assert(proven_ids(properties@) == proven_ids(before_safety) + (
            if safety_property.result is Proven {
                seq![safety_property.id@]
            } else {
                Seq::<Seq<char>>::empty()
            }));
            assert(disproven_ids(properties@) == disproven_ids(before_safety) + (
            if safety_property.result is Disproven {
                seq![safety_property.id@]
            } else {
                Seq::<Seq<char>>::empty()
            }));
        }
        let decomposition_property = match self.verify_signal_decomposition(signal) {
            Ok(p) => p,
            Err(e) => {
                return Err(e);
            },
        };
        let ghost before_decomposition = properties@;
        properties.push(decomposition_property);
        proof {
            assert(properties@.drop_last() =~= before_decomposition);
            assert(properties@.last() == decomposition_property);
            assert(proven_ids(properties@) == proven_ids(before_decomposition) + (
            if decomposition_property.result is Proven {
                seq![decomposition_property.id@]
            } else {
                Seq::<Seq<char>>::empty()
            }));
            assert(disproven_ids(properties@) == disproven_ids(before_decomposition) + (
            if decomposition_property.result is Disproven {
                seq![decomposition_property.id@]
            } else {
                Seq::<Seq<char>>::empty()
            }));
            let propsv = properties@;
            assert forall|k: int| 0 <= k < propsv.len() implies #[trigger] propsv[k].wf() by {
                if k < n as int {
                    let (constraint, orth) = tri_result.orthogonality_results@[k];
                    assert(propsv[k].wf());
                }
            }
        }
        Ok(properties)
    }

    /// Temporal obligations: the current feature set encodes none, so the
    /// aggregator's no-properties path is exercised by an empty batch.
    pub fn verify_temporal_properties(&mut self, document: &AispDocument) -> (r: AispResult<
        Vec<VerifiedProperty>,
    >)
        ensures
            r matches Ok(props) && props@.len() == 0,
            *final (self) == *old(self),
    {
        Ok(Vec::new())
    }

    /// Type-safety obligations: the current feature set encodes none.
    pub fn verify_type_safety_properties(&mut self, document: &AispDocument) -> (r: AispResult<
        Vec<VerifiedProperty>,
    >)
        ensures
            r matches Ok(props) && props@.len() == 0,
            *final (self) == *old(self),
    {
        Ok(Vec::new())
    }

    /// Functional-correctness obligations: the current feature set encodes
    /// none.
    pub fn verify_correctness_properties(&mut self, document: &AispDocument) -> (r: AispResult<
        Vec<VerifiedProperty>,
    >)
        ensures
            r matches Ok(props) && props@.len() == 0,
            *final (self) == *old(self),
    {
        Ok(Vec::new())
    }
}

/// Registry extension: the new sorts are the old ones followed by one
/// declaration per spec entry.
pub open spec fn sorts_extend(
    olds: Seq<crate::environment::SortDecl>,
    news: Seq<crate::environment::SortDecl>,
    specs: Seq<(Seq<char>, crate::environment::SortKind)>,
) -> bool {
    &&& news.len() == olds.len() + specs.len()
    &&& forall|k: int| 0 <= k < olds.len() ==> news[k] == olds[k]
    &&& forall|k: int|
        0 <= k < specs.len() ==> crate::environment::matches_sort_decl(
            #[trigger] news[olds.len() + k],
            specs[k].0,
            specs[k].1,
        )
}

/// Registry extension: the new functions are the old ones followed by one
/// placeholder declaration per name.
pub open spec fn functions_extend(
    olds: Seq<crate::environment::FunctionDecl>,
    news: Seq<crate::environment::FunctionDecl>,
    names: Seq<Seq<char>>,
) -> bool {
    &&& news.len() == olds.len() + names.len()
    &&& forall|k: int| 0 <= k < olds.len() ==> news[k] == olds[k]
    &&& forall|k: int|
        0 <= k < names.len() ==> crate::environment::matches_function_decl(
            #[trigger] news[olds.len() + k],
            names[k],
        )
}

/// Document verifier: owns one environment, one property verifier and one
/// set of run statistics, and drives a whole verification run.
pub struct EnhancedZ3Verifier {
    /// Sort and function registries of this run.
    pub environment: crate::environment::AispZ3Environment,
    /// Property verifier.
    pub property_verifier: PropertyVerifier,
    /// Verification configuration.
    pub config: AdvancedVerificationConfig,
    /// Run statistics of this verifier.
    pub stats: EnhancedVerificationStats,
}

impl EnhancedZ3Verifier {
    /// Creates a document verifier under the default configuration.
    pub fn new() -> (r: AispResult<EnhancedZ3Verifier>)
        ensures
            r matches Ok(v) && ({
                &&& v.environment.has_basic_sorts()
                &&& v.environment.functions@.len() == 0
                &&& v.property_verifier.stats.is_zeroed()
                &&& v.stats.is_zeroed()
                &&& stats_wf(v.property_verifier.stats)
            }),
    {
        Self::with_config(AdvancedVerificationConfig::default())
    }

    /// Creates a document verifier under the given configuration.
    pub fn with_config(config: AdvancedVerificationConfig) -> (r: AispResult<EnhancedZ3Verifier>)
        ensures
            r matches Ok(v) && ({
                &&& v.environment.has_basic_sorts()
                &&& v.environment.functions@.len() == 0
                &&& v.property_verifier.stats.is_zeroed()
                &&& v.config == config
                &&& v.stats.is_zeroed()
                &&& stats_wf(v.property_verifier.stats)
            }),
    {
        let environment = crate::environment::AispZ3Environment::new();
        let property_verifier = PropertyVerifier::new(config.clone());
        Ok(
            EnhancedZ3Verifier {
                environment,
                property_verifier,
                config,
                stats: EnhancedVerificationStats::default(),
            },
        )
    }

    /// The configuration of this verifier.
    pub fn get_config(&self) -> (r: &AdvancedVerificationConfig)
        ensures
            r == &self.config,
    {
        &self.config
    }

    /// The run statistics of this verifier.
    pub fn get_stats(&self) -> (r: &EnhancedVerificationStats)
        ensures
            r == &self.stats,
    {
        &self.stats
    }

    /// The environment of this verifier.
    pub fn get_environment(&self) -> (r: &crate::environment::AispZ3Environment)
        ensures
            r == &self.environment,
    {
        &self.environment
    }

    /// Has the solver backend decide one formula directly.
    pub fn verify_smt_formula(&mut self, formula: &str) -> (r: AispResult<PropertyResult>)
        ensures
            r matches Ok(p) && is_decided_result(p),
            *final (self) == *old(self),
    {
        self.property_verifier.verify_smt_formula(formula, "direct_formula")
    }

    /// Declares the sorts and uninterpreted functions of every type and
    /// function declaration of the document: first the sorts of each types
    /// block, then the functions of each functions block, in block order.
    /// The input document is never mutated.
    pub fn setup_aisp_environment(&mut self, document: &AispDocument) -> (r: AispResult<()>)
        ensures
            r is Ok,
            sorts_extend(
                old(self).environment.sorts@,
                final (self).environment.sorts@,
                crate::environment::type_sort_specs(document.blocks@),
            ),
            functions_extend(
                old(self).environment.functions@,
                final (self).environment.functions@,
                crate::environment::function_name_specs(document.blocks@),
            ),
            final (self).property_verifier == old(self).property_verifier,
            final (self).config == old(self).config,
            final (self).stats == old(self).stats,
    {
        let ghost old_sorts = self.environment.sorts@;
        let ghost old_functions = self.environment.functions@;
        let nblocks = document.blocks.len();
        let mut bi: usize = 0;
        while bi < nblocks
            invariant
                0 <= bi <= nblocks,
                nblocks == document.blocks@.len(),
                self.environment.functions@ == old_functions,
                sorts_extend(
                    old_sorts,
                    self.environment.sorts@,
                    crate::environment::type_sort_specs(document.blocks@.take(bi as int)),
                ),
                self.property_verifier == old(self).property_verifier,
                self.config == old(self).config,
                self.stats == old(self).stats,
            decreases nblocks - bi,
        {
            let ghost specs_before = crate::environment::type_sort_specs(
                document.blocks@.take(bi as int),
            );
            match &document.blocks[bi] {
                crate::ast::CanonicalAispBlock::Types(types_block) => {
                    let ndefs = types_block.definitions.len();
                    let mut di: usize = 0;
                    while di < ndefs
                        invariant
                            0 <= di <= ndefs,
                            ndefs == types_block.definitions@.len(),
                            self.environment.functions@ == old_functions,
                            sorts_extend(
                                old_sorts,
                                self.environment.sorts@,
                                specs_before + crate::environment::def_sort_specs(
                                    types_block.definitions@.take(di as int),
                                ),
                            ),
                            self.property_verifier == old(self).property_verifier,
                            self.config == old(self).config,
                            self.stats == old(self).stats,
                        decreases ndefs - di,
                    {
                        let d = &types_block.definitions[di];
                        match self.environment.declare_type_sort(&d.name, &d.type_expr) {
                            Ok(()) => {},
                            Err(e) => {
                                return Err(e);
                            },
                        }
                        proof {
                            let defs = types_block.definitions@;
                            let x = crate::environment::sort_spec_of(defs[di as int]);
                            assert(crate::environment::def_sort_specs(defs.take(di as int + 1))
                                =~= crate::environment::def_sort_specs(defs.take(di as int)).push(
                                x,
                            ));
                            let sp = specs_before + crate::environment::def_sort_specs(
                                defs.take(di as int),
                            );
                            let sp1 = specs_before + crate::environment::def_sort_specs(
                                defs.take(di as int + 1),
                            );
                            assert(sp1 =~= sp.push(x));
                            let cur = self.environment.sorts@;
                            let prev = cur.drop_last();
                            assert forall|k: int| 0 <= k < old_sorts.len() implies #[trigger] cur[k]
                                == old_sorts[k] by {
                                assert(cur[k] == prev[k]);
                            }
                            assert forall|k: int|
                                0 <= k < sp1.len() implies crate::environment::matches_sort_decl(
                                #[trigger] cur[old_sorts.len() + k],
                                sp1[k].0,
                                sp1[k].1,
                            ) by {
                                if k < sp.len() {
                                    assert(cur[old_sorts.len() + k] == prev[old_sorts.len() + k]);
                                    assert(crate::environment::matches_sort_decl(
                                        prev[old_sorts.len() + k],
                                        sp[k].0,
                                        sp[k].1,
                                    ));
                                } else {
                                    assert(old_sorts.len() + k == cur.len() - 1);
                                    assert(cur[old_sorts.len() + k] == cur.last());
                                }
                            }
                        }
                        di = di + 1;
                    }
                    proof {
                        assert(types_block.definitions@.take(ndefs as int)
                            =~= types_block.definitions@);
                        assert(crate::environment::block_sort_specs(document.blocks@[bi as int])
                            == crate::environment::def_sort_specs(types_block.definitions@));
                    }
                },
                _ => {
                    proof {
                        assert(crate::environment::block_sort_specs(document.blocks@[bi as int])
                            =~= Seq::<(Seq<char>, crate::environment::SortKind)>::empty());
                    }
                },
            }
            proof {
                assert(document.blocks@.take(bi as int + 1).drop_last() =~= document.blocks@.take(
                    bi as int,
                ));
                assert(document.blocks@.take(bi as int + 1).last() == document.blocks@[bi as int]);
                assert(crate::environment::type_sort_specs(document.blocks@.take(bi as int + 1))
                    == specs_before + crate::environment::block_sort_specs(
                    document.blocks@[bi as int],
                ));
            }
            bi = bi + 1;
        }
        proof {
            assert(document.blocks@.take(nblocks as int) =~= document.blocks@);
        }
        let mut fi: usize = 0;
        let ghost sorts_after = self.environment.sorts@;
        while fi < nblocks
            invariant
                0 <= fi <= nblocks,
                nblocks == document.blocks@.len(),
                self.environment.sorts@ == sorts_after,
                functions_extend(
                    old_functions,
                    self.environment.functions@,
                    crate::environment::function_name_specs(document.blocks@.take(fi as int)),
                ),
                self.property_verifier == old(self).property_verifier,
                self.config == old(self).config,
                self.stats == old(self).stats,
            decreases nblocks - fi,
        {
            let ghost names_before = crate::environment::function_name_specs(
                document.blocks@.take(fi as int),
            );
            match &document.blocks[fi] {
                crate::ast::CanonicalAispBlock::Functions(functions_block) => {
                    let nfns = functions_block.functions.len();
                    let mut gi: usize = 0;
                    while gi < nfns
                        invariant
                            0 <= gi <= nfns,
                            nfns == functions_block.functions@.len(),
                            self.environment.sorts@ == sorts_after,
                            functions_extend(
                                old_functions,
                                self.environment.functions@,
                                names_before + crate::environment::name_views(
                                    functions_block.functions@.take(gi as int),
                                ),
                            ),
                            self.property_verifier == old(self).property_verifier,
                            self.config == old(self).config,
                            self.stats == old(self).stats,
                        decreases nfns - gi,
                    {
                        let name = &functions_block.functions[gi];
                        match self.environment.declare_function(name) {
                            Ok(()) => {},
                            Err(e) => {
                                return Err(e);
                            },
                        }
                        proof {
                            let names = functions_block.functions@;
                            let x = names[gi as int]@;
                            assert(crate::environment::name_views(names.take(gi as int + 1))
                                =~= crate::environment::name_views(names.take(gi as int)).push(x));
                            let sp = names_before + crate::environment::name_views(
                                names.take(gi as int),
                            );
                            let sp1 = names_before + crate::environment::name_views(
                                names.take(gi as int + 1),
                            );
                            assert(sp1 =~= sp.push(x));
                            let cur = self.environment.functions@;
                            let prev = cur.drop_last();
                            assert forall|k: int|
                                0 <= k < old_functions.len() implies #[trigger] cur[k]
                                == old_functions[k] by {
                                assert(cur[k] == prev[k]);
                            }
                            assert forall|k: int|
                                0 <= k < sp1.len() implies crate::environment::matches_function_decl(
                                #[trigger] cur[old_functions.len() + k],
                                sp1[k],
                            ) by {
                                if k < sp.len() {
                                    assert(cur[old_functions.len() + k] == prev[old_functions.len()
                                        + k]);
                                    assert(crate::environment::matches_function_decl(
                                        prev[old_functions.len() + k],
                                        sp[k],
                                    ));
                                } else {
                                    assert(old_functions.len() + k == cur.len() - 1);
                                    assert(cur[old_functions.len() + k] == cur.last());
                                }
                            }
                        }
                        gi = gi + 1;
                    }
                    proof {
                        assert(functions_block.functions@.take(nfns as int)
                            =~= functions_block.functions@);
                        assert(crate::environment::block_function_names(
                            document.blocks@[fi as int],
                        ) == crate::environment::name_views(functions_block.functions@));
                    }
                },
                _ => {
                    proof {
                        assert(crate::environment::block_function_names(
                            document.blocks@[fi as int],
                        ) =~= Seq::<Seq<char>>::empty());
                    }
                },
            }
            proof {
                assert(document.blocks@.take(fi as int + 1).drop_last() =~= document.blocks@.take(
                    fi as int,
                ));
                assert(crate::environment::function_name_specs(document.blocks@.take(fi as int + 1))
                    == names_before + crate::environment::block_function_names(
                    document.blocks@[fi as int],
                ));
            }
            fi = fi + 1;
        }
        proof {
            assert(document.blocks@.take(nblocks as int) =~= document.blocks@);
        }
        Ok(())
    }
}

impl EnhancedZ3Verifier {
    /// Verifies one document end to end: sets up the solver environment from
    /// the document's declarations, verifies the tri-vector obligations when
    /// an analysis result is given, runs the (currently empty) temporal,
    /// type-safety and correctness batches, collects proof and counterexample
    /// artifacts, aggregates the document status under the strict rule, and
    /// updates the run statistics. A document without obligations yields no
    /// properties, an incomplete status, and empty artifact collections.
    pub fn verify_document(
        &mut self,
        document: &AispDocument,
        tri_vector_result: Option<&TriVectorValidationResult>,
    ) -> (r: AispResult<EnhancedVerificationResult>)
        requires
            stats_wf(old(self).property_verifier.stats),
        ensures
            r matches Ok(res) && ({
                &&& status_matches_aggregate(res.verified_properties@, res.status)
                &&& res.proofs@.len() == (if old(self).config.generate_proofs {
                    proven_ids(res.verified_properties@).len()
                } else {
                    0nat
                })
                &&& forall|k: int|
                    0 <= k < res.proofs@.len() ==> (#[trigger] res.proofs@[k]).id@ == "proof_"@
                        + proven_ids(res.verified_properties@)[k]
                &&& res.counterexamples@.len() == (if old(self).config.generate_models {
                    disproven_ids(res.verified_properties@).len()
                } else {
                    0nat
                })
                &&& forall|k: int|
                    0 <= k < res.counterexamples@.len() ==> (
                    #[trigger] res.counterexamples@[k]).id@ == "counterexample_"@ + disproven_ids(
                        res.verified_properties@,
                    )[k]
                &&& res.unsat_cores@.len() == 0
                &&& res.diagnostics@.len() == 0
                &&& forall|i: int|
                    0 <= i < res.verified_properties@.len() ==> (
                    #[trigger] res.verified_properties@[i]).wf()
                &&& tri_vector_result is None ==> res.verified_properties@.len() == 0 && res.status
                    == VerificationStatus::Incomplete && res.proofs@.len() == 0
                    && res.counterexamples@.len() == 0
                &&& match tri_vector_result {
                    Some(t) => {
                        let n = t.orthogonality_results@.len() as int;
                        &&& t.signal is None ==> res.verified_properties@.len() == 0 && res.status
                            == VerificationStatus::Incomplete
                        &&& t.signal is Some ==> {
                            &&& res.verified_properties@.len() == n + 2
                            &&& res.verified_properties@[n].id@ == "safety_isolation"@
                            &&& res.verified_properties@[n].category
                                == PropertyCategory::TriVectorOrthogonality
                            &&& res.verified_properties@[n].result == (
                            if t.safety_isolation.isolated {
                                PropertyResult::Proven
                            } else {
                                PropertyResult::Disproven
                            })
                            &&& t.safety_isolation.isolated ==> (
                            res.verified_properties@[n].proof_certificate matches Some(c)
                                && c@.len() > 0)
                        }
                    },
                    None => true,
                }
            }),
            sorts_extend(
                old(self).environment.sorts@,
                final (self).environment.sorts@,
                crate::environment::type_sort_specs(document.blocks@),
            ),
            functions_extend(
                old(self).environment.functions@,
                final (self).environment.functions@,
                crate::environment::function_name_specs(document.blocks@),
            ),
            stats_wf(final (self).property_verifier.stats),
            final (self).config == old(self).config,
    {
        match self.setup_aisp_environment(document) {
            Ok(()) => {},
            Err(e) => {
                return Err(e);
            },
        }
        let mut verified_properties: Vec<VerifiedProperty> = Vec::new();
        match tri_vector_result {
            Some(tri_result) => {
                match self.property_verifier.verify_tri_vector_properties(tri_result) {
                    Ok(props) => {
                        verified_properties = props;
                    },
                    Err(e) => {
                        return Err(e);
                    },
                }
            },
            None => {},
        }
        let mut temporal = match self.property_verifier.verify_temporal_properties(document) {
            Ok(props) => props,
            Err(e) => {
                return Err(e);
            },
        };
        verified_properties.append(&mut temporal);
        let mut type_safety = match self.property_verifier.verify_type_safety_properties(
            document,
        ) {
            Ok(props) => props,
            Err(e) => {
                return Err(e);
            },
        };
        verified_properties.append(&mut type_safety);
        let mut correctness = match self.property_verifier.verify_correctness_properties(
            document,
        ) {
            Ok(props) => props,
            Err(e) => {
                return Err(e);
            },
        };
        verified_properties.append(&mut correctness);
        proof {
            assert(verified_properties@ + Seq::<VerifiedProperty>::empty()
                =~= verified_properties@);
        }
        let mut proofs: Vec<FormalProof> = Vec::new();
        let mut counterexamples: Vec<CounterexampleModel> = Vec::new();
        let nprops = verified_properties.len();
        let mut i: usize = 0;
        while i < nprops
            invariant
                0 <= i <= nprops,
                nprops == verified_properties@.len(),
                self.config == old(self).config,
                proofs@.len() == (if old(self).config.generate_proofs {
                    proven_ids(verified_properties@.take(i as int)).len()
                } else {
                    0nat
                }),
                forall|k: int|
                    0 <= k < proofs@.len() ==> (#[trigger] proofs@[k]).id@ == "proof_"@
                        + proven_ids(verified_properties@.take(i as int))[k],
                counterexamples@.len() == (if old(self).config.generate_models {
                    disproven_ids(verified_properties@.take(i as int)).len()
                } else {
                    0nat
                }),
                forall|k: int|
                    0 <= k < counterexamples@.len() ==> (
                    #[trigger] counterexamples@[k]).id@ == "counterexample_"@ + disproven_ids(
                        verified_properties@.take(i as int),
                    )[k],
            decreases nprops - i,
        {
            let is_proven = matches!(&verified_properties[i].result, PropertyResult::Proven);
            let is_disproven = matches!(&verified_properties[i].result, PropertyResult::Disproven);
            if is_proven && self.config.generate_proofs {
                let p = &verified_properties[i];
                let formal = self.generate_formal_proof(p.id.as_str(), p.proof_certificate.as_ref());
                proofs.push(formal);
            }
            if is_disproven && self.config.generate_models {
                let p = &verified_properties[i];
                let model = self.generate_counterexample(p.id.as_str());
                counterexamples.push(model);
            }
            proof {
                let pv = verified_properties@;
                assert(pv.take(i as int + 1).drop_last() =~= pv.take(i as int));
                assert(pv.take(i as int + 1).last() == pv[i as int]);
            }
            i = i + 1;
        }
        proof {
            assert(verified_properties@.take(nprops as int) =~= verified_properties@);
        }
        let status = self.determine_verification_status(&verified_properties);
        if self.stats.smt_queries <= usize::MAX - nprops {
            self.stats.smt_queries = self.stats.smt_queries + nprops;
        } else {
            self.stats.smt_queries = usize::MAX;
        }
        Ok(
            EnhancedVerificationResult {
                status,
                verified_properties,
                proofs,
                counterexamples,
                unsat_cores: Vec::new(),
                diagnostics: Vec::new(),
                stats: self.stats.clone(),
            },
        )
    }

    /// Builds the formal-proof artifact for one proven property: its run
    /// certificate when one was produced and proof generation is on, a
    /// fixed explanation otherwise.
    pub fn generate_formal_proof(&self, property_id: &str, certificate: Option<&String>) -> (r:
        FormalProof)
        ensures
            r.id@ == "proof_"@ + property_id@,
            r.format@ == "Z3"@,
            !self.config.generate_proofs ==> r.content@ == "Proof generation disabled"@,
            self.config.generate_proofs ==> (match certificate {
                Some(c) => r.content@ == c@,
                None => r.content@ == "Proof generation not available"@,
            }),
            r.size == 1,
            r.dependencies@.len() == 0,
            r.valid,
    {
        let content = if !self.config.generate_proofs {
            String::from_str("Proof generation disabled")
        } else {
            match certificate {
                Some(c) => c.clone(),
                None => String::from_str("Proof generation not available"),
            }
        };
        let mut id = String::from_str("proof_");
        id.append(property_id);
        FormalProof {
            id,
            format: String::from_str("Z3"),
            content,
            size: 1,
            dependencies: Vec::new(),
            valid: true,
        }
    }

    /// Builds the counterexample artifact for one disproven property. Model
    /// decoding into assignments is not attempted here, so the model is
    /// empty while the result stays disproven.
    pub fn generate_counterexample(&self, property_id: &str) -> (r: CounterexampleModel)
        ensures
            r.id@ == "counterexample_"@ + property_id@,
            r.assignments@.len() == 0,
            r.function_interpretations@.len() == 0,
            r.evaluation@ == "Counterexample found"@,
            r.explanation@ == "Property violated by model"@,
    {
        let mut id = String::from_str("counterexample_");
        id.append(property_id);
        CounterexampleModel {
            id,
            assignments: Vec::new(),
            function_interpretations: Vec::new(),
            evaluation: String::from_str("Counterexample found"),
            explanation: String::from_str("Property violated by model"),
        }
    }

    /// Folds per-property results into one document-level status under the
    /// strict rule: empty is incomplete, any error or disproven property
    /// fails the document, all proven is fully verified, and a mix of proven
    /// and unknown is partially verified.
    pub fn determine_verification_status(&self, properties: &Vec<VerifiedProperty>) -> (r:
        VerificationStatus)
        ensures
            status_matches_aggregate(properties@, r),
    {
        let n = properties.len();
        if n == 0 {
            return VerificationStatus::Incomplete;
        }
        let mut has_error = false;
        let mut has_disproven = false;
        let mut proven_so_far = true;
        let mut i: usize = 0;
        while i < n
            invariant
                0 <= i <= n,
                n == properties@.len(),
                has_error == any_error(properties@.take(i as int)),
                has_disproven == any_disproven(properties@.take(i as int)),
                proven_so_far == all_proven(properties@.take(i as int)),
            decreases n - i,
        {
            let is_err = matches!(&properties[i].result, PropertyResult::Error(_));
            let is_dis = matches!(&properties[i].result, PropertyResult::Disproven);
            let is_prov = matches!(&properties[i].result, PropertyResult::Proven);
            proof {
                let p = properties@;
                let j = i as int;
                assert(p.take(j + 1)[j] == p[j]);
                if any_error(p.take(j)) {
                    let k = choose|k: int|
                        0 <= k < p.take(j).len() && (#[trigger] p.take(j)[k]).result is Error;
                    assert(p.take(j + 1)[k].result is Error);
                }
                if any_error(p.take(j + 1)) {
                    let k = choose|k: int|
                        0 <= k < p.take(j + 1).len() && (#[trigger] p.take(j + 1)[k]).result is Error;
                    if k < j {
                        assert(p.take(j)[k].result is Error);
                    }
                }
                if any_disproven(p.take(j)) {
                    let k = choose|k: int|
                        0 <= k < p.take(j).len() && (#[trigger] p.take(j)[k]).result is Disproven;
                    assert(p.take(j + 1)[k].result is Disproven);
                }
                if any_disproven(p.take(j + 1)) {
                    let k = choose|k: int|
                        0 <= k < p.take(j + 1).len() && (#[trigger] p.take(j + 1)[k]).result is Disproven;
                    if k < j {
                        assert(p.take(j)[k].result is Disproven);
                    }
                }
                if all_proven(p.take(j)) && p[j].result is Proven {
                    assert forall|k: int| 0 <= k < j + 1 implies #[trigger] p.take(j + 1)[k].result
                        is Proven by {
                        if k < j {
                            assert(p.take(j)[k].result is Proven);
                        }
                    }
                }
                if all_proven(p.take(j + 1)) {
                    assert forall|k: int| 0 <= k < j implies #[trigger] p.take(j)[k].result
                        is Proven by {
                        assert(p.take(j + 1)[k].result is Proven);
                    }
                }
            }
            has_error = has_error || is_err;
            has_disproven = has_disproven || is_dis;
            proven_so_far = proven_so_far && is_prov;
            i = i + 1;
        }
        proof {
            assert(properties@.take(n as int) =~= properties@);
        }
        if has_error {
            VerificationStatus::Failed(String::from_str("Verification error encountered"))
        } else if has_disproven {
            VerificationStatus::Failed(String::from_str("Property disproven"))
        } else if proven_so_far {
            VerificationStatus::AllVerified
        } else {
            VerificationStatus::PartiallyVerified
        }
    }
}

} // verus!
