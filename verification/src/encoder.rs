//! Property encoder: pure construction of solver formula text.
//!
//! Each encoder maps a typed input to the text of a formula whose
//! satisfiability answers the *negation* of the desired property — an
//! unsatisfiable formula proves the property. Space names are inserted
//! verbatim, with no escaping beyond literal substitution.

use vstd::prelude::*;

use crate::numeric::{dec_string_of, u64_to_string};

verus! {

/// The orthogonality obligation for two spaces: all member vectors of the
/// first have zero dot product with all member vectors of the second.
pub open spec fn orthogonality_formula_view(s1: Seq<char>, s2: Seq<char>) -> Seq<char> {
    "(forall ((v1 Vector) (v2 Vector)) (=> (and (in_space v1 "@ + s1 + ") (in_space v2 "@ + s2
        + ")) (= (dot_product v1 v2) 0)))"@
}

/// Builds the orthogonality formula for the two named spaces.
pub fn orthogonality_formula(space1: &str, space2: &str) -> (r: String)
    ensures
        r@ == orthogonality_formula_view(space1@, space2@),
{
    let mut s = String::from_str("(forall ((v1 Vector) (v2 Vector)) (=> (and (in_space v1 ");
    s.append(space1);
    s.append(") (in_space v2 ");
    s.append(space2);
    s.append(")) (= (dot_product v1 v2) 0)))");
    s
}

/// The safety-isolation obligation: no optimization affects the safety space.
pub open spec fn safety_isolation_formula_view() -> Seq<char> {
    "(assert (forall ((optimization SemanticOpt)) (not (affects optimization V_S))))"@
}

/// Builds the safety-isolation formula.
pub fn safety_isolation_formula() -> (r: String)
    ensures
        r@ == safety_isolation_formula_view(),
{
    String::from_str("(assert (forall ((optimization SemanticOpt)) (not (affects optimization V_S))))")
}

/// The decomposition-uniqueness obligation: every signal is the direct sum
/// of its three projections.
pub open spec fn decomposition_formula_view() -> Seq<char> {
    "(assert (forall ((s Signal)) (exists ((vh V_H) (vl V_L) (vs V_S)) (and (= s (direct_sum vh vl vs)) (= vh (project_H s)) (= vl (project_L s)) (= vs (project_S s))))))"@
}

/// Builds the signal-decomposition formula.
pub fn decomposition_formula() -> (r: String)
    ensures
        r@ == decomposition_formula_view(),
{
    String::from_str(
        "(assert (forall ((s Signal)) (exists ((vh V_H) (vl V_L) (vs V_S)) (and (= s (direct_sum vh vl vs)) (= vh (project_H s)) (= vl (project_L s)) (= vs (project_S s))))))",
    )
}

/// The ambiguity-bound obligation: ambiguity below two percent, where
/// ambiguity is one minus the share of unique parses.
pub open spec fn ambiguity_formula_view() -> Seq<char> {
    "(assert (< ambiguity 0.02))\n(assert (= ambiguity (- 1.0 (/ unique_parses total_parses))))\n(assert (>= unique_parses 0.0))\n(assert (>= total_parses 1.0))\n(assert (<= unique_parses total_parses))\n(declare-const ambiguity Real)\n(declare-const unique_parses Real)\n(declare-const total_parses Real)\n(check-sat)"@
}

/// Builds the ambiguity-bound formula.
pub fn ambiguity_formula() -> (r: String)
    ensures
        r@ == ambiguity_formula_view(),
{
    String::from_str(
        "(assert (< ambiguity 0.02))\n(assert (= ambiguity (- 1.0 (/ unique_parses total_parses))))\n(assert (>= unique_parses 0.0))\n(assert (>= total_parses 1.0))\n(assert (<= unique_parses total_parses))\n(declare-const ambiguity Real)\n(declare-const unique_parses Real)\n(declare-const total_parses Real)\n(check-sat)",
    )
}

/// The pipeline success-rate obligation for a step count: the target rate
/// beats the baseline and the improvement factor exceeds one.
pub open spec fn pipeline_formula_view(steps: nat) -> Seq<char> {
    "(assert (= prose_rate (^ 0.62 "@ + dec_string_of(steps) + ")))\n(assert (= aisp_rate (^ 0.98 "@
        + dec_string_of(steps)
        + ")))\n(assert (> aisp_rate prose_rate))\n(assert (> improvement_factor 1.0))\n(declare-const prose_rate Real)\n(declare-const aisp_rate Real)\n(declare-const improvement_factor Real)\n(check-sat)"@
}

/// Builds the pipeline success-rate formula for the given step count.
pub fn pipeline_formula(steps: u64) -> (r: String)
    ensures
        r@ == pipeline_formula_view(steps as nat),
{
    let rendered = u64_to_string(steps);
    let mut s = String::from_str("(assert (= prose_rate (^ 0.62 ");
    s.append(rendered.as_str());
    s.append(")))\n(assert (= aisp_rate (^ 0.98 ");
    s.append(rendered.as_str());
    s.append(
        ")))\n(assert (> aisp_rate prose_rate))\n(assert (> improvement_factor 1.0))\n(declare-const prose_rate Real)\n(declare-const aisp_rate Real)\n(declare-const improvement_factor Real)\n(check-sat)",
    );
    s
}

/// The disjointness obligation of the semantic and safety spaces.
pub open spec fn semantic_safety_disjoint_formula_view() -> Seq<char> {
    "(assert (= (intersection semantic_space safety_space) empty_set))\n(declare-sort Space)\n(declare-const semantic_space Space)\n(declare-const safety_space Space)\n(declare-const empty_set Space)\n(declare-fun intersection (Space Space) Space)\n(check-sat)"@
}

/// Builds the semantic/safety disjointness formula.
pub fn semantic_safety_disjoint_formula() -> (r: String)
    ensures
        r@ == semantic_safety_disjoint_formula_view(),
{
    String::from_str(
        "(assert (= (intersection semantic_space safety_space) empty_set))\n(declare-sort Space)\n(declare-const semantic_space Space)\n(declare-const safety_space Space)\n(declare-const empty_set Space)\n(declare-fun intersection (Space Space) Space)\n(check-sat)",
    )
}

/// The disjointness obligation of the structural and safety spaces.
pub open spec fn structural_safety_disjoint_formula_view() -> Seq<char> {
    "(assert (= (intersection structural_space safety_space) empty_set))\n(declare-sort Space)\n(declare-const structural_space Space)\n(declare-const safety_space Space)\n(declare-const empty_set Space)\n(declare-fun intersection (Space Space) Space)\n(check-sat)"@
}

/// Builds the structural/safety disjointness formula.
pub fn structural_safety_disjoint_formula() -> (r: String)
    ensures
        r@ == structural_safety_disjoint_formula_view(),
{
    String::from_str(
        "(assert (= (intersection structural_space safety_space) empty_set))\n(declare-sort Space)\n(declare-const structural_space Space)\n(declare-const safety_space Space)\n(declare-const empty_set Space)\n(declare-fun intersection (Space Space) Space)\n(check-sat)",
    )
}

} // verus!
