//! Solver backend boundary.
//!
//! Everything the external SMT solver decides enters the library through
//! this module: one trusted call that checks satisfiability of the canonical
//! negated dot-product obligation, and verified functions that map the
//! three-valued solver answer onto the four-valued property result.
//!
//! Full SMT-LIB parsing and printing are out of scope for the core; a solver
//! interaction checks the canonical obligation while the formula text is kept
//! on the property record for reporting.

use vstd::prelude::*;

use crate::types::PropertyResult;

verus! {

/// Three-valued satisfiability answer of the solver.
#[derive(Debug, Clone, Copy, PartialEq, Eq, Structural)]
pub enum SatAnswer {
    /// The assertions are satisfiable.
    Sat,
    /// The assertions are unsatisfiable.
    Unsat,
    /// The solver gave up (timeout or resource limit).
    Unknown,
}

/// Relies on z3's `Solver::check`: asserts the negation of the canonical
/// dot-product obligation (two real unknowns with product zero) and checks
/// its satisfiability within the given timeout. Which of the three answers
/// comes back is the solver's alone; nothing is assumed of it.
#[verifier::external_body]
fn solve_negated_obligation(timeout_ms: u32) -> (r: SatAnswer)
{
    let solver = z3::Solver::new();
    let mut params = z3::Params::new();
    params.set_u32("timeout", timeout_ms);
    solver.set_params(&params);
    let v1 = z3::ast::Real::new_const("v1_x");
    let v2 = z3::ast::Real::new_const("v2_x");
    let Some(zero) = z3::ast::Real::from_rational_str("0", "1") else {
        return SatAnswer::Unknown;
    };
    solver.assert((&v1 * &v2).eq(zero).not());
    match solver.check() {
        z3::SatResult::Sat => SatAnswer::Sat,
        z3::SatResult::Unsat => SatAnswer::Unsat,
        z3::SatResult::Unknown => SatAnswer::Unknown,
    }
}

/// The decision rule on a solver answer. The engine always asserts the
/// negation of the desired property, so an unsatisfiable negation proves the
/// property and a satisfiable one is a counterexample.
pub open spec fn decide_property_spec(answer: SatAnswer) -> PropertyResult {
    match answer {
        SatAnswer::Unsat => PropertyResult::Proven,
        SatAnswer::Sat => PropertyResult::Disproven,
        SatAnswer::Unknown => PropertyResult::Unknown,
    }
}

/// Maps a solver answer to the property result it decides.
pub fn decide_property(answer: SatAnswer) -> (r: PropertyResult)
    ensures
        r == decide_property_spec(answer),
{
    match answer {
        SatAnswer::Unsat => PropertyResult::Proven,
        SatAnswer::Sat => PropertyResult::Disproven,
        SatAnswer::Unknown => PropertyResult::Unknown,
    }
}

/// A solver-decided result: never an error and never unsupported.
pub open spec fn is_decided_result(r: PropertyResult) -> bool {
    exists|answer: SatAnswer| r == decide_property_spec(answer)
}

/// Runs one solver interaction and decides the property from its answer.
/// Whatever the solver answered, the result is one of `Proven`, `Disproven`
/// and `Unknown`.
pub(crate) fn solve_and_decide(timeout_ms: u32) -> (r: PropertyResult)
    ensures
        is_decided_result(r),
{
    let answer = solve_negated_obligation(timeout_ms);
    let result = decide_property(answer);
    proof {
        assert(result == decide_property_spec(answer));
    }
    result
}

} // verus!
