//! The bridge to the Z3 solver.
//!
//! Everything the library knows about Z3 is concentrated here: the declared
//! opaque types, one trusted wrapper per Z3 function the library calls, and
//! the verified encoding of [`Assertion`]s into solver assertions. Z3 interns
//! constants by name within its thread-local context, so a variable is
//! identified by its name alone and no handle needs to be stored.

use crate::algebra::{assertion_wf, expr_wf, Assertion, RealExpr};
use crate::names::nul_free;
use vstd::prelude::*;
use z3::ast::Ast;

verus! {

#[verifier::external_type_specification]
#[verifier::external_body]
pub struct ExSolver(z3::Solver);

#[verifier::external_type_specification]
#[verifier::external_body]
pub struct ExModel(z3::Model);

#[verifier::external_type_specification]
#[verifier::external_body]
pub struct ExReal(z3::ast::Real);

#[verifier::external_type_specification]
#[verifier::external_body]
pub struct ExBool(z3::ast::Bool);

/// The tri-state outcome of a satisfiability check.
#[derive(Debug, Clone, Copy, PartialEq, Eq, Structural)]
pub enum SatStatus {
    /// The asserted system has a solution.
    Sat,
    /// The asserted system is proven unsatisfiable.
    Unsat,
    /// The solver could not decide.
    Unknown,
}

/// Relies on z3::Solver::new: a fresh solver in the thread-local context.
#[verifier::external_body]
pub(crate) fn solver_new() -> z3::Solver {
    z3::Solver::new()
}

/// Relies on z3::Solver::assert: adds one assertion to the solver's state.
#[verifier::external_body]
pub(crate) fn solver_assert(solver: &z3::Solver, assertion: &z3::ast::Bool) {
    solver.assert(assertion)
}

/// Relies on z3::Solver::check: reports the satisfiability of the asserted
/// state. Which of the three outcomes comes back depends on the solver alone.
#[verifier::external_body]
pub(crate) fn solver_check(solver: &z3::Solver) -> SatStatus {
    match solver.check() {
        z3::SatResult::Sat => SatStatus::Sat,
        z3::SatResult::Unsat => SatStatus::Unsat,
        z3::SatResult::Unknown => SatStatus::Unknown,
    }
}

/// Relies on z3::Solver::get_model: the model of the last successful check,
/// or `None` when none is available.
#[verifier::external_body]
pub(crate) fn solver_get_model(solver: &z3::Solver) -> Option<z3::Model> {
    solver.get_model()
}

/// Relies on z3::ast::Real::new_const: the real-valued constant of this name
/// in the thread-local context; the same name yields the same constant. The
/// name crosses a C boundary and must hold no NUL character.
#[verifier::external_body]
pub(crate) fn real_const(name: &str) -> z3::ast::Real
    requires
        nul_free(name@),
{
    z3::ast::Real::new_const(name)
}

/// Relies on z3::ast::Real::from_rational_str: the numeral `num/den`, for a
/// nonzero denominator.
#[verifier::external_body]
pub(crate) fn real_from_rational(num: i64, den: i64) -> z3::ast::Real
    requires
        den != 0,
{
    z3::ast::Real::from_rational_str(&format!("{}", num), &format!("{}", den)).unwrap()
}

/// Relies on z3::ast::Real::add: the sum term of the two operands.
#[verifier::external_body]
pub(crate) fn real_add(a: &z3::ast::Real, b: &z3::ast::Real) -> z3::ast::Real {
    z3::ast::Real::add(&[a.clone(), b.clone()])
}

/// Relies on z3::ast::Real::sub: the difference term of the two operands.
#[verifier::external_body]
pub(crate) fn real_sub(a: &z3::ast::Real, b: &z3::ast::Real) -> z3::ast::Real {
    z3::ast::Real::sub(&[a.clone(), b.clone()])
}

/// Relies on z3::ast::Real::mul: the product term of the two operands.
#[verifier::external_body]
pub(crate) fn real_mul(a: &z3::ast::Real, b: &z3::ast::Real) -> z3::ast::Real {
    z3::ast::Real::mul(&[a.clone(), b.clone()])
}

/// Relies on z3::ast::Ast::_eq: the equality proposition of the two terms.
#[verifier::external_body]
pub(crate) fn real_eq_bool(a: &z3::ast::Real, b: &z3::ast::Real) -> z3::ast::Bool {
    a._eq(b)
}

/// Relies on z3::ast::Real::ge: the at-least proposition of the two terms.
#[verifier::external_body]
pub(crate) fn real_ge_bool(a: &z3::ast::Real, b: &z3::ast::Real) -> z3::ast::Bool {
    a.ge(b)
}

/// Relies on z3::ast::Real::le: the at-most proposition of the two terms.
#[verifier::external_body]
pub(crate) fn real_le_bool(a: &z3::ast::Real, b: &z3::ast::Real) -> z3::ast::Bool {
    a.le(b)
}

/// Relies on z3::Model::eval with model completion: the value of the term in
/// the model, or `None` when evaluation fails.
#[verifier::external_body]
pub(crate) fn model_eval_real(model: &z3::Model, term: &z3::ast::Real) -> Option<z3::ast::Real> {
    model.eval(term, true)
}

/// Relies on z3::ast::Real::as_rational: the numerator and denominator of a
/// rational numeral small enough for two `i64`s, `None` otherwise.
#[verifier::external_body]
pub(crate) fn real_as_rational(value: &z3::ast::Real) -> Option<(i64, i64)> {
    value.as_rational()
}

/// Encode one expression as a solver term, variable names interned by the
/// solver context.
pub(crate) fn encode_expr(e: &RealExpr) -> z3::ast::Real
    requires
        expr_wf(e@),
    decreases *e,
{
    match e {
        RealExpr::Const(c) => real_from_rational(c.num, c.den),
        RealExpr::Var(n) => real_const(n.as_str()),
        RealExpr::Add(a, b) => {
            let x = encode_expr(a);
            let y = encode_expr(b);
            real_add(&x, &y)
        },
        RealExpr::Sub(a, b) => {
            let x = encode_expr(a);
            let y = encode_expr(b);
            real_sub(&x, &y)
        },
        RealExpr::Mul(a, b) => {
            let x = encode_expr(a);
            let y = encode_expr(b);
            real_mul(&x, &y)
        },
    }
}

/// Encode one assertion as a solver proposition.
pub(crate) fn encode_assertion(a: &Assertion) -> z3::ast::Bool
    requires
        assertion_wf(a@),
{
    match a {
        Assertion::Eq(l, r) => {
            let x = encode_expr(l);
            let y = encode_expr(r);
            real_eq_bool(&x, &y)
        },
        Assertion::Ge(l, r) => {
            let x = encode_expr(l);
            let y = encode_expr(r);
            real_ge_bool(&x, &y)
        },
        Assertion::Le(l, r) => {
            let x = encode_expr(l);
            let y = encode_expr(r);
            real_le_bool(&x, &y)
        },
    }
}

/// Assert one encoded assertion into the solver's state.
pub(crate) fn assert_into(solver: &z3::Solver, a: &Assertion)
    requires
        assertion_wf(a@),
{
    let b = encode_assertion(a);
    solver_assert(solver, &b);
}

} // verus!
