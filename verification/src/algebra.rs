//! The algebraic form of geometric constraints.
//!
//! Every constraint translates into a short list of [`Assertion`]s: equations
//! or inequalities between real-valued expressions over named solver
//! variables and exact rational constants. The mathematical meaning of an
//! expression is given by [`expr_val`] under an assignment of rationals to
//! variable names, and [`holds`] says when an assignment satisfies an
//! assertion. The per-constraint translation lemmas are stated against these
//! definitions.

use crate::names::nul_free;
use crate::rational::{
    ratio_add, ratio_eq, ratio_le, ratio_mul, ratio_sub, ratio_wf, Ratio, Rational,
};
use vstd::prelude::*;

verus! {

/// A real-valued expression over solver variables: rational constants,
/// variables by name, and the ring operations.
#[derive(Debug, PartialEq)]
pub enum RealExpr {
    /// An exact rational constant.
    Const(Rational),
    /// A solver variable, named.
    Var(String),
    /// The sum of the two operands.
    Add(Box<RealExpr>, Box<RealExpr>),
    /// The left operand minus the right one.
    Sub(Box<RealExpr>, Box<RealExpr>),
    /// The product of the two operands.
    Mul(Box<RealExpr>, Box<RealExpr>),
}

/// One fact asserted to the solver: a relation between two expressions.
#[derive(Debug, PartialEq)]
pub enum Assertion {
    /// The two sides are equal.
    Eq(RealExpr, RealExpr),
    /// The left side is at least the right side.
    Ge(RealExpr, RealExpr),
    /// The left side is at most the right side.
    Le(RealExpr, RealExpr),
}

/// The mathematical form of an expression: variables are their name
/// sequences, constants their unbounded fractions.
pub ghost enum SpecExpr {
    Const(Ratio),
    Var(Seq<char>),
    Add(Box<SpecExpr>, Box<SpecExpr>),
    Sub(Box<SpecExpr>, Box<SpecExpr>),
    Mul(Box<SpecExpr>, Box<SpecExpr>),
}

/// The mathematical form of an assertion.
pub ghost enum SpecAssertion {
    Eq(SpecExpr, SpecExpr),
    Ge(SpecExpr, SpecExpr),
    Le(SpecExpr, SpecExpr),
}

pub open spec fn expr_view(e: RealExpr) -> SpecExpr
    decreases e,
{
    match e {
        RealExpr::Const(c) => SpecExpr::Const(c.ratio()),
        RealExpr::Var(n) => SpecExpr::Var(n@),
        RealExpr::Add(a, b) => SpecExpr::Add(Box::new(expr_view(*a)), Box::new(expr_view(*b))),
        RealExpr::Sub(a, b) => SpecExpr::Sub(Box::new(expr_view(*a)), Box::new(expr_view(*b))),
        RealExpr::Mul(a, b) => SpecExpr::Mul(Box::new(expr_view(*a)), Box::new(expr_view(*b))),
    }
}

impl View for RealExpr {
    type V = SpecExpr;

    open spec fn view(&self) -> SpecExpr {
        expr_view(*self)
    }
}

impl View for Assertion {
    type V = SpecAssertion;

    open spec fn view(&self) -> SpecAssertion {
        match *self {
            Assertion::Eq(l, r) => SpecAssertion::Eq(expr_view(l), expr_view(r)),
            Assertion::Ge(l, r) => SpecAssertion::Ge(expr_view(l), expr_view(r)),
            Assertion::Le(l, r) => SpecAssertion::Le(expr_view(l), expr_view(r)),
        }
    }
}

/// The views of a produced list of assertions.
pub open spec fn views_of(s: Seq<Assertion>) -> Seq<SpecAssertion> {
    s.map_values(|a: Assertion| a@)
}

/// An assignment of mathematical values to variable names.
pub type Env = Map<Seq<char>, Ratio>;

/// Every value of the assignment is a denoting fraction.
pub open spec fn env_wf(env: Env) -> bool {
    forall|k: Seq<char>| #[trigger] env.contains_key(k) ==> ratio_wf(env[k])
}

/// The value of an expression under an assignment.
pub open spec fn expr_val(env: Env, e: SpecExpr) -> Ratio
    decreases e,
{
    match e {
        SpecExpr::Const(c) => c,
        SpecExpr::Var(n) => env[n],
        SpecExpr::Add(a, b) => ratio_add(expr_val(env, *a), expr_val(env, *b)),
        SpecExpr::Sub(a, b) => ratio_sub(expr_val(env, *a), expr_val(env, *b)),
        SpecExpr::Mul(a, b) => ratio_mul(expr_val(env, *a), expr_val(env, *b)),
    }
}

/// The assignment satisfies the assertion.
pub open spec fn holds(env: Env, a: SpecAssertion) -> bool {
    match a {
        SpecAssertion::Eq(l, r) => ratio_eq(expr_val(env, l), expr_val(env, r)),
        SpecAssertion::Ge(l, r) => ratio_le(expr_val(env, r), expr_val(env, l)),
        SpecAssertion::Le(l, r) => ratio_le(expr_val(env, l), expr_val(env, r)),
    }
}

/// The assignment satisfies every assertion of the list.
pub open spec fn all_hold(env: Env, s: Seq<SpecAssertion>) -> bool {
    forall|i: int| 0 <= i < s.len() ==> holds(env, #[trigger] s[i])
}

/// Every variable of the expression is named by the assignment.
pub open spec fn expr_vars_in(env: Env, e: SpecExpr) -> bool
    decreases e,
{
    match e {
        SpecExpr::Const(_) => true,
        SpecExpr::Var(n) => env.contains_key(n),
        SpecExpr::Add(a, b) => expr_vars_in(env, *a) && expr_vars_in(env, *b),
        SpecExpr::Sub(a, b) => expr_vars_in(env, *a) && expr_vars_in(env, *b),
        SpecExpr::Mul(a, b) => expr_vars_in(env, *a) && expr_vars_in(env, *b),
    }
}

/// Structural well-formedness of an expression: constants denote (their
/// denominator is positive) and variable names are NUL-free, so the
/// expression can be handed to the solver backend.
pub open spec fn expr_wf(e: SpecExpr) -> bool
    decreases e,
{
    match e {
        SpecExpr::Const(c) => c.d > 0,
        SpecExpr::Var(n) => nul_free(n),
        SpecExpr::Add(a, b) => expr_wf(*a) && expr_wf(*b),
        SpecExpr::Sub(a, b) => expr_wf(*a) && expr_wf(*b),
        SpecExpr::Mul(a, b) => expr_wf(*a) && expr_wf(*b),
    }
}

/// Structural well-formedness of an assertion.
pub open spec fn assertion_wf(a: SpecAssertion) -> bool {
    match a {
        SpecAssertion::Eq(l, r) => expr_wf(l) && expr_wf(r),
        SpecAssertion::Ge(l, r) => expr_wf(l) && expr_wf(r),
        SpecAssertion::Le(l, r) => expr_wf(l) && expr_wf(r),
    }
}

/// Structural well-formedness of a list of assertions.
pub open spec fn assertions_wf(s: Seq<SpecAssertion>) -> bool {
    forall|i: int| 0 <= i < s.len() ==> assertion_wf(#[trigger] s[i])
}

/// Under a well-formed assignment that names its variables, a well-formed
/// expression evaluates to a denoting fraction.
pub proof fn lemma_expr_val_wf(env: Env, e: SpecExpr)
    requires
        env_wf(env),
        expr_wf(e),
        expr_vars_in(env, e),
    ensures
        ratio_wf(expr_val(env, e)),
    decreases e,
{
    match e {
        SpecExpr::Const(_) => {},
        SpecExpr::Var(_) => {},
        SpecExpr::Add(a, b) => {
            lemma_expr_val_wf(env, *a);
            lemma_expr_val_wf(env, *b);
            let x = expr_val(env, *a);
            let y = expr_val(env, *b);
            assert(x.d * y.d != 0) by (nonlinear_arith)
                requires
                    x.d != 0,
                    y.d != 0,
            ;
        },
        SpecExpr::Sub(a, b) => {
            lemma_expr_val_wf(env, *a);
            lemma_expr_val_wf(env, *b);
            let x = expr_val(env, *a);
            let y = expr_val(env, *b);
            assert(x.d * y.d != 0) by (nonlinear_arith)
                requires
                    x.d != 0,
                    y.d != 0,
            ;
        },
        SpecExpr::Mul(a, b) => {
            lemma_expr_val_wf(env, *a);
            lemma_expr_val_wf(env, *b);
            let x = expr_val(env, *a);
            let y = expr_val(env, *b);
            assert(x.d * y.d != 0) by (nonlinear_arith)
                requires
                    x.d != 0,
                    y.d != 0,
            ;
        },
    }
}

/// Build a variable expression.
pub fn e_var(n: String) -> (r: RealExpr)
    ensures
        r@ == SpecExpr::Var(n@),
        nul_free(n@) ==> expr_wf(r@),
{
    RealExpr::Var(n)
}

/// Build a constant expression.
pub fn e_const(c: Rational) -> (r: RealExpr)
    ensures
        r@ == SpecExpr::Const(c.ratio()),
        c.wf() ==> expr_wf(r@),
{
    RealExpr::Const(c)
}

/// Build a sum.
pub fn e_add(a: RealExpr, b: RealExpr) -> (r: RealExpr)
    ensures
        r@ == SpecExpr::Add(Box::new(a@), Box::new(b@)),
        expr_wf(a@) && expr_wf(b@) ==> expr_wf(r@),
{
    RealExpr::Add(Box::new(a), Box::new(b))
}

/// Build a difference.
pub fn e_sub(a: RealExpr, b: RealExpr) -> (r: RealExpr)
    ensures
        r@ == SpecExpr::Sub(Box::new(a@), Box::new(b@)),
        expr_wf(a@) && expr_wf(b@) ==> expr_wf(r@),
{
    RealExpr::Sub(Box::new(a), Box::new(b))
}

/// Build a product.
pub fn e_mul(a: RealExpr, b: RealExpr) -> (r: RealExpr)
    ensures
        r@ == SpecExpr::Mul(Box::new(a@), Box::new(b@)),
        expr_wf(a@) && expr_wf(b@) ==> expr_wf(r@),
{
    RealExpr::Mul(Box::new(a), Box::new(b))
}

} // verus!
