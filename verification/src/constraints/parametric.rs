//! Parametric constraints: placing a point on a line segment through an
//! internal placement fraction.

use crate::algebra::{
    all_hold, assertion_wf, e_add, e_const, e_mul, e_sub, e_var, holds, views_of, Assertion, Env,
    RealExpr, SpecAssertion, SpecExpr,
};
use crate::constraint::{Constraint, SketchQuery};
use crate::constraints::ConstraintKind;
use crate::decimal::{dec_seq, push_decimal_usize};
use crate::entities::point::PointId;
use crate::entity::{CircleId, LineId};
use crate::error::TextCadError;
use crate::names::{lemma_dec_seq_nul_free, lemma_nul_free_concat, nul_free};
use crate::rational::{ratio_add, ratio_eq, ratio_int, ratio_le, ratio_mul, ratio_sub, Rational};
use vstd::prelude::*;
use vstd::string::StringExecFns;

verus! {

/// The name of the internal placement unknown of a point-on-line constraint:
/// derived deterministically from both identifiers, so that several such
/// constraints on the same line never collide.
pub open spec fn t_var_name(line: LineId, point: PointId) -> Seq<char> {
    "t_line_"@ + dec_seq(line.0.index as nat) + "_point_"@ + dec_seq(point.0.index as nat)
}

/// Places a point on a line segment: a fresh internal unknown `t` is
/// introduced and the constraint asserts `point == start + t*(end - start)`
/// together with `0 <= t <= 1`.
#[derive(Debug, Clone, Copy, PartialEq, Eq, Structural)]
pub struct PointOnLineConstraint {
    /// Line that the point must lie on.
    pub line: LineId,
    /// Point to constrain to the line.
    pub point: PointId,
}

impl PointOnLineConstraint {
    /// Create a new point-on-line constraint.
    pub fn new(line: LineId, point: PointId) -> (r: Self)
        ensures
            r.line == line,
            r.point == point,
    {
        PointOnLineConstraint { line, point }
    }

    /// Build the name of the internal placement unknown.
    fn t_name(&self) -> (r: String)
        ensures
            r@ == t_var_name(self.line, self.point),
            nul_free(r@),
    {
        let mut s = "t_line_".to_owned();
        push_decimal_usize(&mut s, self.line.0.index);
        s.append("_point_");
        push_decimal_usize(&mut s, self.point.0.index);
        proof {
            reveal_strlit("t_line_");
            reveal_strlit("_point_");
            lemma_dec_seq_nul_free(self.line.0.index as nat);
            lemma_dec_seq_nul_free(self.point.0.index as nat);
            lemma_nul_free_concat("t_line_"@, dec_seq(self.line.0.index as nat));
            lemma_nul_free_concat(
                "t_line_"@ + dec_seq(self.line.0.index as nat),
                "_point_"@,
            );
            lemma_nul_free_concat(
                "t_line_"@ + dec_seq(self.line.0.index as nat) + "_point_"@,
                dec_seq(self.point.0.index as nat),
            );
        }
        s
    }
}

impl Constraint for PointOnLineConstraint {
    open spec fn params_wf(&self) -> bool {
        true
    }

    /// `px == x1 + t*(x2-x1)`, `py == y1 + t*(y2-y1)`, `t >= 0`, `t <= 1`,
    /// when the line, its endpoints and the point all resolve.
    open spec fn equations_spec(
        &self,
        points: Map<PointId, (Seq<char>, Seq<char>)>,
        lines: Map<LineId, (PointId, PointId)>,
        circles: Map<CircleId, (PointId, Seq<char>)>,
    ) -> Option<Seq<SpecAssertion>> {
        if lines.contains_key(self.line) && points.contains_key(self.point) && points.contains_key(
            lines[self.line].0,
        ) && points.contains_key(lines[self.line].1) {
            let s = lines[self.line].0;
            let e = lines[self.line].1;
            let t = SpecExpr::Var(t_var_name(self.line, self.point));
            Some(
                seq![
                    SpecAssertion::Eq(
                        SpecExpr::Var(points[self.point].0),
                        SpecExpr::Add(
                            Box::new(SpecExpr::Var(points[s].0)),
                            Box::new(
                                SpecExpr::Mul(
                                    Box::new(t),
                                    Box::new(
                                        SpecExpr::Sub(
                                            Box::new(SpecExpr::Var(points[e].0)),
                                            Box::new(SpecExpr::Var(points[s].0)),
                                        ),
                                    ),
                                ),
                            ),
                        ),
                    ),
                    SpecAssertion::Eq(
                        SpecExpr::Var(points[self.point].1),
                        SpecExpr::Add(
                            Box::new(SpecExpr::Var(points[s].1)),
                            Box::new(
                                SpecExpr::Mul(
                                    Box::new(t),
                                    Box::new(
                                        SpecExpr::Sub(
                                            Box::new(SpecExpr::Var(points[e].1)),
                                            Box::new(SpecExpr::Var(points[s].1)),
                                        ),
                                    ),
                                ),
                            ),
                        ),
                    ),
                    SpecAssertion::Ge(t, SpecExpr::Const(ratio_int(0))),
                    SpecAssertion::Le(t, SpecExpr::Const(ratio_int(1))),
                ],
            )
        } else {
            None
        }
    }

    open spec fn kind_spec(&self) -> ConstraintKind {
        ConstraintKind::PointOnLine(*self)
    }

    #[verifier::rlimit(60)]
    fn apply<Q: SketchQuery>(&self, sketch: &Q) -> (r: Result<Vec<Assertion>, TextCadError>) {
        let (start_id, end_id) = match sketch.line_endpoints(self.line) {
            Ok(v) => v,
            Err(e) => {
                return Err(e);
            },
        };
        let (px, py) = match sketch.point_variables(self.point) {
            Ok(v) => v,
            Err(e) => {
                return Err(e);
            },
        };
        let (x1, y1) = match sketch.point_variables(start_id) {
            Ok(v) => v,
            Err(e) => {
                return Err(e);
            },
        };
        let (x2, y2) = match sketch.point_variables(end_id) {
            Ok(v) => v,
            Err(e) => {
                return Err(e);
            },
        };
        let t = self.t_name();
        let point_x = e_add(
            e_var(x1.clone()),
            e_mul(e_var(t.clone()), e_sub(e_var(x2), e_var(x1))),
        );
        let point_y = e_add(
            e_var(y1.clone()),
            e_mul(e_var(t.clone()), e_sub(e_var(y2), e_var(y1))),
        );
        let eqs: Vec<Assertion> = vec![
            Assertion::Eq(RealExpr::Var(px), point_x),
            Assertion::Eq(RealExpr::Var(py), point_y),
            Assertion::Ge(e_var(t.clone()), e_const(Rational::from_int(0))),
            Assertion::Le(e_var(t), e_const(Rational::from_int(1))),
        ];
        proof {
            let spec_eqs = self.equations_spec(
                sketch.point_vars_map(),
                sketch.lines_map(),
                sketch.circles_map(),
            )->Some_0;
            assert(eqs@[0]@ == spec_eqs[0]);
            assert(eqs@[1]@ == spec_eqs[1]);
            assert(eqs@[2]@ == spec_eqs[2]);
            assert(eqs@[3]@ == spec_eqs[3]);
            assert(views_of(eqs@) =~= spec_eqs);
            assert(assertion_wf(spec_eqs[0]));
            assert(assertion_wf(spec_eqs[1]));
            assert(assertion_wf(spec_eqs[2]));
            assert(assertion_wf(spec_eqs[3]));
        }
        Ok(eqs)
    }

    fn into_kind(self) -> (r: ConstraintKind) {
        ConstraintKind::PointOnLine(self)
    }

    open spec fn description_spec(&self) -> Seq<char> {
        "Point PointId("@ + self.point.0.raw_seq() + ") lies on line segment LineId("@
            + self.line.0.raw_seq() + ")"@
    }

    fn description(&self) -> (r: String) {
        let mut s = "Point PointId(".to_owned();
        self.point.0.push_raw(&mut s);
        s.append(") lies on line segment LineId(");
        self.line.0.push_raw(&mut s);
        s.append(")");
        s
    }
}

/// Any assignment that satisfies the emitted equations of a point-on-line
/// constraint keeps the placement fraction `t` within `[0, 1]` exactly, and
/// places the point exactly at `start + t*(end - start)`.
pub proof fn lemma_point_on_line_solution(
    c: PointOnLineConstraint,
    points: Map<PointId, (Seq<char>, Seq<char>)>,
    lines: Map<LineId, (PointId, PointId)>,
    circles: Map<CircleId, (PointId, Seq<char>)>,
    env: Env,
)
    requires
        c.equations_spec(points, lines, circles) is Some,
        all_hold(env, c.equations_spec(points, lines, circles)->Some_0),
    ensures
        ratio_le(ratio_int(0), env[t_var_name(c.line, c.point)]),
        ratio_le(env[t_var_name(c.line, c.point)], ratio_int(1)),
        ratio_eq(
            env[points[c.point].0],
            ratio_add(
                env[points[lines[c.line].0].0],
                ratio_mul(
                    env[t_var_name(c.line, c.point)],
                    ratio_sub(env[points[lines[c.line].1].0], env[points[lines[c.line].0].0]),
                ),
            ),
        ),
        ratio_eq(
            env[points[c.point].1],
            ratio_add(
                env[points[lines[c.line].0].1],
                ratio_mul(
                    env[t_var_name(c.line, c.point)],
                    ratio_sub(env[points[lines[c.line].1].1], env[points[lines[c.line].0].1]),
                ),
            ),
        ),
{
    let eqs = c.equations_spec(points, lines, circles)->Some_0;
    reveal_with_fuel(crate::algebra::expr_val, 8);
    assert(holds(env, eqs[0]));
    assert(holds(env, eqs[1]));
    assert(holds(env, eqs[2]));
    assert(holds(env, eqs[3]));
}

} // verus!
