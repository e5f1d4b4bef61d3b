//! Line constraints: target length, parallelism and perpendicularity.

use crate::algebra::{
    all_hold, assertion_wf, e_add, e_const, e_mul, e_sub, e_var, expr_val, expr_wf, holds,
    views_of, Assertion, Env, RealExpr, SpecAssertion, SpecExpr,
};
use crate::constraint::{Constraint, SketchQuery};
use crate::constraints::ConstraintKind;
use crate::decimal::{push_rational, rational_seq};
use crate::entities::point::PointId;
use crate::entity::{CircleId, LineId};
use crate::error::TextCadError;
use crate::rational::{ratio_add, ratio_eq, ratio_int, ratio_mul, ratio_sub, Ratio, Rational};
use vstd::prelude::*;
use vstd::string::StringExecFns;

verus! {

/// The x component of the direction vector of the segment from `s` to `e`,
/// under the assignment `env` and the store content `points`.
pub open spec fn dir_x(
    env: Env,
    points: Map<PointId, (Seq<char>, Seq<char>)>,
    s: PointId,
    e: PointId,
) -> Ratio {
    ratio_sub(env[points[e].0], env[points[s].0])
}

/// The y component of the direction vector of the segment from `s` to `e`.
pub open spec fn dir_y(
    env: Env,
    points: Map<PointId, (Seq<char>, Seq<char>)>,
    s: PointId,
    e: PointId,
) -> Ratio {
    ratio_sub(env[points[e].1], env[points[s].1])
}

/// Sets the length of a line to a target value, in squared-distance form:
/// `(x2-x1)^2 + (y2-y1)^2 == length^2`. The squared form avoids a square
/// root in the solver. A negative or zero target is accepted syntactically;
/// rejecting it is the caller's responsibility.
#[derive(Debug, Clone, Copy, PartialEq, Eq, Structural)]
pub struct LineLengthConstraint {
    /// Line to constrain.
    pub line: LineId,
    /// Target length, in the canonical unit.
    pub length: Rational,
}

impl LineLengthConstraint {
    /// Create a new line-length constraint.
    pub fn new(line: LineId, length: Rational) -> (r: Self)
        requires
            length.wf(),
        ensures
            r.line == line,
            r.length == length,
    {
        LineLengthConstraint { line, length }
    }
}

impl Constraint for LineLengthConstraint {
    open spec fn params_wf(&self) -> bool {
        self.length.wf()
    }

    /// `(x2-x1)^2 + (y2-y1)^2 == length*length`, when the line and both of
    /// its endpoints resolve.
    open spec fn equations_spec(
        &self,
        points: Map<PointId, (Seq<char>, Seq<char>)>,
        lines: Map<LineId, (PointId, PointId)>,
        circles: Map<CircleId, (PointId, Seq<char>)>,
    ) -> Option<Seq<SpecAssertion>> {
        if lines.contains_key(self.line) {
            let s = lines[self.line].0;
            let e = lines[self.line].1;
            if points.contains_key(s) && points.contains_key(e) {
                let dx = SpecExpr::Sub(
                    Box::new(SpecExpr::Var(points[e].0)),
                    Box::new(SpecExpr::Var(points[s].0)),
                );
                let dy = SpecExpr::Sub(
                    Box::new(SpecExpr::Var(points[e].1)),
                    Box::new(SpecExpr::Var(points[s].1)),
                );
                let t = SpecExpr::Const(self.length.ratio());
                Some(
                    seq![
                        SpecAssertion::Eq(
                            SpecExpr::Add(
                                Box::new(SpecExpr::Mul(Box::new(dx), Box::new(dx))),
                                Box::new(SpecExpr::Mul(Box::new(dy), Box::new(dy))),
                            ),
                            SpecExpr::Mul(Box::new(t), Box::new(t)),
                        ),
                    ],
                )
            } else {
                None
            }
        } else {
            None
        }
    }

    open spec fn kind_spec(&self) -> ConstraintKind {
        ConstraintKind::LineLength(*self)
    }

    #[verifier::rlimit(60)]
    fn apply<Q: SketchQuery>(&self, sketch: &Q) -> (r: Result<Vec<Assertion>, TextCadError>) {
        let (start_id, end_id) = match sketch.line_endpoints(self.line) {
            Ok(v) => v,
            Err(e) => {
                return Err(e);
            },
        };
        let (x1, y1) = match sketch.point_variables(start_id) {
            Ok(v) => v,
            Err(e) => {
                return Err(e);
            },
        };
        let (x2, y2) = match sketch.point_variables(end_id) {
            Ok(v) => v,
            Err(e) => {
                return Err(e);
            },
        };
        let dx_a = e_sub(e_var(x2.clone()), e_var(x1.clone()));
        let dx_b = e_sub(e_var(x2), e_var(x1));
        let dy_a = e_sub(e_var(y2.clone()), e_var(y1.clone()));
        let dy_b = e_sub(e_var(y2), e_var(y1));
        let dist_sq = e_add(e_mul(dx_a, dx_b), e_mul(dy_a, dy_b));
        let target_sq = e_mul(e_const(self.length), e_const(self.length));
        let eqs: Vec<Assertion> = vec![Assertion::Eq(dist_sq, target_sq)];
        proof {
            let spec_eqs = self.equations_spec(
                sketch.point_vars_map(),
                sketch.lines_map(),
                sketch.circles_map(),
            )->Some_0;
            assert(eqs@[0]@ == spec_eqs[0]);
            assert(views_of(eqs@) =~= spec_eqs);
            assert(assertion_wf(spec_eqs[0]));
        }
        Ok(eqs)
    }

    fn into_kind(self) -> (r: ConstraintKind) {
        ConstraintKind::LineLength(self)
    }

    open spec fn description_spec(&self) -> Seq<char> {
        "Line LineId("@ + self.line.0.raw_seq() + ") has length "@ + rational_seq(self.length)
            + "m"@
    }

    fn description(&self) -> (r: String) {
        let mut s = "Line LineId(".to_owned();
        self.line.0.push_raw(&mut s);
        s.append(") has length ");
        push_rational(&mut s, self.length);
        s.append("m");
        s
    }
}

/// Any assignment that satisfies the emitted equation of a line-length
/// constraint gives the endpoints a squared distance exactly equal to the
/// squared target.
pub proof fn lemma_line_length_solution(
    c: LineLengthConstraint,
    points: Map<PointId, (Seq<char>, Seq<char>)>,
    lines: Map<LineId, (PointId, PointId)>,
    circles: Map<CircleId, (PointId, Seq<char>)>,
    env: Env,
)
    requires
        c.equations_spec(points, lines, circles) is Some,
        all_hold(env, c.equations_spec(points, lines, circles)->Some_0),
    ensures
        ratio_eq(
            ratio_add(
                ratio_mul(
                    dir_x(env, points, lines[c.line].0, lines[c.line].1),
                    dir_x(env, points, lines[c.line].0, lines[c.line].1),
                ),
                ratio_mul(
                    dir_y(env, points, lines[c.line].0, lines[c.line].1),
                    dir_y(env, points, lines[c.line].0, lines[c.line].1),
                ),
            ),
            ratio_mul(c.length.ratio(), c.length.ratio()),
        ),
{
    let eqs = c.equations_spec(points, lines, circles)->Some_0;
    reveal_with_fuel(expr_val, 8);
    assert(holds(env, eqs[0]));
}

/// Forces two lines to be parallel: the 2D cross product of their direction
/// vectors is asserted zero. A degenerate (zero-length) line has direction
/// `(0, 0)` and satisfies this against any other line.
#[derive(Debug, Clone, Copy, PartialEq, Eq, Structural)]
pub struct ParallelLinesConstraint {
    /// First line to constrain.
    pub line1: LineId,
    /// Second line to constrain.
    pub line2: LineId,
}

impl ParallelLinesConstraint {
    /// Create a new parallel-lines constraint.
    pub fn new(line1: LineId, line2: LineId) -> (r: Self)
        ensures
            r.line1 == line1,
            r.line2 == line2,
    {
        ParallelLinesConstraint { line1, line2 }
    }
}

/// The assertions of both direction-vector constraints share this shape:
/// they read both lines' endpoints and combine the two direction vectors.
/// `combine` is the cross product for parallelism, the dot product for
/// perpendicularity.
fn direction_pair_exprs<Q: SketchQuery>(sketch: &Q, line1: LineId, line2: LineId) -> (r: Result<
    ((RealExpr, RealExpr), (RealExpr, RealExpr)),
    TextCadError,
>)
    ensures
        match r {
            Ok(v) => {
                &&& sketch.lines_map().contains_key(line1)
                &&& sketch.lines_map().contains_key(line2)
                &&& sketch.point_vars_map().contains_key(sketch.lines_map()[line1].0)
                &&& sketch.point_vars_map().contains_key(sketch.lines_map()[line1].1)
                &&& sketch.point_vars_map().contains_key(sketch.lines_map()[line2].0)
                &&& sketch.point_vars_map().contains_key(sketch.lines_map()[line2].1)
                &&& v.0.0@ == dir_expr_x(sketch.point_vars_map(), sketch.lines_map()[line1])
                &&& v.0.1@ == dir_expr_y(sketch.point_vars_map(), sketch.lines_map()[line1])
                &&& v.1.0@ == dir_expr_x(sketch.point_vars_map(), sketch.lines_map()[line2])
                &&& v.1.1@ == dir_expr_y(sketch.point_vars_map(), sketch.lines_map()[line2])
                &&& expr_wf(v.0.0@)
                &&& expr_wf(v.0.1@)
                &&& expr_wf(v.1.0@)
                &&& expr_wf(v.1.1@)
            },
            Err(e) => {
                &&& e is EntityError
                &&& !(sketch.lines_map().contains_key(line1) && sketch.lines_map().contains_key(
                    line2,
                ) && sketch.point_vars_map().contains_key(sketch.lines_map()[line1].0)
                    && sketch.point_vars_map().contains_key(sketch.lines_map()[line1].1)
                    && sketch.point_vars_map().contains_key(sketch.lines_map()[line2].0)
                    && sketch.point_vars_map().contains_key(sketch.lines_map()[line2].1))
            },
        },
{
    let (s1, e1) = match sketch.line_endpoints(line1) {
        Ok(v) => v,
        Err(e) => {
            return Err(e);
        },
    };
    let (s2, e2) = match sketch.line_endpoints(line2) {
        Ok(v) => v,
        Err(e) => {
            return Err(e);
        },
    };
    let (x1s, y1s) = match sketch.point_variables(s1) {
        Ok(v) => v,
        Err(e) => {
            return Err(e);
        },
    };
    let (x1e, y1e) = match sketch.point_variables(e1) {
        Ok(v) => v,
        Err(e) => {
            return Err(e);
        },
    };
    let (x2s, y2s) = match sketch.point_variables(s2) {
        Ok(v) => v,
        Err(e) => {
            return Err(e);
        },
    };
    let (x2e, y2e) = match sketch.point_variables(e2) {
        Ok(v) => v,
        Err(e) => {
            return Err(e);
        },
    };
    let dx1 = e_sub(e_var(x1e), e_var(x1s));
    let dy1 = e_sub(e_var(y1e), e_var(y1s));
    let dx2 = e_sub(e_var(x2e), e_var(x2s));
    let dy2 = e_sub(e_var(y2e), e_var(y2s));
    Ok(((dx1, dy1), (dx2, dy2)))
}

/// The symbolic x component of a line's direction vector.
pub open spec fn dir_expr_x(
    points: Map<PointId, (Seq<char>, Seq<char>)>,
    endpoints: (PointId, PointId),
) -> SpecExpr {
    SpecExpr::Sub(
        Box::new(SpecExpr::Var(points[endpoints.1].0)),
        Box::new(SpecExpr::Var(points[endpoints.0].0)),
    )
}

/// The symbolic y component of a line's direction vector.
pub open spec fn dir_expr_y(
    points: Map<PointId, (Seq<char>, Seq<char>)>,
    endpoints: (PointId, PointId),
) -> SpecExpr {
    SpecExpr::Sub(
        Box::new(SpecExpr::Var(points[endpoints.1].1)),
        Box::new(SpecExpr::Var(points[endpoints.0].1)),
    )
}

impl Constraint for ParallelLinesConstraint {
    open spec fn params_wf(&self) -> bool {
        true
    }

    /// `dx1*dy2 - dy1*dx2 == 0`, when both lines and all four endpoints
    /// resolve.
    open spec fn equations_spec(
        &self,
        points: Map<PointId, (Seq<char>, Seq<char>)>,
        lines: Map<LineId, (PointId, PointId)>,
        circles: Map<CircleId, (PointId, Seq<char>)>,
    ) -> Option<Seq<SpecAssertion>> {
        if lines.contains_key(self.line1) && lines.contains_key(self.line2) && points.contains_key(
            lines[self.line1].0,
        ) && points.contains_key(lines[self.line1].1) && points.contains_key(lines[self.line2].0)
            && points.contains_key(lines[self.line2].1) {
            Some(
                seq![
                    SpecAssertion::Eq(
                        SpecExpr::Sub(
                            Box::new(
                                SpecExpr::Mul(
                                    Box::new(dir_expr_x(points, lines[self.line1])),
                                    Box::new(dir_expr_y(points, lines[self.line2])),
                                ),
                            ),
                            Box::new(
                                SpecExpr::Mul(
                                    Box::new(dir_expr_y(points, lines[self.line1])),
                                    Box::new(dir_expr_x(points, lines[self.line2])),
                                ),
                            ),
                        ),
                        SpecExpr::Const(ratio_int(0)),
                    ),
                ],
            )
        } else {
            None
        }
    }

    open spec fn kind_spec(&self) -> ConstraintKind {
        ConstraintKind::ParallelLines(*self)
    }

    #[verifier::rlimit(60)]
    fn apply<Q: SketchQuery>(&self, sketch: &Q) -> (r: Result<Vec<Assertion>, TextCadError>) {
        let ((dx1, dy1), (dx2, dy2)) = match direction_pair_exprs(sketch, self.line1, self.line2) {
            Ok(v) => v,
            Err(e) => {
                return Err(e);
            },
        };
        let cross = e_sub(e_mul(dx1, dy2), e_mul(dy1, dx2));
        let eqs: Vec<Assertion> = vec![Assertion::Eq(cross, e_const(Rational::from_int(0)))];
        proof {
            let spec_eqs = self.equations_spec(
                sketch.point_vars_map(),
                sketch.lines_map(),
                sketch.circles_map(),
            )->Some_0;
            assert(eqs@[0]@ == spec_eqs[0]);
            assert(views_of(eqs@) =~= spec_eqs);
            assert(assertion_wf(spec_eqs[0]));
        }
        Ok(eqs)
    }

    fn into_kind(self) -> (r: ConstraintKind) {
        ConstraintKind::ParallelLines(self)
    }

    open spec fn description_spec(&self) -> Seq<char> {
        "Lines LineId("@ + self.line1.0.raw_seq() + ") and LineId("@ + self.line2.0.raw_seq()
            + ") are parallel"@
    }

    fn description(&self) -> (r: String) {
        let mut s = "Lines LineId(".to_owned();
        self.line1.0.push_raw(&mut s);
        s.append(") and LineId(");
        self.line2.0.push_raw(&mut s);
        s.append(") are parallel");
        s
    }
}

/// Any assignment that satisfies the emitted equation of a parallel-lines
/// constraint makes the cross product of the two solved direction vectors
/// exactly zero.
pub proof fn lemma_parallel_lines_solution(
    c: ParallelLinesConstraint,
    points: Map<PointId, (Seq<char>, Seq<char>)>,
    lines: Map<LineId, (PointId, PointId)>,
    circles: Map<CircleId, (PointId, Seq<char>)>,
    env: Env,
)
    requires
        c.equations_spec(points, lines, circles) is Some,
        all_hold(env, c.equations_spec(points, lines, circles)->Some_0),
    ensures
        ratio_eq(
            ratio_sub(
                ratio_mul(
                    dir_x(env, points, lines[c.line1].0, lines[c.line1].1),
                    dir_y(env, points, lines[c.line2].0, lines[c.line2].1),
                ),
                ratio_mul(
                    dir_y(env, points, lines[c.line1].0, lines[c.line1].1),
                    dir_x(env, points, lines[c.line2].0, lines[c.line2].1),
                ),
            ),
            ratio_int(0),
        ),
{
    let eqs = c.equations_spec(points, lines, circles)->Some_0;
    reveal_with_fuel(expr_val, 8);
    assert(holds(env, eqs[0]));
}

/// Forces two lines to be perpendicular: the dot product of their direction
/// vectors is asserted zero. A line constrained perpendicular to itself is
/// unsatisfiable unless degenerate.
#[derive(Debug, Clone, Copy, PartialEq, Eq, Structural)]
pub struct PerpendicularLinesConstraint {
    /// First line to constrain.
    pub line1: LineId,
    /// Second line to constrain.
    pub line2: LineId,
}

impl PerpendicularLinesConstraint {
    /// Create a new perpendicular-lines constraint.
    pub fn new(line1: LineId, line2: LineId) -> (r: Self)
        ensures
            r.line1 == line1,
            r.line2 == line2,
    {
        PerpendicularLinesConstraint { line1, line2 }
    }
}

impl Constraint for PerpendicularLinesConstraint {
    open spec fn params_wf(&self) -> bool {
        true
    }

    /// `dx1*dx2 + dy1*dy2 == 0`, when both lines and all four endpoints
    /// resolve.
    open spec fn equations_spec(
        &self,
        points: Map<PointId, (Seq<char>, Seq<char>)>,
        lines: Map<LineId, (PointId, PointId)>,
        circles: Map<CircleId, (PointId, Seq<char>)>,
    ) -> Option<Seq<SpecAssertion>> {
        if lines.contains_key(self.line1) && lines.contains_key(self.line2) && points.contains_key(
            lines[self.line1].0,
        ) && points.contains_key(lines[self.line1].1) && points.contains_key(lines[self.line2].0)
            && points.contains_key(lines[self.line2].1) {
            Some(
                seq![
                    SpecAssertion::Eq(
                        SpecExpr::Add(
                            Box::new(
                                SpecExpr::Mul(
                                    Box::new(dir_expr_x(points, lines[self.line1])),
                                    Box::new(dir_expr_x(points, lines[self.line2])),
                                ),
                            ),
                            Box::new(
                                SpecExpr::Mul(
                                    Box::new(dir_expr_y(points, lines[self.line1])),
                                    Box::new(dir_expr_y(points, lines[self.line2])),
                                ),
                            ),
                        ),
                        SpecExpr::Const(ratio_int(0)),
                    ),
                ],
            )
        } else {
            None
        }
    }

    open spec fn kind_spec(&self) -> ConstraintKind {
        ConstraintKind::PerpendicularLines(*self)
    }

    #[verifier::rlimit(60)]
    fn apply<Q: SketchQuery>(&self, sketch: &Q) -> (r: Result<Vec<Assertion>, TextCadError>) {
        let ((dx1, dy1), (dx2, dy2)) = match direction_pair_exprs(sketch, self.line1, self.line2) {
            Ok(v) => v,
            Err(e) => {
                return Err(e);
            },
        };
        let dot = e_add(e_mul(dx1, dx2), e_mul(dy1, dy2));
        let eqs: Vec<Assertion> = vec![Assertion::Eq(dot, e_const(Rational::from_int(0)))];
        proof {
            let spec_eqs = self.equations_spec(
                sketch.point_vars_map(),
                sketch.lines_map(),
                sketch.circles_map(),
            )->Some_0;
            assert(eqs@[0]@ == spec_eqs[0]);
            assert(views_of(eqs@) =~= spec_eqs);
            assert(assertion_wf(spec_eqs[0]));
        }
        Ok(eqs)
    }

    fn into_kind(self) -> (r: ConstraintKind) {
        ConstraintKind::PerpendicularLines(self)
    }

    open spec fn description_spec(&self) -> Seq<char> {
        "Lines LineId("@ + self.line1.0.raw_seq() + ") and LineId("@ + self.line2.0.raw_seq()
            + ") are perpendicular"@
    }

    fn description(&self) -> (r: String) {
        let mut s = "Lines LineId(".to_owned();
        self.line1.0.push_raw(&mut s);
        s.append(") and LineId(");
        self.line2.0.push_raw(&mut s);
        s.append(") are perpendicular");
        s
    }
}

/// Any assignment that satisfies the emitted equation of a
/// perpendicular-lines constraint makes the dot product of the two solved
/// direction vectors exactly zero.
pub proof fn lemma_perpendicular_lines_solution(
    c: PerpendicularLinesConstraint,
    points: Map<PointId, (Seq<char>, Seq<char>)>,
    lines: Map<LineId, (PointId, PointId)>,
    circles: Map<CircleId, (PointId, Seq<char>)>,
    env: Env,
)
    requires
        c.equations_spec(points, lines, circles) is Some,
        all_hold(env, c.equations_spec(points, lines, circles)->Some_0),
    ensures
        ratio_eq(
            ratio_add(
                ratio_mul(
                    dir_x(env, points, lines[c.line1].0, lines[c.line1].1),
                    dir_x(env, points, lines[c.line2].0, lines[c.line2].1),
                ),
                ratio_mul(
                    dir_y(env, points, lines[c.line1].0, lines[c.line1].1),
                    dir_y(env, points, lines[c.line2].0, lines[c.line2].1),
                ),
            ),
            ratio_int(0),
        ),
{
    let eqs = c.equations_spec(points, lines, circles)->Some_0;
    reveal_with_fuel(expr_val, 8);
    assert(holds(env, eqs[0]));
}

} // verus!
