//! Basic point constraints: fixed position and coincidence.

use crate::algebra::{
    all_hold, holds, views_of, Assertion, Env, RealExpr, SpecAssertion, SpecExpr,
};
use crate::constraint::{Constraint, SketchQuery};
use crate::constraints::ConstraintKind;
use crate::decimal::{push_rational, rational_seq};
use crate::entities::point::PointId;
use crate::entity::{CircleId, LineId};
use crate::error::TextCadError;
use crate::rational::{ratio_eq, Rational};
use vstd::prelude::*;
use vstd::string::StringExecFns;

verus! {

/// Makes two points coincident: their coordinates are asserted equal.
#[derive(Debug, Clone, Copy, PartialEq, Eq, Structural)]
pub struct CoincidentPointsConstraint {
    /// First point to make coincident.
    pub point1: PointId,
    /// Second point to make coincident.
    pub point2: PointId,
}

impl CoincidentPointsConstraint {
    /// Create a new coincident-points constraint.
    pub fn new(point1: PointId, point2: PointId) -> (r: Self)
        ensures
            r.point1 == point1,
            r.point2 == point2,
    {
        CoincidentPointsConstraint { point1, point2 }
    }
}

impl Constraint for CoincidentPointsConstraint {
    open spec fn params_wf(&self) -> bool {
        true
    }

    /// `x1 == x2` and `y1 == y2`, when both points resolve.
    open spec fn equations_spec(
        &self,
        points: Map<PointId, (Seq<char>, Seq<char>)>,
        lines: Map<LineId, (PointId, PointId)>,
        circles: Map<CircleId, (PointId, Seq<char>)>,
    ) -> Option<Seq<SpecAssertion>> {
        if points.contains_key(self.point1) && points.contains_key(self.point2) {
            Some(
                seq![
                    SpecAssertion::Eq(
                        SpecExpr::Var(points[self.point1].0),
                        SpecExpr::Var(points[self.point2].0),
                    ),
                    SpecAssertion::Eq(
                        SpecExpr::Var(points[self.point1].1),
                        SpecExpr::Var(points[self.point2].1),
                    ),
                ],
            )
        } else {
            None
        }
    }

    open spec fn kind_spec(&self) -> ConstraintKind {
        ConstraintKind::CoincidentPoints(*self)
    }

    fn apply<Q: SketchQuery>(&self, sketch: &Q) -> (r: Result<Vec<Assertion>, TextCadError>) {
        let (x1, y1) = match sketch.point_variables(self.point1) {
            Ok(v) => v,
            Err(e) => {
                return Err(e);
            },
        };
        let (x2, y2) = match sketch.point_variables(self.point2) {
            Ok(v) => v,
            Err(e) => {
                return Err(e);
            },
        };
        let eqs: Vec<Assertion> = vec![
            Assertion::Eq(RealExpr::Var(x1), RealExpr::Var(x2)),
            Assertion::Eq(RealExpr::Var(y1), RealExpr::Var(y2)),
        ];
        proof {
            assert(views_of(eqs@) =~= self.equations_spec(
                sketch.point_vars_map(),
                sketch.lines_map(),
                sketch.circles_map(),
            )->Some_0);
        }
        Ok(eqs)
    }

    fn into_kind(self) -> (r: ConstraintKind) {
        ConstraintKind::CoincidentPoints(self)
    }

    open spec fn description_spec(&self) -> Seq<char> {
        "Points PointId("@ + self.point1.0.raw_seq() + ") and PointId("@ + self.point2.0.raw_seq()
            + ") are coincident"@
    }

    fn description(&self) -> (r: String) {
        let mut s = "Points PointId(".to_owned();
        self.point1.0.push_raw(&mut s);
        s.append(") and PointId(");
        self.point2.0.push_raw(&mut s);
        s.append(") are coincident");
        s
    }
}

/// Any assignment that satisfies the emitted equations of a coincident-points
/// constraint gives both points equal coordinates, exactly.
pub proof fn lemma_coincident_points_solution(
    c: CoincidentPointsConstraint,
    points: Map<PointId, (Seq<char>, Seq<char>)>,
    lines: Map<LineId, (PointId, PointId)>,
    circles: Map<CircleId, (PointId, Seq<char>)>,
    env: Env,
)
    requires
        c.equations_spec(points, lines, circles) is Some,
        all_hold(env, c.equations_spec(points, lines, circles)->Some_0),
    ensures
        ratio_eq(env[points[c.point1].0], env[points[c.point2].0]),
        ratio_eq(env[points[c.point1].1], env[points[c.point2].1]),
{
    let eqs = c.equations_spec(points, lines, circles)->Some_0;
    assert(holds(env, eqs[0]));
    assert(holds(env, eqs[1]));
}

/// Fixes a point at given coordinates.
#[derive(Debug, Clone, Copy, PartialEq, Eq, Structural)]
pub struct FixedPositionConstraint {
    /// Point to fix in position.
    pub point: PointId,
    /// Target x coordinate, in the canonical unit.
    pub x: Rational,
    /// Target y coordinate, in the canonical unit.
    pub y: Rational,
}

impl FixedPositionConstraint {
    /// Create a new fixed-position constraint.
    pub fn new(point: PointId, x: Rational, y: Rational) -> (r: Self)
        requires
            x.wf(),
            y.wf(),
        ensures
            r.point == point,
            r.x == x,
            r.y == y,
    {
        FixedPositionConstraint { point, x, y }
    }
}

impl Constraint for FixedPositionConstraint {
    open spec fn params_wf(&self) -> bool {
        self.x.wf() && self.y.wf()
    }

    /// `x == targetX` and `y == targetY`, when the point resolves.
    open spec fn equations_spec(
        &self,
        points: Map<PointId, (Seq<char>, Seq<char>)>,
        lines: Map<LineId, (PointId, PointId)>,
        circles: Map<CircleId, (PointId, Seq<char>)>,
    ) -> Option<Seq<SpecAssertion>> {
        if points.contains_key(self.point) {
            Some(
                seq![
                    SpecAssertion::Eq(
                        SpecExpr::Var(points[self.point].0),
                        SpecExpr::Const(self.x.ratio()),
                    ),
                    SpecAssertion::Eq(
                        SpecExpr::Var(points[self.point].1),
                        SpecExpr::Const(self.y.ratio()),
                    ),
                ],
            )
        } else {
            None
        }
    }

    open spec fn kind_spec(&self) -> ConstraintKind {
        ConstraintKind::FixedPosition(*self)
    }

    fn apply<Q: SketchQuery>(&self, sketch: &Q) -> (r: Result<Vec<Assertion>, TextCadError>) {
        let (px, py) = match sketch.point_variables(self.point) {
            Ok(v) => v,
            Err(e) => {
                return Err(e);
            },
        };
        let eqs: Vec<Assertion> = vec![
            Assertion::Eq(RealExpr::Var(px), RealExpr::Const(self.x)),
            Assertion::Eq(RealExpr::Var(py), RealExpr::Const(self.y)),
        ];
        proof {
            assert(views_of(eqs@) =~= self.equations_spec(
                sketch.point_vars_map(),
                sketch.lines_map(),
                sketch.circles_map(),
            )->Some_0);
        }
        Ok(eqs)
    }

    fn into_kind(self) -> (r: ConstraintKind) {
        ConstraintKind::FixedPosition(self)
    }

    open spec fn description_spec(&self) -> Seq<char> {
        "Point PointId("@ + self.point.0.raw_seq() + ") is fixed at position ("@ + rational_seq(
            self.x,
        ) + "m, "@ + rational_seq(self.y) + "m)"@
    }

    fn description(&self) -> (r: String) {
        let mut s = "Point PointId(".to_owned();
        self.point.0.push_raw(&mut s);
        s.append(") is fixed at position (");
        push_rational(&mut s, self.x);
        s.append("m, ");
        push_rational(&mut s, self.y);
        s.append("m)");
        s
    }
}

/// Any assignment that satisfies the emitted equations of a fixed-position
/// constraint gives the point exactly the target coordinates.
pub proof fn lemma_fixed_position_solution(
    c: FixedPositionConstraint,
    points: Map<PointId, (Seq<char>, Seq<char>)>,
    lines: Map<LineId, (PointId, PointId)>,
    circles: Map<CircleId, (PointId, Seq<char>)>,
    env: Env,
)
    requires
        c.equations_spec(points, lines, circles) is Some,
        all_hold(env, c.equations_spec(points, lines, circles)->Some_0),
    ensures
        ratio_eq(env[points[c.point].0], c.x.ratio()),
        ratio_eq(env[points[c.point].1], c.y.ratio()),
{
    let eqs = c.equations_spec(points, lines, circles)->Some_0;
    assert(holds(env, eqs[0]));
    assert(holds(env, eqs[1]));
}

} // verus!
