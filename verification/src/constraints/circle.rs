//! Circle constraints: target radius.

use crate::algebra::{
    all_hold, holds, views_of, Assertion, Env, RealExpr, SpecAssertion, SpecExpr,
};
use crate::constraint::{Constraint, SketchQuery};
use crate::constraints::ConstraintKind;
use crate::decimal::{push_rational, rational_seq};
use crate::entities::point::PointId;
use crate::entity::{CircleId, LineId};
use crate::error::TextCadError;
use crate::rational::{ratio_eq, Rational};
use vstd::prelude::*;
use vstd::string::StringExecFns;

verus! {

/// Sets the radius of a circle to a target value: `radius == target`.
#[derive(Debug, Clone, Copy, PartialEq, Eq, Structural)]
pub struct CircleRadiusConstraint {
    /// Circle to constrain.
    pub circle: CircleId,
    /// Target radius, in the canonical unit.
    pub radius: Rational,
}

impl CircleRadiusConstraint {
    /// Create a new circle-radius constraint.
    pub fn new(circle: CircleId, radius: Rational) -> (r: Self)
        requires
            radius.wf(),
        ensures
            r.circle == circle,
            r.radius == radius,
    {
        CircleRadiusConstraint { circle, radius }
    }
}

impl Constraint for CircleRadiusConstraint {
    open spec fn params_wf(&self) -> bool {
        self.radius.wf()
    }

    /// `radius == target`, when the circle resolves.
    open spec fn equations_spec(
        &self,
        points: Map<PointId, (Seq<char>, Seq<char>)>,
        lines: Map<LineId, (PointId, PointId)>,
        circles: Map<CircleId, (PointId, Seq<char>)>,
    ) -> Option<Seq<SpecAssertion>> {
        if circles.contains_key(self.circle) {
            Some(
                seq![
                    SpecAssertion::Eq(
                        SpecExpr::Var(circles[self.circle].1),
                        SpecExpr::Const(self.radius.ratio()),
                    ),
                ],
            )
        } else {
            None
        }
    }

    open spec fn kind_spec(&self) -> ConstraintKind {
        ConstraintKind::CircleRadius(*self)
    }

    fn apply<Q: SketchQuery>(&self, sketch: &Q) -> (r: Result<Vec<Assertion>, TextCadError>) {
        let (_center, radius_var) = match sketch.circle_center_and_radius(self.circle) {
            Ok(v) => v,
            Err(e) => {
                return Err(e);
            },
        };
        let eqs: Vec<Assertion> = vec![
            Assertion::Eq(RealExpr::Var(radius_var), RealExpr::Const(self.radius)),
        ];
        proof {
            assert(views_of(eqs@) =~= self.equations_spec(
                sketch.point_vars_map(),
                sketch.lines_map(),
                sketch.circles_map(),
            )->Some_0);
        }
        Ok(eqs)
    }

    fn into_kind(self) -> (r: ConstraintKind) {
        ConstraintKind::CircleRadius(self)
    }

    open spec fn description_spec(&self) -> Seq<char> {
        "Circle CircleId("@ + self.circle.0.raw_seq() + ") has radius "@ + rational_seq(
            self.radius,
        ) + " meters"@
    }

    fn description(&self) -> (r: String) {
        let mut s = "Circle CircleId(".to_owned();
        self.circle.0.push_raw(&mut s);
        s.append(") has radius ");
        push_rational(&mut s, self.radius);
        s.append(" meters");
        s
    }
}

/// Any assignment that satisfies the emitted equation of a circle-radius
/// constraint gives the radius unknown exactly the target value.
pub proof fn lemma_circle_radius_solution(
    c: CircleRadiusConstraint,
    points: Map<PointId, (Seq<char>, Seq<char>)>,
    lines: Map<LineId, (PointId, PointId)>,
    circles: Map<CircleId, (PointId, Seq<char>)>,
    env: Env,
)
    requires
        c.equations_spec(points, lines, circles) is Some,
        all_hold(env, c.equations_spec(points, lines, circles)->Some_0),
    ensures
        ratio_eq(env[circles[c.circle].1], c.radius.ratio()),
{
    let eqs = c.equations_spec(points, lines, circles)->Some_0;
    assert(holds(env, eqs[0]));
}

} // verus!
