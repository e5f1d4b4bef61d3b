//! The constraint catalog: each kind encodes one geometric relationship as an
//! equation or inequality system over entity unknowns.

pub mod basic;
pub mod circle;
pub mod line;
pub mod parametric;

pub use basic::{CoincidentPointsConstraint, FixedPositionConstraint};
pub use circle::CircleRadiusConstraint;
pub use line::{LineLengthConstraint, ParallelLinesConstraint, PerpendicularLinesConstraint};
pub use parametric::PointOnLineConstraint;

use crate::algebra::{assertions_wf, views_of, Assertion, SpecAssertion};
use crate::constraint::{Constraint, SketchQuery};
use crate::entities::point::PointId;
use crate::entity::{CircleId, LineId};
use crate::error::TextCadError;
use vstd::prelude::*;

verus! {

/// The closed storage form of a constraint: one variant per catalog kind.
/// The sketch holds its accumulated constraints in this form and dispatches
/// on it when applying them.
#[derive(Debug, Clone, Copy, PartialEq, Eq, Structural)]
pub enum ConstraintKind {
    FixedPosition(FixedPositionConstraint),
    CoincidentPoints(CoincidentPointsConstraint),
    LineLength(LineLengthConstraint),
    ParallelLines(ParallelLinesConstraint),
    PerpendicularLines(PerpendicularLinesConstraint),
    PointOnLine(PointOnLineConstraint),
    CircleRadius(CircleRadiusConstraint),
}

/// The stored constraint's parameters denote numbers.
pub open spec fn kind_params_wf(k: ConstraintKind) -> bool {
    match k {
        ConstraintKind::FixedPosition(c) => c.x.wf() && c.y.wf(),
        ConstraintKind::CoincidentPoints(_) => true,
        ConstraintKind::LineLength(c) => c.length.wf(),
        ConstraintKind::ParallelLines(_) => true,
        ConstraintKind::PerpendicularLines(_) => true,
        ConstraintKind::PointOnLine(_) => true,
        ConstraintKind::CircleRadius(c) => c.radius.wf(),
    }
}

/// The assertions a stored constraint emits against the given store content;
/// `None` exactly when a referenced identifier is absent.
pub open spec fn kind_equations(
    k: ConstraintKind,
    points: Map<PointId, (Seq<char>, Seq<char>)>,
    lines: Map<LineId, (PointId, PointId)>,
    circles: Map<CircleId, (PointId, Seq<char>)>,
) -> Option<Seq<SpecAssertion>> {
    match k {
        ConstraintKind::FixedPosition(c) => c.equations_spec(points, lines, circles),
        ConstraintKind::CoincidentPoints(c) => c.equations_spec(points, lines, circles),
        ConstraintKind::LineLength(c) => c.equations_spec(points, lines, circles),
        ConstraintKind::ParallelLines(c) => c.equations_spec(points, lines, circles),
        ConstraintKind::PerpendicularLines(c) => c.equations_spec(points, lines, circles),
        ConstraintKind::PointOnLine(c) => c.equations_spec(points, lines, circles),
        ConstraintKind::CircleRadius(c) => c.equations_spec(points, lines, circles),
    }
}

/// Apply one stored constraint by dispatching to its kind.
pub fn apply_kind<Q: SketchQuery>(k: &ConstraintKind, sketch: &Q) -> (r: Result<
    Vec<Assertion>,
    TextCadError,
>)
    requires
        kind_params_wf(*k),
    ensures
        match r {
            Ok(eqs) => kind_equations(
                *k,
                sketch.point_vars_map(),
                sketch.lines_map(),
                sketch.circles_map(),
            ) == Some(views_of(eqs@)) && assertions_wf(views_of(eqs@)),
            Err(e) => kind_equations(
                *k,
                sketch.point_vars_map(),
                sketch.lines_map(),
                sketch.circles_map(),
            ) is None && e is EntityError,
        },
{
    match k {
        ConstraintKind::FixedPosition(c) => c.apply(sketch),
        ConstraintKind::CoincidentPoints(c) => c.apply(sketch),
        ConstraintKind::LineLength(c) => c.apply(sketch),
        ConstraintKind::ParallelLines(c) => c.apply(sketch),
        ConstraintKind::PerpendicularLines(c) => c.apply(sketch),
        ConstraintKind::PointOnLine(c) => c.apply(sketch),
        ConstraintKind::CircleRadius(c) => c.apply(sketch),
    }
}

} // verus!
