//! The line entity: a composite of two endpoint identifiers.

use crate::decimal::{dec_seq, push_decimal, push_decimal_usize};
use crate::entities::point::PointId;
use crate::entity::LineId;
use vstd::prelude::*;
use vstd::string::StringExecFns;

verus! {

/// A 2D line defined by two endpoint points. It stores no coordinates:
/// geometry is always derived through the referenced points.
#[derive(Debug, Clone)]
pub struct Line {
    /// Unique identifier for this line.
    pub id: LineId,
    /// Starting point of the line.
    pub start: PointId,
    /// Ending point of the line.
    pub end: PointId,
    /// Optional name for debugging and display.
    pub name: Option<String>,
}

impl Line {
    /// Create a new line connecting two points.
    pub fn new(id: LineId, start: PointId, end: PointId, name: Option<String>) -> (r: Line)
        ensures
            r.id == id,
            r.start == start,
            r.end == end,
            r.name == name,
    {
        Line { id, start, end, name }
    }

    /// The display name of this line: its given name, or `Line` followed by
    /// the raw parts of its identifier.
    pub open spec fn display_name_spec(&self) -> Seq<char> {
        match self.name {
            Some(n) => n@,
            None => "Line"@ + dec_seq(self.id.0.index as nat) + "_"@ + dec_seq(
                self.id.0.generation as nat,
            ),
        }
    }

    /// Get the line's name, or a default derived from its identifier.
    pub fn display_name(&self) -> (r: String)
        ensures
            r@ == self.display_name_spec(),
    {
        match &self.name {
            Some(n) => n.clone(),
            None => {
                let mut s = "Line".to_owned();
                push_decimal_usize(&mut s, self.id.0.index);
                s.append("_");
                push_decimal(&mut s, self.id.0.generation);
                s
            },
        }
    }

    /// Get both endpoint identifiers as a tuple.
    pub fn endpoints(&self) -> (r: (PointId, PointId))
        ensures
            r == (self.start, self.end),
    {
        (self.start, self.end)
    }

    /// Whether `point_id` is one of this line's endpoints.
    pub fn contains_point(&self, point_id: PointId) -> (r: bool)
        ensures
            r == (self.start == point_id || self.end == point_id),
    {
        self.start == point_id || self.end == point_id
    }
}

} // verus!

use crate::constraints::{
    LineLengthConstraint, ParallelLinesConstraint, PerpendicularLinesConstraint,
};
use crate::rational::Rational;

verus! {

impl Line {
    /// Create a constraint that fixes this line to a specific length.
    pub fn length_equals(&self, length: Rational) -> (r: LineLengthConstraint)
        requires
            length.wf(),
        ensures
            r.line == self.id,
            r.length == length,
    {
        LineLengthConstraint::new(self.id, length)
    }

    /// Create a constraint that forces this line to be parallel to another.
    pub fn parallel_to(&self, other: &Line) -> (r: ParallelLinesConstraint)
        ensures
            r.line1 == self.id,
            r.line2 == other.id,
    {
        ParallelLinesConstraint::new(self.id, other.id)
    }

    /// Create a constraint that forces this line to be perpendicular to
    /// another.
    pub fn perpendicular_to(&self, other: &Line) -> (r: PerpendicularLinesConstraint)
        ensures
            r.line1 == self.id,
            r.line2 == other.id,
    {
        PerpendicularLinesConstraint::new(self.id, other.id)
    }
}

} // verus!
