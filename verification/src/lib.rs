//! A constraint-based 2D sketch library: geometric entities (points, lines,
//! circles) and declarative relationships between them are translated into
//! exact algebraic equations, handed to the Z3 solver, and the solved model is
//! read back as exact rational values.

pub mod algebra;
pub mod backend;
pub mod constraint;
pub mod constraints;
pub mod decimal;
pub mod entities;
pub mod entity;
pub mod error;
pub mod expr;
pub mod names;
pub mod rational;
pub mod solution;
pub mod sketch;
pub mod solver;

pub use backend::SatStatus;
pub use constraint::{Constraint, ConstraintFactory, SketchQuery};
pub use constraints::{
    CoincidentPointsConstraint, FixedPositionConstraint, LineLengthConstraint,
    ParallelLinesConstraint, PerpendicularLinesConstraint,
};
pub use entities::{Line, Point2D, PointId};
pub use entity::{CircleId, EntityIndex, LineId};
pub use error::{SolverResult, TextCadError};
pub use expr::{BinaryOperator, Expr, Lexer, Parser, UnaryOperator};
pub use sketch::Sketch;
pub use solution::{CircleParameters, LineParameters, Solution};
