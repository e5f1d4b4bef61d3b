//! Geometric entities: points, lines and circles.

pub mod circle;
pub mod line;
pub mod point;

pub use circle::Circle;
pub use line::Line;
pub use point::{Point2D, PointId};
