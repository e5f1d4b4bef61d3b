//! Unit tests for the constraint catalog: construction, application against a
//! store, and failure on unresolvable identifiers.

use textcad::constraint::Constraint;
use textcad::constraints::{
    CircleRadiusConstraint, CoincidentPointsConstraint, FixedPositionConstraint,
    LineLengthConstraint, ParallelLinesConstraint, PerpendicularLinesConstraint,
    PointOnLineConstraint,
};
use textcad::entities::PointId;
use textcad::entity::{CircleId, EntityIndex, LineId};
use textcad::error::TextCadError;
use textcad::rational::Rational;
use textcad::sketch::Sketch;

fn meters(v: f64) -> Rational {
    let mut num = (v * 1_000_000.0).round() as i64;
    let mut den: i64 = 1_000_000;
    let mut a = if num < 0 { -num } else { num };
    let mut b = den;
    while b != 0 {
        let t = a % b;
        a = b;
        b = t;
    }
    if a > 1 {
        num /= a;
        den /= a;
    }
    Rational::new(num, den)
}

#[test]
fn test_coincident_points_constraint_creation() {
    let p1 = PointId(EntityIndex::from_raw_parts(0, 0));
    let p2 = PointId(EntityIndex::from_raw_parts(1, 0));

    let constraint = CoincidentPointsConstraint::new(p1, p2);

    assert_eq!(constraint.point1, p1);
    assert_eq!(constraint.point2, p2);
    assert!(constraint.description().contains("coincident"));
}

#[test]
fn test_fixed_position_constraint_creation() {
    let p = PointId(EntityIndex::from_raw_parts(0, 0));
    let x = meters(1.0);
    let y = meters(2.0);

    let constraint = FixedPositionConstraint::new(p, x, y);

    assert_eq!(constraint.point, p);
    assert_eq!(constraint.x, x);
    assert_eq!(constraint.y, y);
    assert!(constraint.description().contains("fixed"));
    assert!(constraint.description().contains("1m"));
    assert!(constraint.description().contains("2m"));
}

#[test]
fn test_coincident_points_constraint_apply() {
    let mut sketch = Sketch::new();
    let p1 = sketch.add_point(Some("cp1".to_string()));
    let p2 = sketch.add_point(Some("cp2".to_string()));

    let constraint = CoincidentPointsConstraint::new(p1, p2);

    // Two equations: x1 = x2 and y1 = y2.
    let eqs = constraint.apply(&sketch).unwrap();
    assert_eq!(eqs.len(), 2);
}

#[test]
fn test_fixed_position_constraint_apply() {
    let mut sketch = Sketch::new();
    let p = sketch.add_point(Some("fp".to_string()));

    let constraint = FixedPositionConstraint::new(p, meters(3.0), meters(4.0));

    // Two equations: x = 3 and y = 4.
    let eqs = constraint.apply(&sketch).unwrap();
    assert_eq!(eqs.len(), 2);
}

#[test]
fn test_constraint_with_invalid_point() {
    let mut sketch = Sketch::new();
    let p1 = sketch.add_point(Some("only".to_string()));
    let p2 = PointId(EntityIndex::from_raw_parts(999, 999));

    let constraint = CoincidentPointsConstraint::new(p1, p2);

    let result = constraint.apply(&sketch);
    assert!(result.is_err());
    assert!(matches!(result, Err(TextCadError::EntityError(_))));
}

#[test]
fn test_line_length_constraint_creation() {
    let line_id = LineId(EntityIndex::from_raw_parts(0, 0));
    let length = meters(5.0);

    let constraint = LineLengthConstraint::new(line_id, length);

    assert_eq!(constraint.line, line_id);
    assert_eq!(constraint.length, length);
    assert!(constraint.description().contains("5m"));
}

#[test]
fn test_line_length_constraint_apply() {
    let mut sketch = Sketch::new();
    let p1 = sketch.add_point(Some("ll1".to_string()));
    let p2 = sketch.add_point(Some("ll2".to_string()));
    let line_id = sketch.add_line(p1, p2, None);

    let constraint = LineLengthConstraint::new(line_id, meters(3.0));

    // One equation: squared distance equals squared target.
    let eqs = constraint.apply(&sketch).unwrap();
    assert_eq!(eqs.len(), 1);
}

#[test]
fn test_line_length_constraint_with_invalid_line() {
    let sketch = Sketch::new();
    let line_id = LineId(EntityIndex::from_raw_parts(999, 999));

    let constraint = LineLengthConstraint::new(line_id, meters(1.0));

    let result = constraint.apply(&sketch);
    assert!(result.is_err());
    assert!(matches!(result, Err(TextCadError::EntityError(_))));
}

#[test]
fn test_line_length_constraint_with_invalid_points() {
    let mut sketch = Sketch::new();
    let p1 = sketch.add_point(Some("ok".to_string()));
    let p2 = PointId(EntityIndex::from_raw_parts(999, 999));
    let line_id = sketch.add_line(p1, p2, None);

    let constraint = LineLengthConstraint::new(line_id, meters(1.0));

    let result = constraint.apply(&sketch);
    assert!(result.is_err());
    assert!(matches!(result, Err(TextCadError::EntityError(_))));
}

#[test]
fn test_parallel_lines_constraint_creation() {
    let line1_id = LineId(EntityIndex::from_raw_parts(0, 0));
    let line2_id = LineId(EntityIndex::from_raw_parts(1, 0));

    let constraint = ParallelLinesConstraint::new(line1_id, line2_id);

    assert_eq!(constraint.line1, line1_id);
    assert_eq!(constraint.line2, line2_id);
    assert!(constraint.description().contains("parallel"));
}

#[test]
fn test_parallel_lines_constraint_apply() {
    let mut sketch = Sketch::new();
    let p1 = sketch.add_point(Some("pl1".to_string()));
    let p2 = sketch.add_point(Some("pl2".to_string()));
    let p3 = sketch.add_point(Some("pl3".to_string()));
    let p4 = sketch.add_point(Some("pl4".to_string()));
    let line1 = sketch.add_line(p1, p2, None);
    let line2 = sketch.add_line(p3, p4, None);

    let constraint = ParallelLinesConstraint::new(line1, line2);

    // One equation: the cross product of the directions is zero.
    let eqs = constraint.apply(&sketch).unwrap();
    assert_eq!(eqs.len(), 1);
}

#[test]
fn test_perpendicular_lines_constraint_creation() {
    let line1_id = LineId(EntityIndex::from_raw_parts(0, 0));
    let line2_id = LineId(EntityIndex::from_raw_parts(1, 0));

    let constraint = PerpendicularLinesConstraint::new(line1_id, line2_id);

    assert_eq!(constraint.line1, line1_id);
    assert_eq!(constraint.line2, line2_id);
    assert!(constraint.description().contains("perpendicular"));
}

#[test]
fn test_perpendicular_lines_constraint_apply() {
    let mut sketch = Sketch::new();
    let p1 = sketch.add_point(Some("pp1".to_string()));
    let p2 = sketch.add_point(Some("pp2".to_string()));
    let p3 = sketch.add_point(Some("pp3".to_string()));
    let p4 = sketch.add_point(Some("pp4".to_string()));
    let line1 = sketch.add_line(p1, p2, None);
    let line2 = sketch.add_line(p3, p4, None);

    let constraint = PerpendicularLinesConstraint::new(line1, line2);

    // One equation: the dot product of the directions is zero.
    let eqs = constraint.apply(&sketch).unwrap();
    assert_eq!(eqs.len(), 1);
}

#[test]
fn test_parallel_lines_constraint_with_invalid_line() {
    let sketch = Sketch::new();
    let line1_id = LineId(EntityIndex::from_raw_parts(0, 0));
    let line2_id = LineId(EntityIndex::from_raw_parts(999, 999));

    let constraint = ParallelLinesConstraint::new(line1_id, line2_id);

    let result = constraint.apply(&sketch);
    assert!(result.is_err());
    assert!(matches!(result, Err(TextCadError::EntityError(_))));
}

#[test]
fn test_perpendicular_lines_constraint_with_invalid_line() {
    let sketch = Sketch::new();
    let line1_id = LineId(EntityIndex::from_raw_parts(0, 0));
    let line2_id = LineId(EntityIndex::from_raw_parts(999, 999));

    let constraint = PerpendicularLinesConstraint::new(line1_id, line2_id);

    let result = constraint.apply(&sketch);
    assert!(result.is_err());
    assert!(matches!(result, Err(TextCadError::EntityError(_))));
}

#[test]
fn test_parallel_lines_constraint_with_missing_point() {
    let mut sketch = Sketch::new();
    let p1 = sketch.add_point(Some("mp1".to_string()));
    let p2 = sketch.add_point(Some("mp2".to_string()));
    let p3 = sketch.add_point(Some("mp3".to_string()));
    let p4 = PointId(EntityIndex::from_raw_parts(999, 999));
    let line1 = sketch.add_line(p1, p2, None);
    let line2 = sketch.add_line(p3, p4, None);

    let constraint = ParallelLinesConstraint::new(line1, line2);

    let result = constraint.apply(&sketch);
    assert!(result.is_err());
    assert!(matches!(result, Err(TextCadError::EntityError(_))));
}

#[test]
fn test_perpendicular_lines_constraint_with_missing_point() {
    let mut sketch = Sketch::new();
    let p1 = sketch.add_point(Some("mq1".to_string()));
    let p2 = sketch.add_point(Some("mq2".to_string()));
    let p3 = sketch.add_point(Some("mq3".to_string()));
    let p4 = PointId(EntityIndex::from_raw_parts(999, 999));
    let line1 = sketch.add_line(p1, p2, None);
    let line2 = sketch.add_line(p3, p4, None);

    let constraint = PerpendicularLinesConstraint::new(line1, line2);

    let result = constraint.apply(&sketch);
    assert!(result.is_err());
    assert!(matches!(result, Err(TextCadError::EntityError(_))));
}

#[test]
fn test_parallel_lines_constraint_description() {
    let line1_id = LineId(EntityIndex::from_raw_parts(0, 0));
    let line2_id = LineId(EntityIndex::from_raw_parts(1, 0));
    let constraint = ParallelLinesConstraint::new(line1_id, line2_id);

    let description = constraint.description();
    assert!(description.contains("parallel"));
    assert!(description.contains("LineId"));
}

#[test]
fn test_perpendicular_lines_constraint_description() {
    let line1_id = LineId(EntityIndex::from_raw_parts(0, 0));
    let line2_id = LineId(EntityIndex::from_raw_parts(1, 0));
    let constraint = PerpendicularLinesConstraint::new(line1_id, line2_id);

    let description = constraint.description();
    assert!(description.contains("perpendicular"));
    assert!(description.contains("LineId"));
}

#[test]
fn test_parallel_lines_constraint_clone() {
    let line1_id = LineId(EntityIndex::from_raw_parts(0, 0));
    let line2_id = LineId(EntityIndex::from_raw_parts(1, 0));
    let constraint1 = ParallelLinesConstraint::new(line1_id, line2_id);
    let constraint2 = constraint1.clone();

    assert_eq!(constraint1.line1, constraint2.line1);
    assert_eq!(constraint1.line2, constraint2.line2);
    assert_eq!(constraint1.description(), constraint2.description());
}

#[test]
fn test_perpendicular_lines_constraint_clone() {
    let line1_id = LineId(EntityIndex::from_raw_parts(0, 0));
    let line2_id = LineId(EntityIndex::from_raw_parts(1, 0));
    let constraint1 = PerpendicularLinesConstraint::new(line1_id, line2_id);
    let constraint2 = constraint1.clone();

    assert_eq!(constraint1.line1, constraint2.line1);
    assert_eq!(constraint1.line2, constraint2.line2);
    assert_eq!(constraint1.description(), constraint2.description());
}

#[test]
fn test_constraint_debug_format() {
    let line1_id = LineId(EntityIndex::from_raw_parts(0, 0));
    let line2_id = LineId(EntityIndex::from_raw_parts(1, 0));

    let parallel_constraint = ParallelLinesConstraint::new(line1_id, line2_id);
    let perpendicular_constraint = PerpendicularLinesConstraint::new(line1_id, line2_id);

    let _parallel_debug = format!("{:?}", parallel_constraint);
    let _perpendicular_debug = format!("{:?}", perpendicular_constraint);
}

#[test]
fn test_constraint_same_line_ids() {
    let line_id = LineId(EntityIndex::from_raw_parts(0, 0));

    let parallel_constraint = ParallelLinesConstraint::new(line_id, line_id);
    let perpendicular_constraint = PerpendicularLinesConstraint::new(line_id, line_id);

    assert_eq!(parallel_constraint.line1, parallel_constraint.line2);
    assert_eq!(perpendicular_constraint.line1, perpendicular_constraint.line2);
}

#[test]
fn test_point_on_line_constraint_creation() {
    let line_id = LineId(EntityIndex::from_raw_parts(0, 0));
    let point_id = PointId(EntityIndex::from_raw_parts(0, 0));

    let constraint = PointOnLineConstraint::new(line_id, point_id);

    assert_eq!(constraint.line, line_id);
    assert_eq!(constraint.point, point_id);
    assert!(constraint.description().contains("lies on line segment"));
}

#[test]
fn test_point_on_line_constraint_apply() {
    let mut sketch = Sketch::new();
    let p1 = sketch.add_point(Some("pol1".to_string()));
    let p2 = sketch.add_point(Some("pol2".to_string()));
    let p3 = sketch.add_point(Some("pol3".to_string()));
    let line_id = sketch.add_line(p1, p2, None);

    let constraint = PointOnLineConstraint::new(line_id, p3);

    // Four assertions: the two parametric coordinate equations and the two
    // bounds on the placement fraction.
    let eqs = constraint.apply(&sketch).unwrap();
    assert_eq!(eqs.len(), 4);
}

#[test]
fn test_point_on_line_constraint_with_invalid_line() {
    let sketch = Sketch::new();
    let line_id = LineId(EntityIndex::from_raw_parts(999, 999));
    let point_id = PointId(EntityIndex::from_raw_parts(0, 0));

    let constraint = PointOnLineConstraint::new(line_id, point_id);

    let result = constraint.apply(&sketch);
    assert!(result.is_err());
    assert!(matches!(result, Err(TextCadError::EntityError(_))));
}

#[test]
fn test_point_on_line_constraint_with_invalid_point() {
    let mut sketch = Sketch::new();
    let p1 = sketch.add_point(Some("ip1".to_string()));
    let p2 = sketch.add_point(Some("ip2".to_string()));
    let line_id = sketch.add_line(p1, p2, None);
    let point_id = PointId(EntityIndex::from_raw_parts(999, 999));

    let constraint = PointOnLineConstraint::new(line_id, point_id);

    let result = constraint.apply(&sketch);
    assert!(result.is_err());
    assert!(matches!(result, Err(TextCadError::EntityError(_))));
}

#[test]
fn test_point_on_line_constraint_with_invalid_line_endpoints() {
    let mut sketch = Sketch::new();
    let p1 = sketch.add_point(Some("ie1".to_string()));
    let p2 = PointId(EntityIndex::from_raw_parts(999, 999));
    let p3 = sketch.add_point(Some("ie3".to_string()));
    let line_id = sketch.add_line(p1, p2, None);

    let constraint = PointOnLineConstraint::new(line_id, p3);

    let result = constraint.apply(&sketch);
    assert!(result.is_err());
    assert!(matches!(result, Err(TextCadError::EntityError(_))));
}

#[test]
fn test_point_on_line_constraint_description() {
    let line_id = LineId(EntityIndex::from_raw_parts(0, 0));
    let point_id = PointId(EntityIndex::from_raw_parts(1, 0));
    let constraint = PointOnLineConstraint::new(line_id, point_id);

    let description = constraint.description();
    assert!(description.contains("lies on line segment"));
    assert!(description.contains("PointId"));
    assert!(description.contains("LineId"));
}

#[test]
fn test_point_on_line_constraint_clone() {
    let line_id = LineId(EntityIndex::from_raw_parts(0, 0));
    let point_id = PointId(EntityIndex::from_raw_parts(1, 0));
    let constraint1 = PointOnLineConstraint::new(line_id, point_id);
    let constraint2 = constraint1.clone();

    assert_eq!(constraint1.line, constraint2.line);
    assert_eq!(constraint1.point, constraint2.point);
    assert_eq!(constraint1.description(), constraint2.description());
}

#[test]
fn test_point_on_line_constraint_debug_format() {
    let line_id = LineId(EntityIndex::from_raw_parts(0, 0));
    let point_id = PointId(EntityIndex::from_raw_parts(1, 0));
    let constraint = PointOnLineConstraint::new(line_id, point_id);

    let _debug = format!("{:?}", constraint);
}

#[test]
fn test_point_on_line_parameter_name_uniqueness() {
    let mut sketch = Sketch::new();
    let p1 = sketch.add_point(Some("u1".to_string()));
    let p2 = sketch.add_point(Some("u2".to_string()));
    let p3 = sketch.add_point(Some("u3".to_string()));
    let p4 = sketch.add_point(Some("u4".to_string()));
    let line1 = sketch.add_line(p1, p2, None);
    let line2 = sketch.add_line(p3, p4, None);

    let constraint1 = PointOnLineConstraint::new(line1, p3);
    let constraint2 = PointOnLineConstraint::new(line2, p1);

    let eqs1 = constraint1.apply(&sketch).unwrap();
    let eqs2 = constraint2.apply(&sketch).unwrap();

    // Four assertions each; the internal parameters are distinct, so the two
    // emitted systems differ.
    assert_eq!(eqs1.len(), 4);
    assert_eq!(eqs2.len(), 4);
    assert_ne!(eqs1, eqs2);
}

#[test]
fn test_circle_radius_constraint_creation() {
    let mut sketch = Sketch::new();
    let center = sketch.add_point(None);
    let circle = sketch.add_circle(center, None);

    let constraint = CircleRadiusConstraint::new(circle, meters(2.5));

    assert_eq!(constraint.circle, circle);
    assert_eq!(constraint.radius, meters(2.5));
    assert!(constraint.description().contains("5/2"));
}

#[test]
fn test_circle_radius_constraint_with_millimeters() {
    let mut sketch = Sketch::new();
    let center = sketch.add_point(None);
    let circle = sketch.add_circle(center, None);

    // 500 millimeters, normalized to half a canonical unit.
    let constraint = CircleRadiusConstraint::new(circle, Rational::new(500, 1000));

    assert_eq!(
        constraint.radius.num as f64 / constraint.radius.den as f64,
        0.5
    );
}

#[test]
fn test_circle_radius_constraint_apply() {
    let mut sketch = Sketch::new();
    let center = sketch.add_point(Some("cc".to_string()));
    let circle = sketch.add_circle(center, Some("c".to_string()));

    let constraint = CircleRadiusConstraint::new(circle, meters(2.0));

    // One equation: radius equals target.
    let eqs = constraint.apply(&sketch).unwrap();
    assert_eq!(eqs.len(), 1);
}

#[test]
fn test_circle_radius_constraint_with_invalid_circle() {
    let sketch = Sketch::new();
    let circle = CircleId(EntityIndex::from_raw_parts(999, 999));

    let constraint = CircleRadiusConstraint::new(circle, meters(1.0));

    let result = constraint.apply(&sketch);
    assert!(result.is_err());
    assert!(matches!(result, Err(TextCadError::EntityError(_))));
}
