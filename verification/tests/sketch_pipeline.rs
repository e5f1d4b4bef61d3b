//! Integration tests for the sketch orchestrator: entity management, raw
//! solver access, constraint solving and solution extraction.

use textcad::backend::SatStatus;
use textcad::constraint::SketchQuery;
use textcad::constraints::{CoincidentPointsConstraint, FixedPositionConstraint};
use textcad::entities::PointId;
use textcad::entity::{EntityIndex, LineId};
use textcad::error::TextCadError;
use textcad::rational::Rational;
use textcad::sketch::Sketch;
use z3::ast::{Ast, Real};

fn meters(v: f64) -> Rational {
    let mut num = (v * 1_000_000.0).round() as i64;
    let mut den: i64 = 1_000_000;
    let mut a = if num < 0 { -num } else { num };
    let mut b = den;
    while b != 0 {
        let t = a % b;
        a = b;
        b = t;
    }
    if a > 1 {
        num /= a;
        den /= a;
    }
    Rational::new(num, den)
}

fn to_f64(q: Rational) -> f64 {
    q.num as f64 / q.den as f64
}

#[test]
fn test_sketch_creation() {
    let sketch = Sketch::new();

    assert_eq!(sketch.solver().get_assertions().len(), 0);
}

#[test]
fn test_simple_equation() {
    let mut sketch = Sketch::new();

    // Create equation: x + 2 = 5
    let x = Real::new_const("x");
    let two = Real::from_rational_str("2", "1").unwrap();
    let five = Real::from_rational_str("5", "1").unwrap();

    let equation = Real::add(&[x.clone(), two])._eq(&five);
    sketch.solver().assert(&equation);

    let result = sketch.check().unwrap();
    assert_eq!(result, SatStatus::Sat);

    // Extract solution and verify x = 3
    let model = sketch.solver().get_model().unwrap();
    let x_value = model.eval(&x, true).unwrap();
    let (num, den) = x_value.as_rational().unwrap();
    assert_eq!((num, den), (3, 1));
}

#[test]
fn test_unsatisfiable_constraint() {
    let mut sketch = Sketch::new();

    // Unsatisfiable constraints: x > 5 AND x < 3
    let x = Real::new_const("x_unsat");
    let three = Real::from_rational_str("3", "1").unwrap();
    let five = Real::from_rational_str("5", "1").unwrap();

    sketch.solver().assert(&x.gt(&five));
    sketch.solver().assert(&x.lt(&three));

    let result = sketch.solve();
    assert!(matches!(result, Err(TextCadError::OverConstrained)));
}

#[test]
fn test_multiple_variables() {
    let mut sketch = Sketch::new();

    // System: x + y = 10, x - y = 2; solution: x = 6, y = 4
    let x = Real::new_const("mv_x");
    let y = Real::new_const("mv_y");
    let ten = Real::from_rational_str("10", "1").unwrap();
    let two = Real::from_rational_str("2", "1").unwrap();

    let eq1 = Real::add(&[x.clone(), y.clone()])._eq(&ten);
    let eq2 = Real::sub(&[x.clone(), y.clone()])._eq(&two);
    sketch.solver().assert(&eq1);
    sketch.solver().assert(&eq2);

    let result = sketch.check().unwrap();
    assert_eq!(result, SatStatus::Sat);

    let model = sketch.solver().get_model().unwrap();
    let x_value = model.eval(&x, true).unwrap().as_rational().unwrap();
    let y_value = model.eval(&y, true).unwrap().as_rational().unwrap();

    assert_eq!(x_value, (6, 1));
    assert_eq!(y_value, (4, 1));
}

#[test]
fn test_point_creation() {
    let mut sketch = Sketch::new();

    let p1 = sketch.add_point(Some("p1".to_string()));
    let p2 = sketch.add_point(Some("p2".to_string()));

    assert_ne!(p1, p2);
    assert!(sketch.get_point(p1).is_some());
    assert!(sketch.get_point(p2).is_some());

    let point1 = sketch.get_point(p1).unwrap();
    assert_eq!(point1.id, p1);
    assert_eq!(point1.name, Some("p1".to_string()));
    let point2 = sketch.get_point(p2).unwrap();
    assert_eq!(point2.id, p2);
    assert_eq!(point2.name, Some("p2".to_string()));
}

#[test]
fn sketch_test_point_creation_without_name() {
    let mut sketch = Sketch::new();

    let p = sketch.add_point(None);
    let point = sketch.get_point(p).unwrap();

    assert_eq!(point.id, p);
    assert_eq!(point.name, None);
    assert!(point.display_name().starts_with("Point"));
}

#[test]
fn test_multiple_points_distinct_ids() {
    let mut sketch = Sketch::new();

    let p1 = sketch.add_point(Some("p1".to_string()));
    let p2 = sketch.add_point(Some("p2".to_string()));
    let p3 = sketch.add_point(Some("p3".to_string()));

    assert_ne!(p1, p2);
    assert_ne!(p2, p3);
    assert_ne!(p1, p3);

    assert!(sketch.get_point(p1).is_some());
    assert!(sketch.get_point(p2).is_some());
    assert!(sketch.get_point(p3).is_some());

    let point1 = sketch.get_point(p1).unwrap();
    let point2 = sketch.get_point(p2).unwrap();
    let point3 = sketch.get_point(p3).unwrap();

    assert!(point1.x.contains("p1_x"));
    assert!(point2.x.contains("p2_x"));
    assert!(point3.x.contains("p3_x"));
}

#[test]
fn test_point_z3_variable_names() {
    let mut sketch = Sketch::new();

    let p1 = sketch.add_point(Some("test_point".to_string()));
    let point = sketch.get_point(p1).unwrap();

    assert!(point.x.contains("test_point_x"));
    assert!(point.y.contains("test_point_y"));
}

#[test]
fn sketch_test_get_nonexistent_point() {
    let sketch = Sketch::new();

    let fake_id = PointId::from(EntityIndex::from_raw_parts(999, 999));

    assert!(sketch.get_point(fake_id).is_none());
}

#[test]
fn test_single_point_fixed_position() {
    let mut sketch = Sketch::new();

    let p1 = sketch.add_point(Some("p1".to_string()));
    let constraint = FixedPositionConstraint::new(p1, meters(3.0), meters(4.0));
    sketch.add_constraint(constraint);

    let mut solution = sketch.solve_and_extract().unwrap();
    let (x, y) = solution.get_point_coordinates(p1).unwrap();

    assert!((to_f64(x) - 3.0).abs() < 1e-6);
    assert!((to_f64(y) - 4.0).abs() < 1e-6);

    // Repeated extraction is idempotent: bit-identical cached results.
    let again = solution
        .extract_point_coordinates(p1, "p1_x", "p1_y")
        .unwrap();
    assert_eq!(again, (x, y));
}

#[test]
fn test_coincident_points_constraint() {
    let mut sketch = Sketch::new();

    let p1 = sketch.add_point(Some("p1".to_string()));
    let p2 = sketch.add_point(Some("p2".to_string()));

    sketch.add_constraint(FixedPositionConstraint::new(p1, meters(1.0), meters(2.0)));
    sketch.add_constraint(CoincidentPointsConstraint::new(p1, p2));

    let solution = sketch.solve_and_extract().unwrap();
    let (x1, y1) = solution.get_point_coordinates(p1).unwrap();
    let (x2, y2) = solution.get_point_coordinates(p2).unwrap();

    assert!((to_f64(x1) - 1.0).abs() < 1e-6);
    assert!((to_f64(y1) - 2.0).abs() < 1e-6);
    assert!((to_f64(x1) - to_f64(x2)).abs() < 1e-6);
    assert!((to_f64(y1) - to_f64(y2)).abs() < 1e-6);
}

#[test]
fn test_overconstrainted_system() {
    let mut sketch = Sketch::new();

    let p1 = sketch.add_point(Some("p1".to_string()));

    sketch.add_constraint(FixedPositionConstraint::new(p1, meters(1.0), meters(1.0)));
    sketch.add_constraint(FixedPositionConstraint::new(p1, meters(2.0), meters(2.0)));

    let result = sketch.solve_and_extract();
    assert!(result.is_err());
    assert!(matches!(result.unwrap_err(), TextCadError::OverConstrained));
}

#[test]
fn test_line_creation() {
    let mut sketch = Sketch::new();

    let p1 = sketch.add_point(Some("p1".to_string()));
    let p2 = sketch.add_point(Some("p2".to_string()));
    let line = sketch.add_line(p1, p2, Some("line1".to_string()));

    assert!(sketch.get_line(line).is_some());

    let line_obj = sketch.get_line(line).unwrap();
    assert_eq!(line_obj.id, line);
    assert_eq!(line_obj.start, p1);
    assert_eq!(line_obj.end, p2);
    assert_eq!(line_obj.name, Some("line1".to_string()));
}

#[test]
fn sketch_test_line_creation_without_name() {
    let mut sketch = Sketch::new();

    let p1 = sketch.add_point(None);
    let p2 = sketch.add_point(None);
    let line = sketch.add_line(p1, p2, None);

    let line_obj = sketch.get_line(line).unwrap();
    assert_eq!(line_obj.id, line);
    assert_eq!(line_obj.start, p1);
    assert_eq!(line_obj.end, p2);
    assert_eq!(line_obj.name, None);
    assert!(line_obj.display_name().starts_with("Line"));
}

#[test]
fn test_multiple_lines_distinct_ids() {
    let mut sketch = Sketch::new();

    let p1 = sketch.add_point(Some("p1".to_string()));
    let p2 = sketch.add_point(Some("p2".to_string()));
    let p3 = sketch.add_point(Some("p3".to_string()));

    let line1 = sketch.add_line(p1, p2, Some("line1".to_string()));
    let line2 = sketch.add_line(p2, p3, Some("line2".to_string()));
    let line3 = sketch.add_line(p1, p3, Some("line3".to_string()));

    assert_ne!(line1, line2);
    assert_ne!(line2, line3);
    assert_ne!(line1, line3);

    assert!(sketch.get_line(line1).is_some());
    assert!(sketch.get_line(line2).is_some());
    assert!(sketch.get_line(line3).is_some());

    assert_eq!(sketch.get_line(line1).unwrap().endpoints(), (p1, p2));
    assert_eq!(sketch.get_line(line2).unwrap().endpoints(), (p2, p3));
    assert_eq!(sketch.get_line(line3).unwrap().endpoints(), (p1, p3));
}

#[test]
fn test_get_nonexistent_line() {
    let sketch = Sketch::new();

    let fake_id = LineId::from(EntityIndex::from_raw_parts(999, 999));

    assert!(sketch.get_line(fake_id).is_none());
}

#[test]
fn test_line_endpoints_query() {
    let mut sketch = Sketch::new();

    let p1 = sketch.add_point(Some("p1".to_string()));
    let p2 = sketch.add_point(Some("p2".to_string()));
    let line = sketch.add_line(p1, p2, Some("test_line".to_string()));

    let endpoints = sketch.line_endpoints(line).unwrap();
    assert_eq!(endpoints, (p1, p2));
}

#[test]
fn test_line_endpoints_query_invalid_line() {
    let sketch = Sketch::new();

    let fake_line_id = LineId::from(EntityIndex::from_raw_parts(999, 999));

    let result = sketch.line_endpoints(fake_line_id);
    assert!(result.is_err());
    assert!(matches!(result, Err(TextCadError::EntityError(_))));
}

#[test]
fn sketch_test_line_contains_point() {
    let mut sketch = Sketch::new();

    let p1 = sketch.add_point(Some("p1".to_string()));
    let p2 = sketch.add_point(Some("p2".to_string()));
    let p3 = sketch.add_point(Some("p3".to_string()));

    let line = sketch.add_line(p1, p2, Some("test_line".to_string()));
    let line_obj = sketch.get_line(line).unwrap();

    assert!(line_obj.contains_point(p1));
    assert!(line_obj.contains_point(p2));
    assert!(!line_obj.contains_point(p3));
}

#[test]
fn test_line_with_fixed_endpoints() {
    let mut sketch = Sketch::new();

    let p1 = sketch.add_point(Some("p1".to_string()));
    let p2 = sketch.add_point(Some("p2".to_string()));

    sketch.add_constraint(FixedPositionConstraint::new(p1, meters(0.0), meters(0.0)));
    sketch.add_constraint(FixedPositionConstraint::new(p2, meters(3.0), meters(4.0)));

    let line = sketch.add_line(p1, p2, Some("line1".to_string()));

    let line_obj = sketch.get_line(line).unwrap();
    assert_eq!(line_obj.endpoints(), (p1, p2));
    assert_eq!(line_obj.name, Some("line1".to_string()));

    let solution = sketch.solve_and_extract().unwrap();

    let (x1, y1) = solution.get_point_coordinates(p1).unwrap();
    let (x2, y2) = solution.get_point_coordinates(p2).unwrap();

    assert!((to_f64(x1) - 0.0).abs() < 1e-6);
    assert!((to_f64(y1) - 0.0).abs() < 1e-6);
    assert!((to_f64(x2) - 3.0).abs() < 1e-6);
    assert!((to_f64(y2) - 4.0).abs() < 1e-6);

    let line_length = ((to_f64(x2) - to_f64(x1)).powi(2) + (to_f64(y2) - to_f64(y1)).powi(2))
        .sqrt();
    assert!((line_length - 5.0).abs() < 1e-6);
}

#[test]
fn test_triangle_with_three_lines() {
    let mut sketch = Sketch::new();

    let p1 = sketch.add_point(Some("A".to_string()));
    let p2 = sketch.add_point(Some("B".to_string()));
    let p3 = sketch.add_point(Some("C".to_string()));

    sketch.add_constraint(FixedPositionConstraint::new(p1, meters(0.0), meters(0.0)));
    sketch.add_constraint(FixedPositionConstraint::new(p2, meters(6.0), meters(0.0)));
    sketch.add_constraint(FixedPositionConstraint::new(p3, meters(3.0), meters(4.0)));

    let line_ab = sketch.add_line(p1, p2, Some("AB".to_string()));
    let line_bc = sketch.add_line(p2, p3, Some("BC".to_string()));
    let line_ca = sketch.add_line(p3, p1, Some("CA".to_string()));

    assert_eq!(sketch.get_line(line_ab).unwrap().endpoints(), (p1, p2));
    assert_eq!(sketch.get_line(line_bc).unwrap().endpoints(), (p2, p3));
    assert_eq!(sketch.get_line(line_ca).unwrap().endpoints(), (p3, p1));

    let solution = sketch.solve_and_extract().unwrap();

    let (ax, ay) = solution.get_point_coordinates(p1).unwrap();
    let (bx, by) = solution.get_point_coordinates(p2).unwrap();
    let (cx, cy) = solution.get_point_coordinates(p3).unwrap();
    let (ax, ay, bx, by, cx, cy) =
        (to_f64(ax), to_f64(ay), to_f64(bx), to_f64(by), to_f64(cx), to_f64(cy));

    assert!((ax - 0.0).abs() < 1e-6 && (ay - 0.0).abs() < 1e-6);
    assert!((bx - 6.0).abs() < 1e-6 && (by - 0.0).abs() < 1e-6);
    assert!((cx - 3.0).abs() < 1e-6 && (cy - 4.0).abs() < 1e-6);

    let ab_length = ((bx - ax).powi(2) + (by - ay).powi(2)).sqrt();
    let bc_length = ((cx - bx).powi(2) + (cy - by).powi(2)).sqrt();
    let ca_length = ((ax - cx).powi(2) + (ay - cy).powi(2)).sqrt();

    assert!((ab_length - 6.0).abs() < 1e-6);
    assert!((bc_length - 5.0).abs() < 1e-6);
    assert!((ca_length - 5.0).abs() < 1e-6);
}

#[test]
fn test_line_endpoint_query_integration() {
    let mut sketch = Sketch::new();

    let p1 = sketch.add_point(Some("start".to_string()));
    let p2 = sketch.add_point(Some("end".to_string()));
    let line = sketch.add_line(p1, p2, Some("test_line".to_string()));

    let endpoints = sketch.line_endpoints(line).unwrap();
    assert_eq!(endpoints.0, p1);
    assert_eq!(endpoints.1, p2);

    let line_obj = sketch.get_line(line).unwrap();
    assert_eq!(endpoints, line_obj.endpoints());
}

#[test]
fn test_line_length_constraint_with_entity_factory() {
    let mut sketch = Sketch::new();

    let p1 = sketch.add_point(Some("start".to_string()));
    let p2 = sketch.add_point(Some("end".to_string()));

    sketch.add_constraint(FixedPositionConstraint::new(p1, meters(0.0), meters(0.0)));
    // Pin the free endpoint: the backend may otherwise satisfy the quadratic
    // with an algebraic assignment, which extraction rejects by design.
    sketch.add_constraint(FixedPositionConstraint::new(p2, meters(10.0), meters(0.0)));

    let line_id = sketch.add_line(p1, p2, Some("test_line".to_string()));

    let length_constraint = {
        let line_obj = sketch.get_line(line_id).unwrap();
        line_obj.length_equals(meters(10.0))
    };
    sketch.add_constraint(length_constraint);

    let solution = sketch.solve_and_extract().unwrap();

    let (x1, y1) = solution.get_point_coordinates(p1).unwrap();
    let (x2, y2) = solution.get_point_coordinates(p2).unwrap();

    assert!((to_f64(x1) - 0.0).abs() < 1e-6);
    assert!((to_f64(y1) - 0.0).abs() < 1e-6);

    let actual_length = ((to_f64(x2) - to_f64(x1)).powi(2) + (to_f64(y2) - to_f64(y1)).powi(2))
        .sqrt();
    assert!((actual_length - 10.0).abs() < 1e-6);
}

#[test]
fn test_multiple_line_constraints() {
    let mut sketch = Sketch::new();

    let origin = sketch.add_point(Some("origin".to_string()));
    let end1 = sketch.add_point(Some("end1".to_string()));
    let end2 = sketch.add_point(Some("end2".to_string()));

    sketch.add_constraint(FixedPositionConstraint::new(origin, meters(0.0), meters(0.0)));
    sketch.add_constraint(FixedPositionConstraint::new(end1, meters(3.0), meters(0.0)));
    sketch.add_constraint(FixedPositionConstraint::new(end2, meters(0.0), meters(4.0)));

    let line1_id = sketch.add_line(origin, end1, Some("horizontal".to_string()));
    let line2_id = sketch.add_line(origin, end2, Some("vertical".to_string()));

    let length1_constraint = {
        let line1 = sketch.get_line(line1_id).unwrap();
        line1.length_equals(meters(3.0))
    };
    let length2_constraint = {
        let line2 = sketch.get_line(line2_id).unwrap();
        line2.length_equals(meters(4.0))
    };

    sketch.add_constraint(length1_constraint);
    sketch.add_constraint(length2_constraint);

    let solution = sketch.solve_and_extract().unwrap();

    let (ox, oy) = solution.get_point_coordinates(origin).unwrap();
    let (x1, y1) = solution.get_point_coordinates(end1).unwrap();
    let (x2, y2) = solution.get_point_coordinates(end2).unwrap();
    let (ox, oy, x1, y1, x2, y2) =
        (to_f64(ox), to_f64(oy), to_f64(x1), to_f64(y1), to_f64(x2), to_f64(y2));

    assert!((ox - 0.0).abs() < 1e-6 && (oy - 0.0).abs() < 1e-6);
    assert!((x1 - 3.0).abs() < 1e-6 && (y1 - 0.0).abs() < 1e-6);
    assert!((x2 - 0.0).abs() < 1e-6 && (y2 - 4.0).abs() < 1e-6);

    let len1 = ((x1 - ox).powi(2) + (y1 - oy).powi(2)).sqrt();
    let len2 = ((x2 - ox).powi(2) + (y2 - oy).powi(2)).sqrt();

    assert!((len1 - 3.0).abs() < 1e-6);
    assert!((len2 - 4.0).abs() < 1e-6);
}

#[test]
fn test_line_parameter_extraction() {
    let mut sketch = Sketch::new();

    let origin = sketch.add_point(Some("origin".to_string()));
    let right = sketch.add_point(Some("right".to_string()));
    let top = sketch.add_point(Some("top".to_string()));

    sketch.add_constraint(FixedPositionConstraint::new(origin, meters(0.0), meters(0.0)));
    sketch.add_constraint(FixedPositionConstraint::new(right, meters(3.0), meters(0.0)));
    sketch.add_constraint(FixedPositionConstraint::new(top, meters(0.0), meters(4.0)));

    let horizontal_line = sketch.add_line(origin, right, Some("horizontal".to_string()));
    let vertical_line = sketch.add_line(origin, top, Some("vertical".to_string()));
    let hypotenuse_line = sketch.add_line(right, top, Some("hypotenuse".to_string()));

    let solution = sketch.solve_and_extract().unwrap();

    // The solution keeps exact rationals; length and angle derive from them.
    let line_stats = |params: textcad::solution::LineParameters| {
        let x1 = to_f64(params.start.0);
        let y1 = to_f64(params.start.1);
        let x2 = to_f64(params.end.0);
        let y2 = to_f64(params.end.1);
        let length = to_f64(params.length_sq).sqrt();
        let angle = (y2 - y1).atan2(x2 - x1);
        (x1, y1, x2, y2, length, angle)
    };

    let h = solution.get_line_parameters(horizontal_line).unwrap();
    let (hx1, hy1, hx2, hy2, hlen, hangle) = line_stats(h);
    assert!((hx1 - 0.0).abs() < 1e-6);
    assert!((hy1 - 0.0).abs() < 1e-6);
    assert!((hx2 - 3.0).abs() < 1e-6);
    assert!((hy2 - 0.0).abs() < 1e-6);
    assert!((hlen - 3.0).abs() < 1e-6);
    assert!((hangle - 0.0).abs() < 1e-6);

    let v = solution.get_line_parameters(vertical_line).unwrap();
    let (_, _, _, _, vlen, vangle) = line_stats(v);
    assert!((vlen - 4.0).abs() < 1e-6);
    assert!((vangle - std::f64::consts::FRAC_PI_2).abs() < 1e-6);

    let hyp = solution.get_line_parameters(hypotenuse_line).unwrap();
    let (_, _, _, _, hyp_len, hyp_angle) = line_stats(hyp);
    assert!((hyp_len - 5.0).abs() < 1e-6);

    let expected_angle = (4.0_f64 - 0.0_f64).atan2(0.0_f64 - 3.0_f64);
    assert!((hyp_angle - expected_angle).abs() < 1e-6);
}
