//! Tests that the circle entity follows the same identifier, naming and
//! store patterns as points and lines.

use textcad::constraints::{CircleRadiusConstraint, FixedPositionConstraint};
use textcad::entity::EntityIndex;
use textcad::rational::Rational;
use textcad::sketch::Sketch;

fn meters(v: f64) -> Rational {
    let mut num = (v * 1_000_000.0).round() as i64;
    let mut den: i64 = 1_000_000;
    let mut a = if num < 0 { -num } else { num };
    let mut b = den;
    while b != 0 {
        let t = a % b;
        a = b;
        b = t;
    }
    if a > 1 {
        num /= a;
        den /= a;
    }
    Rational::new(num, den)
}

fn to_f64(q: Rational) -> f64 {
    q.num as f64 / q.den as f64
}

#[test]
fn test_circle_entity_creation_patterns() {
    let mut sketch = Sketch::new();

    let center = sketch.add_point(Some("hub".to_string()));
    let named = sketch.add_circle(center, Some("wheel".to_string()));
    let unnamed = sketch.add_circle(center, None);

    let named_obj = sketch.get_circle(named).unwrap();
    assert_eq!(named_obj.name, Some("wheel".to_string()));
    assert!(named_obj.radius.contains("wheel_radius"));

    let unnamed_obj = sketch.get_circle(unnamed).unwrap();
    assert_eq!(unnamed_obj.name, None);
    assert!(unnamed_obj.radius.ends_with("_radius"));
}

#[test]
fn test_circle_follows_entity_id_patterns() {
    let mut sketch = Sketch::new();

    let center = sketch.add_point(None);
    let c0 = sketch.add_circle(center, None);
    let c1 = sketch.add_circle(center, None);

    // Identifiers carry the slot index with generation zero, like the other
    // entity kinds.
    assert_eq!(c0.0, EntityIndex::from_raw_parts(0, 0));
    assert_eq!(c1.0, EntityIndex::from_raw_parts(1, 0));

    // A stale identifier from elsewhere does not resolve.
    let stale = textcad::entity::CircleId(EntityIndex::from_raw_parts(0, 3));
    assert!(sketch.get_circle(stale).is_none());
}

#[test]
fn test_circle_entity_consistency_with_existing_patterns() {
    let mut sketch = Sketch::new();

    let p = sketch.add_point(Some("p".to_string()));
    let line_center = sketch.add_point(Some("q".to_string()));
    let _line = sketch.add_line(p, line_center, None);
    let circle = sketch.add_circle(line_center, Some("c".to_string()));

    // The circle resolves through the same store as points and lines.
    let obj = sketch.get_circle(circle).unwrap();
    assert_eq!(obj.center_point(), line_center);
    assert!(sketch.get_point(obj.center_point()).is_some());
}

#[test]
fn test_circle_z3_integration_consistency() {
    let mut sketch = Sketch::new();

    let center = sketch.add_point(Some("mid".to_string()));
    let circle = sketch.add_circle(center, Some("disc".to_string()));

    sketch.add_constraint(FixedPositionConstraint::new(center, meters(0.0), meters(0.0)));
    sketch.add_constraint(CircleRadiusConstraint::new(circle, meters(3.5)));

    let mut solution = sketch.solve_and_extract().unwrap();
    let center_coords = solution.get_point_coordinates(center).unwrap();
    let params = solution
        .extract_circle_parameters(circle, center_coords, "disc_radius")
        .unwrap();
    assert!((to_f64(params.radius) - 3.5).abs() < 1e-6);
}

#[test]
fn circle_entity_factory_test_circle_debug_representation_quality() {
    let mut sketch = Sketch::new();
    let center = sketch.add_point(None);
    let circle = sketch.add_circle(center, Some("inspected".to_string()));

    let debug = format!("{:?}", sketch.get_circle(circle).unwrap());
    assert!(debug.contains("inspected"));
    assert!(debug.contains("radius"));
}

#[test]
fn circle_integration_test_circle_debug_representation_quality() {
    let mut sketch = Sketch::new();
    let center = sketch.add_point(Some("hub".to_string()));
    let circle = sketch.add_circle(center, None);

    let debug = format!("{:?}", sketch.get_circle(circle).unwrap());
    assert!(debug.contains("Circle"));
    assert!(debug.contains("center"));
}

#[test]
fn test_circle_center_point_access() {
    let mut sketch = Sketch::new();
    let center = sketch.add_point(Some("axis".to_string()));
    let circle = sketch.add_circle(center, None);

    assert_eq!(sketch.get_circle(circle).unwrap().center_point(), center);
    assert_eq!(sketch.get_circle(circle).unwrap().center, center);
}
