//! Tests for the generation-tagged entity identifiers and the point entity.

use textcad::entities::{Point2D, PointId};
use textcad::entity::{CircleId, EntityIndex, LineId};

#[test]
fn test_line_id_creation() {
    let idx1 = EntityIndex::from_raw_parts(0, 0);
    let idx2 = EntityIndex::from_raw_parts(1, 0);
    let id1 = LineId::from(idx1);
    let id2 = LineId::from(idx2);
    assert_ne!(id1, id2);

    let back1: EntityIndex = id1.into();
    assert_eq!(back1, idx1);
}

#[test]
fn test_circle_id_creation() {
    let idx1 = EntityIndex::from_raw_parts(0, 0);
    let idx2 = EntityIndex::from_raw_parts(1, 0);
    let id1 = CircleId::from(idx1);
    let id2 = CircleId::from(idx2);
    assert_ne!(id1, id2);

    let back1: EntityIndex = id1.into();
    assert_eq!(back1, idx1);
}

#[test]
fn test_ids_are_send_sync() {
    fn assert_send_sync<T: Send + Sync>() {}
    assert_send_sync::<LineId>();
    assert_send_sync::<CircleId>();
}

#[test]
fn test_point_id_from_index() {
    let index = EntityIndex::from_raw_parts(42, 7);
    let point_id = PointId::from(index);
    assert_eq!(point_id.0, index);

    let back_to_index: EntityIndex = point_id.into();
    assert_eq!(back_to_index, index);
}

#[test]
fn test_point_creation_with_name() {
    let id = PointId::from(EntityIndex::from_raw_parts(0, 0));

    let point = Point2D::new(id, Some("test_point".to_string()));

    assert_eq!(point.id, id);
    assert_eq!(point.name, Some("test_point".to_string()));
    assert_eq!(point.display_name(), "test_point");

    assert!(point.x.contains("test_point_x"));
    assert!(point.y.contains("test_point_y"));
}

#[test]
fn point_test_point_creation_without_name() {
    let id = PointId::from(EntityIndex::from_raw_parts(1, 0));

    let point = Point2D::new(id, None);

    assert_eq!(point.id, id);
    assert_eq!(point.name, None);
    assert!(point.display_name().starts_with("Point"));

    // Default variable names derive from the generic prefix and the slot index.
    assert_eq!(point.x, "p1_x");
    assert_eq!(point.y, "p1_y");
}

#[test]
fn test_multiple_points_have_distinct_variables() {
    let id1 = PointId::from(EntityIndex::from_raw_parts(0, 0));
    let id2 = PointId::from(EntityIndex::from_raw_parts(1, 0));

    let point1 = Point2D::new(id1, Some("p1".to_string()));
    let point2 = Point2D::new(id2, Some("p2".to_string()));

    assert_ne!(point1.id, point2.id);

    assert_ne!(point1.x, point2.x);
    assert_ne!(point1.y, point2.y);

    assert!(point1.x.contains("p1_x"));
    assert!(point2.x.contains("p2_x"));
}

#[test]
fn test_point_id_ordering() {
    let id1 = PointId::from(EntityIndex::from_raw_parts(0, 0));
    let id2 = PointId::from(EntityIndex::from_raw_parts(1, 0));
    let id3 = PointId::from(EntityIndex::from_raw_parts(0, 1));

    assert_ne!(id1, id2);
    assert_ne!(id1, id3);
    assert_ne!(id2, id3);
}

#[test]
fn test_point_ids_are_send_sync() {
    fn assert_send_sync<T: Send + Sync>() {}
    assert_send_sync::<PointId>();
}
