use rotated_grid::Frac;
use rotated_grid::Line;
use rotated_grid::LineSegment;
use rotated_grid::Vector;

#[test]
fn test_intersection_t_crossing() {
    // A horizontal ray from (0, 5) against the vertical line through
    // (3, 0): one direction length along the other line per unit, so the
    // intersection sits at t = 3 with u = 5.
    let ray = Line::new(Vector::new(0, 5), Vector::new(1, 0));
    let other = Line::new(Vector::new(3, 0), Vector::new(0, 1));
    let t = ray.calculate_intersection_t(&other, 10).expect("intersection expected");
    assert!(t.eq_value(&Frac::new(3, 1)));
    // Bounding the travel along the other line below the intersection
    // rejects it.
    assert!(ray.calculate_intersection_t(&other, 4).is_none());
}

#[test]
fn test_intersection_t_parallel() {
    let ray = Line::new(Vector::new(0, 5), Vector::new(1, 0));
    let parallel = Line::new(Vector::new(0, 7), Vector::new(2, 0));
    assert!(ray.calculate_intersection_t(&parallel, 100).is_none());
}

#[test]
fn test_intersection_t_behind_ray() {
    // The crossing lies behind the ray's origin, at negative t.
    let ray = Line::new(Vector::new(10, 5), Vector::new(1, 0));
    let other = Line::new(Vector::new(3, 0), Vector::new(0, 1));
    assert!(ray.calculate_intersection_t(&other, 100).is_none());
}

#[test]
fn test_intersect_with_segment() {
    let ray = Line::new(Vector::new(0, 5), Vector::new(1, 0));
    // A vertical segment from (3, 0) to (3, 10) crosses the ray at
    // (3, 5).
    let segment = LineSegment::from_points(Vector::new(3, 0), &Vector::new(3, 10));
    let (x, y) = ray.intersect_with_segment(&segment).expect("intersection expected");
    assert!(x.eq_value(&Frac::new(3, 1)));
    assert!(y.eq_value(&Frac::new(5, 1)));
    // A segment ending below the ray misses it.
    let short = LineSegment::from_points(Vector::new(3, 0), &Vector::new(3, 4));
    assert!(ray.intersect_with_segment(&short).is_none());
}

#[test]
fn test_line_dot_distance_project() {
    let line = Line::new(Vector::new(1, 1), Vector::new(2, 0));
    assert_eq!(line.dot(&Vector::new(4, 1)), 6);
    // Points to the left of the line get a positive sign, scaled by the
    // direction's length.
    assert_eq!(line.distance(&Vector::new(1, 3)), 4);
    assert_eq!(line.distance(&Vector::new(1, -3)), -8);
    assert_eq!(line.distance(&Vector::new(5, 1)), 0);
    assert_eq!(line.project_out(3), Vector::new(7, 1));
}

#[test]
fn test_segment_accessors() {
    let segment = LineSegment::new(Vector::new(2, 3), Vector::new(4, -1));
    assert_eq!(*segment.start(), Vector::new(2, 3));
    assert_eq!(*segment.origin(), Vector::new(2, 3));
    assert_eq!(*segment.direction(), Vector::new(4, -1));
    assert_eq!(*segment.length(), Vector::new(4, -1));
    let line = segment.normalized();
    assert_eq!(*line.origin(), Vector::new(2, 3));
    assert_eq!(*line.direction(), Vector::new(4, -1));
}

#[test]
fn test_line_reversed() {
    let line = Line::new(Vector::new(1, 2), Vector::new(3, -4)).reversed();
    assert_eq!(*line.origin(), Vector::new(1, 2));
    assert_eq!(*line.direction(), Vector::new(-3, 4));
}

#[test]
fn test_line_from_points() {
    let line = Line::from_points(Vector::new(1, 2), &Vector::new(4, 6));
    assert_eq!(*line.origin(), Vector::new(1, 2));
    assert_eq!(*line.direction(), Vector::new(3, 4));
}
