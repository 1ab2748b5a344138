use rotated_grid::Angle;
use rotated_grid::AngleOps;

#[test]
fn test_from_degrees_quadrants() {
    assert_eq!(Angle::from_degrees(0).sin_cos(), (0, 1));
    assert_eq!(Angle::from_degrees(90).sin_cos(), (1, 0));
    assert_eq!(Angle::from_degrees(180).sin_cos(), (0, -1));
    assert_eq!(Angle::from_degrees(270).sin_cos(), (-1, 0));
    assert_eq!(Angle::from_degrees(360).sin_cos(), (0, 1));
    assert_eq!(Angle::from_degrees(-90).sin_cos(), (-1, 0));
    assert_eq!(Angle::from_degrees(450).sin_cos(), (1, 0));
    assert_eq!(Angle::from_degrees(0).denominator(), 1);
}

#[test]
fn test_normalized_folds_to_positive_cosine() {
    // Positive cosine stays as it is.
    assert_eq!(Angle::new(3, 4, 5).normalized().sin_cos(), (3, 4));
    // Negative cosine folds by a half turn.
    assert_eq!(Angle::new(3, -4, 5).normalized().sin_cos(), (-3, 4));
    // Zero cosine folds the quarter turn onto the axis.
    assert_eq!(Angle::new(5, 0, 5).normalized().sin_cos(), (0, 5));
    assert_eq!(Angle::new(-5, 0, 5).normalized().sin_cos(), (0, 5));
    // The four quadrant angles all normalize to the same pair.
    for degrees in [0, 90, 180, 270] {
        assert_eq!(Angle::from_degrees(degrees).normalized().sin_cos(), (0, 1));
    }
}

#[test]
fn test_normalize_trait() {
    let angle = Angle::new(3, -4, 5);
    let folded = AngleOps::normalize(&angle);
    assert_eq!(AngleOps::sin_cos(&folded), (-3, 4));
}

#[test]
fn test_negated() {
    let angle = Angle::new(3, 4, 5).negated();
    assert_eq!(angle.sin_cos(), (-3, 4));
    assert_eq!(angle.denominator(), 5);
}
