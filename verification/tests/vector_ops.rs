use rotated_grid::Angle;
use rotated_grid::Vector;

#[test]
fn test_dot() {
    assert_eq!(Vector::new(1, 0).dot(&Vector::new(1, 0)), 1);
    assert_eq!(Vector::new(2, 3).dot(&Vector::new(4, -1)), 5);
}

#[test]
fn test_orthogonal() {
    assert_eq!(Vector::new(1, 0).orthogonal(), Vector::new(0, 1));
    assert_eq!(Vector::new(0, 1).orthogonal(), Vector::new(-1, 0));
}

#[test]
fn test_rotate() {
    let vector = Vector::new(1, 0);
    assert_eq!(vector.rotate(&Angle::from_degrees(0)), Vector::new(1, 0));
    assert_eq!(vector.rotate(&Angle::from_degrees(90)), Vector::new(0, 1));
    assert_eq!(vector.rotate(&Angle::from_degrees(180)), Vector::new(-1, 0));
    assert_eq!(vector.rotate(&Angle::from_degrees(-90)), Vector::new(0, -1));
    // An exact non-quadrant rotation: the 3-4-5 angle, scaled by the
    // denominator 5.
    assert_eq!(vector.rotate(&Angle::new(4, 3, 5)), Vector::new(3, 4));
}

#[test]
fn test_rotate_around() {
    let vector = Vector::new(1, 0);

    // Zero rotation (around any point) results in no change.
    assert_eq!(
        vector.rotate_around(&vector, &Angle::from_degrees(0)),
        Vector::new(1, 0)
    );

    // Any rotation around the point itself results in no change, up to
    // the angle's denominator scale.
    assert_eq!(
        vector.rotate_around(&vector, &Angle::new(3, 4, 5)),
        Vector::new(5, 0)
    );

    // Rotate around the specified pivot vector.
    assert_eq!(
        vector.rotate_around(&Vector::new(1, 1), &Angle::from_degrees(90)),
        Vector::new(2, 1)
    );
}

#[test]
fn test_rotate_round_trip() {
    // Rotating by a unit 3-4-5 rotation and back by its negation around
    // the same pivot returns the point, scaled by the squared
    // denominator.
    let v = Vector::new(7, 3);
    let pivot = Vector::new(2, 1);
    let once = v.rotate_around_with(&pivot, 4, 3, 5);
    let back = once.rotate_around_with(&pivot.scaled(5), -4, 3, 5);
    assert_eq!(back, v.scaled(25));
}

#[test]
fn test_rotate_around_screenspace() {
    // In the y-down convention a quarter turn moves (1, 0) to (0, -1)
    // around the origin.
    let v = Vector::new(1, 0);
    let origin = Vector::new(0, 0);
    assert_eq!(
        v.rotate_around_screenspace(&origin, &Angle::from_degrees(90)),
        Vector::new(0, -1)
    );
}

#[test]
fn test_vector_arithmetic() {
    let a = Vector::new(3, -2);
    let b = Vector::new(1, 5);
    assert_eq!(a.plus(&b), Vector::new(4, 3));
    assert_eq!(a.minus(&b), Vector::new(2, -7));
    assert_eq!(a.scaled(-3), Vector::new(-9, 6));
    assert_eq!(a.negated(), Vector::new(-3, 2));
    assert_eq!(a.norm_sq(), 13);
    assert_eq!(a.cross(&b), 17);
}
