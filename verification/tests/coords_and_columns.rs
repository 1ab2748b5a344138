use rotated_grid::Frac;
use rotated_grid::GridCoord;
use rotated_grid::OptimalXIterator;
use rotated_grid::Vector;

#[test]
fn test_frac_values() {
    let half = Frac::new(1, 2);
    let two_quarters = Frac::new(2, 4);
    assert!(half.eq_value(&two_quarters));
    assert!(!half.eq_value(&Frac::new(3, 4)));
    assert!(half.le(&Frac::new(3, 4)));
    assert!(!Frac::new(3, 4).le(&half));
    assert_eq!(Frac::from_int(5).num, 5);
    assert_eq!(Frac::from_int(5).den, 1);
}

#[test]
fn test_grid_coord_roundtrip() {
    let coord = GridCoord::new(Frac::new(3, 2), Frac::new(5, 2));
    let (x, y) = coord.into_xy();
    assert!(x.eq_value(&Frac::new(3, 2)));
    assert!(y.eq_value(&Frac::new(5, 2)));
}

#[test]
fn test_grid_coord_precedes() {
    // Raster order compares the Y coordinate first, then the X
    // coordinate.
    let low = GridCoord::new(Frac::new(9, 1), Frac::new(1, 2));
    let high = GridCoord::new(Frac::new(0, 1), Frac::new(2, 2));
    assert!(low.precedes(&high));
    assert!(!high.precedes(&low));
    let left = GridCoord::new(Frac::new(1, 2), Frac::new(1, 1));
    let right = GridCoord::new(Frac::new(2, 2), Frac::new(2, 2));
    assert!(left.precedes(&right));
    assert!(!right.precedes(&left));
    assert!(!left.precedes(&left));
}

#[test]
fn test_x_iterator_phase() {
    // The first coordinate at or after the span's start that is a whole
    // number of spacings from the anchor: 10 - 7 = 3.
    let mut it = OptimalXIterator::new(
        0,
        Vector::new(10, 0),
        Vector::new(3, 0),
        Vector::new(20, 0),
        7,
        0,
    );
    assert_eq!(it.next(), Some(3));
    assert_eq!(it.next(), Some(10));
    assert_eq!(it.next(), Some(17));
    assert_eq!(it.next(), None);
    assert_eq!(it.next(), None);
}

#[test]
fn test_x_iterator_offset_anchor() {
    // The offset shifts the anchor: multiples of 5 away from 12.
    let mut it = OptimalXIterator::new(
        4,
        Vector::new(10, 0),
        Vector::new(0, 0),
        Vector::new(13, 0),
        5,
        2,
    );
    assert_eq!(it.next(), Some(2));
    assert_eq!(it.next(), Some(7));
    assert_eq!(it.next(), Some(12));
    assert_eq!(it.next(), None);
}

#[test]
fn test_x_iterator_span_end_inclusive() {
    // A coordinate exactly at the span's end is included.
    let mut it = OptimalXIterator::new(
        0,
        Vector::new(0, 0),
        Vector::new(0, 0),
        Vector::new(14, 0),
        7,
        0,
    );
    assert_eq!(it.next(), Some(0));
    assert_eq!(it.next(), Some(7));
    assert_eq!(it.next(), Some(14));
    assert_eq!(it.next(), None);
}
