use rotated_grid::Angle;
use rotated_grid::GridPositionIterator;

/// Collects every produced coordinate as `(x_num, y_num, den)` triples of
/// exact rationals.
fn collect(mut it: GridPositionIterator) -> Vec<(i128, i128, i128)> {
    let mut out = Vec::new();
    for coord in it.collect_positions() {
        assert_eq!(coord.x.den, coord.y.den);
        out.push((coord.x.num, coord.y.num, coord.x.den));
    }
    out
}

/// A brute-force reference oracle: enumerates every lattice index in a
/// wide window and keeps exactly those whose un-rotated offsets fall
/// inside the rectangle, in the same row-by-row order the scan uses.
fn oracle(
    w: i128,
    h: i128,
    dx: i128,
    dy: i128,
    x0: i128,
    y0: i128,
    s: i128,
    c: i128,
    d: i128,
) -> Vec<(i128, i128, i128)> {
    let n = s * s + c * c;
    let mut out = Vec::new();
    for k in -200..201i128 {
        for i in -200..201i128 {
            let a = x0 + i * dx;
            let b = y0 + k * dy;
            let u = 2 * d * (c * a + s * b);
            let v = 2 * d * (c * b - s * a);
            if -(w * n) <= u && u <= w * n && -(h * n) <= v && v <= h * n {
                out.push((n * w + u, n * h + v, 2 * n));
            }
        }
    }
    out
}

#[test]
fn test_unrotated_grid_scenario() {
    // A 16 by 10 rectangle with spacing 7 on both axes and no offset:
    // one lattice row through the center, three columns.
    let it = GridPositionIterator::new(16, 10, 7, 7, 0, 0, &Angle::from_degrees(0));
    let points = collect(it);
    // The rationals (1, 5), (8, 5), (15, 5) over the denominator 2.
    assert_eq!(points, vec![(2, 10, 2), (16, 10, 2), (30, 10, 2)]);
}

#[test]
fn test_quadrant_angles_equal() {
    // Grids at the four quadrant angles are one and the same grid.
    let base = collect(GridPositionIterator::new(
        16,
        10,
        7,
        7,
        0,
        0,
        &Angle::from_degrees(0),
    ));
    for degrees in [90, 180, 270] {
        let turned = collect(GridPositionIterator::new(
            16,
            10,
            7,
            7,
            0,
            0,
            &Angle::from_degrees(degrees),
        ));
        assert_eq!(turned, base);
    }
}

#[test]
fn test_oracle_agreement() {
    // The scanline produces exactly what brute-force enumeration finds,
    // in the same order, across axis-aligned, Pythagorean, and negative
    // rotations.
    let cases: [(i64, i64, i64, i64, i64, i64, i64, i64, i64); 5] = [
        (16, 10, 7, 7, 0, 0, 0, 1, 1),
        (16, 10, 7, 7, 3, -2, 0, 1, 1),
        (16, 10, 7, 7, 0, 0, 20, 21, 29),
        (10, 10, 3, 3, 1, 1, -20, 21, 29),
        (12, 8, 5, 4, 2, 3, 3, 4, 5),
    ];
    for (w, h, dx, dy, x0, y0, s, c, d) in cases {
        let it = GridPositionIterator::new(w, h, dx, dy, x0, y0, &Angle::new(s, c, d));
        let got = collect(it);
        let want = oracle(
            w as i128, h as i128, dx as i128, dy as i128, x0 as i128, y0 as i128, s as i128,
            c as i128, d as i128,
        );
        assert_eq!(got, want);
    }
}

#[test]
fn test_containment() {
    // Every produced coordinate lies inside the rectangle: as rationals,
    // 0 <= x <= w and 0 <= y <= h.
    let w: i128 = 16;
    let h: i128 = 10;
    let it = GridPositionIterator::new(16, 10, 7, 7, 0, 0, &Angle::new(20, 21, 29));
    for (x_num, y_num, den) in collect(it) {
        assert!(den > 0);
        assert!(0 <= x_num && x_num <= w * den);
        assert!(0 <= y_num && y_num <= h * den);
    }
}

#[test]
fn test_rotated_square_shrinks() {
    // A square grid at the diagonal angle samples fewer points than the
    // axis-aligned grid of the same spacing.
    let upright = collect(GridPositionIterator::new(
        16,
        16,
        7,
        7,
        0,
        0,
        &Angle::from_degrees(0),
    ));
    let diagonal = collect(GridPositionIterator::new(16, 16, 7, 7, 0, 0, &Angle::new(5, 5, 7)));
    assert_eq!(upright.len(), 9);
    assert_eq!(diagonal.len(), 5);
    assert!(diagonal.len() < upright.len());
}

#[test]
fn test_rotated_scenario_counts() {
    // The 16 by 10 rectangle at the diagonal angle: the count matches
    // the brute-force oracle and stays below six.
    let it = GridPositionIterator::new(16, 10, 7, 7, 0, 0, &Angle::new(5, 5, 7));
    let got = collect(it);
    let want = oracle(16, 10, 7, 7, 0, 0, 5, 5, 7);
    assert_eq!(got, want);
    assert!(got.len() < 6);
}

#[test]
fn test_estimate_upper_bound() {
    // For axis-aligned grids the produced count never exceeds the
    // estimated upper bound, and the size hint carries that bound.
    let cases: [(i64, i64, i64, i64, i64, i64); 4] = [
        (16, 10, 7, 7, 0, 0),
        (16, 16, 7, 7, 0, 0),
        (10, 10, 3, 3, 0, 0),
        (12, 8, 5, 4, 2, 3),
    ];
    for (w, h, dx, dy, x0, y0) in cases {
        let it = GridPositionIterator::new(w, h, dx, dy, x0, y0, &Angle::from_degrees(0));
        let bound = it.estimate_max_grid_points();
        let (low, high) = it.size_hint();
        assert_eq!(low, 0);
        assert_eq!(high, Some(bound));
        let count = collect(it).len() as u64;
        assert!(count <= bound);
    }
}

#[test]
fn test_degenerate_spacing() {
    // Spacing equal to the rectangle's extent leaves exactly one row and
    // one column: the center alone.
    let exact = collect(GridPositionIterator::new(
        16,
        10,
        16,
        10,
        0,
        0,
        &Angle::from_degrees(0),
    ));
    assert_eq!(exact, vec![(16, 10, 2)]);
    // Spacing beyond the extent leaves at most one point, whatever the
    // phase.
    let beyond = collect(GridPositionIterator::new(
        16,
        10,
        17,
        11,
        0,
        0,
        &Angle::from_degrees(0),
    ));
    assert_eq!(beyond, vec![(16, 10, 2)]);
    let shifted = collect(GridPositionIterator::new(
        16,
        10,
        17,
        11,
        5,
        0,
        &Angle::from_degrees(0),
    ));
    assert!(shifted.len() <= 1);
}

#[test]
fn test_phase_offset() {
    // A phase offset shifts the lattice without moving the rectangle:
    // with x0 = 3 the columns land at 4 and 11.
    let points = collect(GridPositionIterator::new(
        16,
        10,
        7,
        7,
        3,
        0,
        &Angle::from_degrees(0),
    ));
    assert_eq!(points, vec![(8, 10, 2), (22, 10, 2)]);
}

#[test]
fn test_largest_parameters() {
    // The largest accepted rectangle and spacing still scan exactly:
    // one lattice point, the center, survives.
    let points = collect(GridPositionIterator::new(
        65536,
        65536,
        65536,
        65536,
        0,
        0,
        &Angle::from_degrees(0),
    ));
    assert_eq!(points, vec![(65536, 65536, 2)]);
    // The same extreme rectangle under a rotation with the largest
    // accepted denominator agrees with the oracle.
    let it = GridPositionIterator::new(
        65536,
        65536,
        32768,
        32768,
        0,
        0,
        &Angle::new(47184, 45436, 65536),
    );
    let got = collect(it);
    let want = oracle(65536, 65536, 32768, 32768, 0, 0, 47184, 45436, 65536);
    assert_eq!(got, want);
    assert!(!got.is_empty());
}

#[test]
fn test_exhausted_iterator_stays_empty() {
    // Once exhausted the iterator only yields nothing thereafter.
    let mut it = GridPositionIterator::new(16, 10, 16, 10, 0, 0, &Angle::from_degrees(0));
    assert!(it.next().is_some());
    assert!(it.next().is_none());
    assert!(it.next().is_none());
}

#[test]
fn test_no_duplicate_positions() {
    // No grid position is produced twice.
    let points = collect(GridPositionIterator::new(
        16,
        10,
        3,
        3,
        1,
        -2,
        &Angle::new(20, 21, 29),
    ));
    for a in 0..points.len() {
        for b in (a + 1)..points.len() {
            assert_ne!(points[a], points[b]);
        }
    }
    assert!(points.len() > 1);
}

#[test]
fn test_next_matches_collect() {
    // Driving the iterator by hand yields the same sequence that
    // collecting it does.
    let mut by_hand = GridPositionIterator::new(16, 10, 7, 7, 0, 0, &Angle::new(20, 21, 29));
    let collected = collect(GridPositionIterator::new(
        16,
        10,
        7,
        7,
        0,
        0,
        &Angle::new(20, 21, 29),
    ));
    let mut stepped = Vec::new();
    while let Some(coord) = by_hand.next() {
        stepped.push((coord.x.num, coord.y.num, coord.x.den));
    }
    assert_eq!(stepped, collected);
}
