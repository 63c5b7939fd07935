use arnis::bresenham::{bresenham_line, bresenham_line_4_connected};

fn is_4_connected(points: &[(i32, i32)]) -> bool {
    points
        .windows(2)
        .all(|w| (w[0].0 - w[1].0).abs() + (w[0].1 - w[1].1).abs() == 1)
}

#[test]
fn line_4_connected_single_step() {
    let pts = bresenham_line_4_connected(0, 0, 1, 0);
    assert_eq!(pts, vec![(0, 0), (1, 0)]);
}

#[test]
fn line_4_connected_diagonal() {
    let pts = bresenham_line_4_connected(0, 0, 3, 3);
    assert!(is_4_connected(&pts));
    assert_eq!(pts.first(), Some(&(0, 0)));
    assert_eq!(pts.last(), Some(&(3, 3)));
}

#[test]
fn line_4_connected_x_major() {
    let pts = bresenham_line_4_connected(0, 0, 10, 3);
    assert!(is_4_connected(&pts));
}

#[test]
fn line_4_connected_z_major() {
    let pts = bresenham_line_4_connected(0, 0, 3, 10);
    assert!(is_4_connected(&pts));
}

#[test]
fn line_4_connected_negative_direction() {
    let pts = bresenham_line_4_connected(5, 5, 0, 0);
    assert!(is_4_connected(&pts));
    assert_eq!(pts.first(), Some(&(5, 5)));
    assert_eq!(pts.last(), Some(&(0, 0)));
}

#[test]
fn line_single_point() {
    assert_eq!(bresenham_line(4, -2, 7, 4, -2, 7), vec![(4, -2, 7)]);
}

#[test]
fn line_x_major_rounds_half_up() {
    // dy / dx = 1 / 4: the minor axis steps at the first point where the
    // exact line is at least half a block away.
    assert_eq!(
        bresenham_line(0, 0, 0, 4, 1, 0),
        vec![(0, 0, 0), (1, 0, 0), (2, 1, 0), (3, 1, 0), (4, 1, 0)]
    );
}

#[test]
fn line_y_major_negative() {
    assert_eq!(
        bresenham_line(0, 0, 0, -1, -3, 2),
        vec![(0, 0, 0), (0, -1, 1), (-1, -2, 1), (-1, -3, 2)]
    );
}

#[test]
fn line_z_major() {
    assert_eq!(
        bresenham_line(1, 1, 1, 2, 0, 4),
        vec![(1, 1, 1), (1, 1, 2), (2, 0, 3), (2, 0, 4)]
    );
}

#[test]
fn line_ties_prefer_x_then_y() {
    // Equal distances on every axis: traced along X, a pure diagonal.
    assert_eq!(
        bresenham_line(0, 0, 0, 2, 2, 2),
        vec![(0, 0, 0), (1, 1, 1), (2, 2, 2)]
    );
    // Y and Z tie above X: traced along Y.
    assert_eq!(
        bresenham_line(0, 0, 0, 1, 2, 2),
        vec![(0, 0, 0), (1, 1, 1), (1, 2, 2)]
    );
}

#[test]
fn line_steps_are_neighbours_and_end_exactly() {
    let pts = bresenham_line(-7, 3, 11, 5, -9, 2);
    assert_eq!(pts.len(), 13);
    assert_eq!(pts[0], (-7, 3, 11));
    assert_eq!(pts[12], (5, -9, 2));
    for w in pts.windows(2) {
        let (a, b) = (w[0], w[1]);
        assert!((a.0 - b.0).abs() <= 1 && (a.1 - b.1).abs() <= 1 && (a.2 - b.2).abs() <= 1);
        assert_ne!(a, b);
    }
}

#[test]
fn line_4_connected_inserts_corner_with_previous_z() {
    assert_eq!(
        bresenham_line_4_connected(0, 0, 2, 1),
        vec![(0, 0), (1, 0), (1, 1), (2, 1)]
    );
    assert_eq!(
        bresenham_line_4_connected(0, 0, 1, 1),
        vec![(0, 0), (1, 0), (1, 1)]
    );
}
