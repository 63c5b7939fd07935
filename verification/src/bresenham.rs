//! Voxel lines between two points (Bresenham's algorithm), in 3D and as a
//! 4-connected line on the horizontal plane.
use vstd::prelude::*;
use vstd::arithmetic::div_mod::{
    lemma_fundamental_div_mod, lemma_fundamental_div_mod_converse, lemma_mod_pos_bound,
};

verus! {

/// Distance between two coordinates on one axis.
pub open spec fn abs_diff(a: int, b: int) -> int {
    if b > a {
        b - a
    } else {
        a - b
    }
}

/// The coordinate reached after `n` unit steps from `from` in the direction
/// of `to`.
pub open spec fn toward(from: int, to: int, n: int) -> int {
    if from < to {
        from + n
    } else {
        from - n
    }
}

/// Number of unit steps taken on a minor axis of length `minor` after `i`
/// steps on the major axis of length `major`: `i * minor / major` rounded
/// to the nearest integer, halves rounded up.
pub open spec fn minor_steps(i: int, minor: int, major: int) -> int {
    if major == 0 {
        0
    } else {
        (2 * i * minor + major) / (2 * major)
    }
}

/// Inputs on which the line can be traced in `i32` arithmetic: every axis
/// distance is an `i32` below `i32::MAX`, and twice the greatest distance
/// fits in an `i32` unless the line runs along a single axis.
pub open spec fn line_fits(x1: i32, y1: i32, z1: i32, x2: i32, y2: i32, z2: i32) -> bool {
    let dx = abs_diff(x1 as int, x2 as int);
    let dy = abs_diff(y1 as int, y2 as int);
    let dz = abs_diff(z1 as int, z2 as int);
    let major = max3(dx, dy, dz);
    &&& major < i32::MAX
    &&& (2 * major <= i32::MAX || dx + dy + dz == major)
}

/// The axis along which a line advances by one block at every step.
#[derive(Clone, Copy, Debug, PartialEq, Eq, Structural)]
pub enum Axis {
    X,
    Y,
    Z,
}

/// The major axis of a line with the given axis distances; ties go to X,
/// then to Y.
pub open spec fn dominant_axis(dx: int, dy: int, dz: int) -> Axis {
    if dx >= dy && dx >= dz {
        Axis::X
    } else if dy >= dx && dy >= dz {
        Axis::Y
    } else {
        Axis::Z
    }
}

/// Point `i` of a line traced along its major axis `a`, with minor axes
/// `b` and `c`, written in `(a, b, c)` order. The last point (`i` equal to
/// the major distance) is the end point.
pub open spec fn frame_point(a1: i32, a2: i32, b1: i32, b2: i32, c1: i32, c2: i32, i: int) -> (
    i32,
    i32,
    i32,
) {
    let major = abs_diff(a1 as int, a2 as int);
    if i == major {
        (a2, b2, c2)
    } else {
        (
            toward(a1 as int, a2 as int, i) as i32,
            toward(b1 as int, b2 as int, minor_steps(i, abs_diff(b1 as int, b2 as int), major))
                as i32,
            toward(c1 as int, c2 as int, minor_steps(i, abs_diff(c1 as int, c2 as int), major))
                as i32,
        )
    }
}

/// Puts a point given in `(major, minor, minor)` order back into `(x, y, z)`
/// order. For `Y` the minors are `x` then `z`; for `Z` they are `y` then `x`.
pub open spec fn orient(axis: Axis, p: (i32, i32, i32)) -> (i32, i32, i32) {
    match axis {
        Axis::X => p,
        Axis::Y => (p.1, p.0, p.2),
        Axis::Z => (p.2, p.1, p.0),
    }
}

/// All points of a line traced along `a`, in `(x, y, z)` order.
pub open spec fn frame_line(a1: i32, a2: i32, b1: i32, b2: i32, c1: i32, c2: i32, axis: Axis) -> Seq<
    (i32, i32, i32),
> {
    Seq::new(
        (abs_diff(a1 as int, a2 as int) + 1) as nat,
        |i: int| orient(axis, frame_point(a1, a2, b1, b2, c1, c2, i)),
    )
}

/// The points of the Bresenham line from `(x1, y1, z1)` to `(x2, y2, z2)`.
pub open spec fn line_points(x1: i32, y1: i32, z1: i32, x2: i32, y2: i32, z2: i32) -> Seq<
    (i32, i32, i32),
> {
    let dx = abs_diff(x1 as int, x2 as int);
    let dy = abs_diff(y1 as int, y2 as int);
    let dz = abs_diff(z1 as int, z2 as int);
    match dominant_axis(dx, dy, dz) {
        Axis::X => frame_line(x1, x2, y1, y2, z1, z2, Axis::X),
        Axis::Y => frame_line(y1, y2, x1, x2, z1, z2, Axis::Y),
        Axis::Z => frame_line(z1, z2, y1, y2, x1, x2, Axis::Z),
    }
}

/// No minor step is taken before the first major step.
proof fn lemma_minor_steps_start(minor: int, major: int)
    requires
        0 <= minor <= major,
    ensures
        minor_steps(0, minor, major) == 0,
{
    if major > 0 {
        assert(2 * 0 * minor + major == 0 * (2 * major) + major) by (nonlinear_arith);
        lemma_fundamental_div_mod_converse(major, 2 * major, 0, major);
    }
}

/// After the last major step every minor step has been taken.
proof fn lemma_minor_steps_end(minor: int, major: int)
    requires
        0 <= minor <= major,
    ensures
        minor_steps(major, minor, major) == minor,
{
    if major > 0 {
        assert(2 * major * minor + major == minor * (2 * major) + major) by (nonlinear_arith);
        lemma_fundamental_div_mod_converse(2 * major * minor + major, 2 * major, minor, major);
    }
}

/// One step of the decision variable of a minor axis: `p` is the error term
/// the loop keeps for step `i`; it is non-negative exactly when the minor
/// coordinate advances, and its update gives the term for step `i + 1`.
proof fn lemma_minor_step(i: int, minor: int, major: int)
    requires
        0 < major,
        0 <= minor <= major,
        0 <= i < major,
    ensures
        ({
            let k = minor_steps(i, minor, major);
            let k2 = minor_steps(i + 1, minor, major);
            let p = 2 * minor * (i + 1) - major - 2 * major * k;
            let p2 = (if p >= 0 {
                p - 2 * major
            } else {
                p
            }) + 2 * minor;
            &&& 0 <= k <= minor
            &&& 0 <= k2 <= minor
            &&& 2 * minor - 2 * major <= p < 2 * minor
            &&& (p >= 0 ==> k2 == k + 1)
            &&& (p < 0 ==> k2 == k)
            &&& p2 == 2 * minor * (i + 2) - major - 2 * major * k2
            &&& 2 * minor - 2 * major <= p2 < 2 * minor
        }),
{
    let m = 2 * major;
    let x = 2 * i * minor + major;
    assert(x >= 0) by (nonlinear_arith)
        requires
            i >= 0,
            minor >= 0,
            major > 0,
            x == 2 * i * minor + major,
    ;
    lemma_fundamental_div_mod(x, m);
    lemma_mod_pos_bound(x, m);
    let k = x / m;
    let r = x % m;
    assert(minor_steps(i, minor, major) == k);
    assert(x == m * k + r);
    let p = 2 * minor * (i + 1) - major - 2 * major * k;
    assert(p == r + 2 * minor - m) by (nonlinear_arith)
        requires
            p == 2 * minor * (i + 1) - major - 2 * major * k,
            x == 2 * i * minor + major,
            x == m * k + r,
            m == 2 * major,
    ;
    let x2 = 2 * (i + 1) * minor + major;
    assert(x2 == x + 2 * minor) by (nonlinear_arith)
        requires
            x2 == 2 * (i + 1) * minor + major,
            x == 2 * i * minor + major,
    ;
    assert(minor_steps(i + 1, minor, major) == x2 / m);
    if p >= 0 {
        assert(x2 == (k + 1) * m + p) by (nonlinear_arith)
            requires
                x2 == x + 2 * minor,
                x == m * k + r,
                p == r + 2 * minor - m,
        ;
        lemma_fundamental_div_mod_converse(x2, m, k + 1, p);
    } else {
        assert(x2 == k * m + (r + 2 * minor)) by (nonlinear_arith)
            requires
                x2 == x + 2 * minor,
                x == m * k + r,
        ;
        lemma_fundamental_div_mod_converse(x2, m, k, r + 2 * minor);
    }
    let k2 = minor_steps(i + 1, minor, major);
    lemma_minor_steps_bounds(i, minor, major);
    lemma_minor_steps_bounds(i + 1, minor, major);
    assert(2 * minor * (i + 2) == 2 * minor * (i + 1) + 2 * minor) by (nonlinear_arith);
    if p >= 0 {
        assert(2 * major * k2 == 2 * major * k + 2 * major) by (nonlinear_arith)
            requires
                k2 == k + 1,
        ;
    }
}

/// The number of minor steps never exceeds the minor distance.
proof fn lemma_minor_steps_bounds(i: int, minor: int, major: int)
    requires
        0 < major,
        0 <= minor <= major,
        0 <= i <= major,
    ensures
        0 <= minor_steps(i, minor, major) <= minor,
{
    let m = 2 * major;
    let x = 2 * i * minor + major;
    assert(0 <= x <= 2 * major * minor + major) by (nonlinear_arith)
        requires
            0 <= i <= major,
            0 <= minor,
            major > 0,
            x == 2 * i * minor + major,
    ;
    lemma_fundamental_div_mod(x, m);
    lemma_mod_pos_bound(x, m);
    let k = x / m;
    assert(0 <= k <= minor) by (nonlinear_arith)
        requires
            x == m * k + x % m,
            0 <= x % m < m,
            m == 2 * major,
            0 <= x <= 2 * major * minor + major,
            major > 0,
    ;
}

/// `q` is a neighbour of `p`: no coordinate differs by more than one and
/// the two points differ.
pub open spec fn adjacent(p: (i32, i32, i32), q: (i32, i32, i32)) -> bool {
    &&& abs_diff(p.0 as int, q.0 as int) <= 1
    &&& abs_diff(p.1 as int, q.1 as int) <= 1
    &&& abs_diff(p.2 as int, q.2 as int) <= 1
    &&& p != q
}

/// On no axis is `q` farther from `end` than `p` is.
pub open spec fn no_farther(p: (i32, i32, i32), q: (i32, i32, i32), end: (i32, i32, i32)) -> bool {
    &&& abs_diff(q.0 as int, end.0 as int) <= abs_diff(p.0 as int, end.0 as int)
    &&& abs_diff(q.1 as int, end.1 as int) <= abs_diff(p.1 as int, end.1 as int)
    &&& abs_diff(q.2 as int, end.2 as int) <= abs_diff(p.2 as int, end.2 as int)
}

/// Largest of three distances.
pub open spec fn max3(a: int, b: int, c: int) -> int {
    if a >= b && a >= c {
        a
    } else if b >= c {
        b
    } else {
        c
    }
}

/// Step `i` of `pts` moves to a neighbouring block that is no farther from
/// `end` on any axis.
pub open spec fn step_toward(pts: Seq<(i32, i32, i32)>, i: int, end: (i32, i32, i32)) -> bool {
    adjacent(pts[i], pts[i + 1]) && no_farther(pts[i], pts[i + 1], end)
}

/// Every step of `pts` moves to a neighbouring block, never away from `end`.
pub open spec fn walks_toward(pts: Seq<(i32, i32, i32)>, end: (i32, i32, i32)) -> bool {
    forall|i: int| 0 <= i < pts.len() - 1 ==> #[trigger] step_toward(pts, i, end)
}

/// Every point of a traced line, the end point included, follows the
/// rounding formula.
proof fn lemma_frame_point_formula(a1: i32, a2: i32, b1: i32, b2: i32, c1: i32, c2: i32, i: int)
    requires
        0 <= i <= abs_diff(a1 as int, a2 as int),
        abs_diff(b1 as int, b2 as int) <= abs_diff(a1 as int, a2 as int),
        abs_diff(c1 as int, c2 as int) <= abs_diff(a1 as int, a2 as int),
    ensures
        ({
            let da = abs_diff(a1 as int, a2 as int);
            let kb = minor_steps(i, abs_diff(b1 as int, b2 as int), da);
            let kc = minor_steps(i, abs_diff(c1 as int, c2 as int), da);
            &&& 0 <= kb <= abs_diff(b1 as int, b2 as int)
            &&& 0 <= kc <= abs_diff(c1 as int, c2 as int)
            &&& frame_point(a1, a2, b1, b2, c1, c2, i) == (
                toward(a1 as int, a2 as int, i) as i32,
                toward(b1 as int, b2 as int, kb) as i32,
                toward(c1 as int, c2 as int, kc) as i32,
            )
        }),
{
    let da = abs_diff(a1 as int, a2 as int);
    let db = abs_diff(b1 as int, b2 as int);
    let dc = abs_diff(c1 as int, c2 as int);
    if da == 0 {
        lemma_minor_steps_start(db, da);
        lemma_minor_steps_start(dc, da);
    } else {
        lemma_minor_steps_bounds(i, db, da);
        lemma_minor_steps_bounds(i, dc, da);
        if i == da {
            lemma_minor_steps_end(db, da);
            lemma_minor_steps_end(dc, da);
        }
    }
}

/// Consecutive points of a traced line are neighbours, and each one is no
/// farther from the end point than the one before.
proof fn lemma_frame_step(a1: i32, a2: i32, b1: i32, b2: i32, c1: i32, c2: i32, i: int)
    requires
        0 <= i < abs_diff(a1 as int, a2 as int),
        abs_diff(b1 as int, b2 as int) <= abs_diff(a1 as int, a2 as int),
        abs_diff(c1 as int, c2 as int) <= abs_diff(a1 as int, a2 as int),
    ensures
        adjacent(
            frame_point(a1, a2, b1, b2, c1, c2, i),
            frame_point(a1, a2, b1, b2, c1, c2, i + 1),
        ),
        no_farther(
            frame_point(a1, a2, b1, b2, c1, c2, i),
            frame_point(a1, a2, b1, b2, c1, c2, i + 1),
            (a2, b2, c2),
        ),
{
    let da = abs_diff(a1 as int, a2 as int);
    lemma_frame_point_formula(a1, a2, b1, b2, c1, c2, i);
    lemma_frame_point_formula(a1, a2, b1, b2, c1, c2, i + 1);
    lemma_minor_step(i, abs_diff(b1 as int, b2 as int), da);
    lemma_minor_step(i, abs_diff(c1 as int, c2 as int), da);
}

/// Shape of a traced line in `(x, y, z)` order: its length, its two ends,
/// and that it moves between neighbours toward the end point.
proof fn lemma_frame_line_shape(
    a1: i32,
    a2: i32,
    b1: i32,
    b2: i32,
    c1: i32,
    c2: i32,
    axis: Axis,
)
    requires
        abs_diff(b1 as int, b2 as int) <= abs_diff(a1 as int, a2 as int),
        abs_diff(c1 as int, c2 as int) <= abs_diff(a1 as int, a2 as int),
    ensures
        frame_line(a1, a2, b1, b2, c1, c2, axis).len() == abs_diff(a1 as int, a2 as int) + 1,
        frame_line(a1, a2, b1, b2, c1, c2, axis)[0] == orient(axis, (a1, b1, c1)),
        frame_line(a1, a2, b1, b2, c1, c2, axis).last() == orient(axis, (a2, b2, c2)),
        walks_toward(frame_line(a1, a2, b1, b2, c1, c2, axis), orient(axis, (a2, b2, c2))),
{
    let pts = frame_line(a1, a2, b1, b2, c1, c2, axis);
    lemma_frame_point_formula(a1, a2, b1, b2, c1, c2, 0);
    lemma_minor_steps_start(abs_diff(b1 as int, b2 as int), abs_diff(a1 as int, a2 as int));
    lemma_minor_steps_start(abs_diff(c1 as int, c2 as int), abs_diff(a1 as int, a2 as int));
    assert forall|i: int| 0 <= i < pts.len() - 1 implies #[trigger] step_toward(
        pts,
        i,
        orient(axis, (a2, b2, c2)),
    ) by {
        lemma_frame_step(a1, a2, b1, b2, c1, c2, i);
        assert(pts[i] == orient(axis, frame_point(a1, a2, b1, b2, c1, c2, i)));
        assert(pts[i + 1] == orient(axis, frame_point(a1, a2, b1, b2, c1, c2, i + 1)));
        lemma_orient_keeps_steps(
            axis,
            frame_point(a1, a2, b1, b2, c1, c2, i),
            frame_point(a1, a2, b1, b2, c1, c2, i + 1),
            (a2, b2, c2),
        );
    }
}

/// Reordering coordinates keeps neighbours neighbours and keeps a step
/// that does not move away from a point.
proof fn lemma_orient_keeps_steps(
    axis: Axis,
    p: (i32, i32, i32),
    q: (i32, i32, i32),
    end: (i32, i32, i32),
)
    requires
        adjacent(p, q),
        no_farther(p, q, end),
    ensures
        adjacent(orient(axis, p), orient(axis, q)),
        no_farther(orient(axis, p), orient(axis, q), orient(axis, end)),
{
    if orient(axis, p) == orient(axis, q) {
        assert(p == q);
    }
}

/// The Bresenham line from `(x1, y1, z1)` to `(x2, y2, z2)` has one point per
/// block of the greatest axis distance plus one, starts at the first point,
/// ends at the second, and every step moves to a neighbouring block that is
/// no farther from the end on any axis.
pub proof fn lemma_line_shape(x1: i32, y1: i32, z1: i32, x2: i32, y2: i32, z2: i32)
    ensures
        ({
            let pts = line_points(x1, y1, z1, x2, y2, z2);
            &&& pts.len() == max3(
                abs_diff(x1 as int, x2 as int),
                abs_diff(y1 as int, y2 as int),
                abs_diff(z1 as int, z2 as int),
            ) + 1
            &&& pts[0] == (x1, y1, z1)
            &&& pts.last() == (x2, y2, z2)
            &&& walks_toward(pts, (x2, y2, z2))
        }),
{
    let dx = abs_diff(x1 as int, x2 as int);
    let dy = abs_diff(y1 as int, y2 as int);
    let dz = abs_diff(z1 as int, z2 as int);
    match dominant_axis(dx, dy, dz) {
        Axis::X => lemma_frame_line_shape(x1, x2, y1, y2, z1, z2, Axis::X),
        Axis::Y => lemma_frame_line_shape(y1, y2, x1, x2, z1, z2, Axis::Y),
        Axis::Z => lemma_frame_line_shape(z1, z2, y1, y2, x1, x2, Axis::Z),
    }
}

/// The `(x, z)` cells of a 3D line.
pub open spec fn xz_cells(pts: Seq<(i32, i32, i32)>) -> Seq<(i32, i32)> {
    pts.map_values(|p: (i32, i32, i32)| (p.0, p.2))
}

/// Inserts, before every diagonal step of `cells`, the corner cell that
/// takes the new `x` and keeps the previous `z`.
pub open spec fn four_connect(cells: Seq<(i32, i32)>) -> Seq<(i32, i32)>
    decreases cells.len(),
{
    if cells.len() == 0 {
        Seq::empty()
    } else {
        let q = cells.last();
        let p = cells[cells.len() - 2];
        let before = four_connect(cells.drop_last());
        if cells.len() >= 2 && q.0 != p.0 && q.1 != p.1 {
            before.push((q.0, p.1)).push(q)
        } else {
            before.push(q)
        }
    }
}

/// The cells of the 4-connected line from `(x1, z1)` to `(x2, z2)`.
pub open spec fn line_4_connected_cells(x1: i32, z1: i32, x2: i32, z2: i32) -> Seq<(i32, i32)> {
    four_connect(xz_cells(line_points(x1, 0, z1, x2, 0, z2)))
}

/// Step `i` of `cells` moves to a cell sharing a face: exactly one
/// coordinate changes, by exactly one.
pub open spec fn face_step(cells: Seq<(i32, i32)>, i: int) -> bool {
    abs_diff(cells[i].0 as int, cells[i + 1].0 as int) + abs_diff(
        cells[i].1 as int,
        cells[i + 1].1 as int,
    ) == 1
}

/// Every pair of consecutive cells shares a face.
pub open spec fn four_connected(cells: Seq<(i32, i32)>) -> bool {
    forall|i: int| 0 <= i < cells.len() - 1 ==> #[trigger] face_step(cells, i)
}

/// Step `i` of `cells` moves to one of the eight surrounding cells.
pub open spec fn king_step(cells: Seq<(i32, i32)>, i: int) -> bool {
    &&& abs_diff(cells[i].0 as int, cells[i + 1].0 as int) <= 1
    &&& abs_diff(cells[i].1 as int, cells[i + 1].1 as int) <= 1
    &&& cells[i] != cells[i + 1]
}

/// On a line whose end points lie at `y == 0`, every point does.
proof fn lemma_flat_line_stays_flat(pts: Seq<(i32, i32, i32)>, end: (i32, i32, i32), i: int)
    requires
        walks_toward(pts, end),
        end.1 == 0,
        pts.len() >= 1,
        pts[0].1 == 0,
        0 <= i < pts.len(),
    ensures
        pts[i].1 == 0,
    decreases i,
{
    if i > 0 {
        lemma_flat_line_stays_flat(pts, end, i - 1);
        assert(step_toward(pts, i - 1, end));
    }
}

/// The horizontal cells of a flat line start and end at its end points and
/// move between surrounding cells.
proof fn lemma_flat_line_cells(x1: i32, z1: i32, x2: i32, z2: i32)
    ensures
        ({
            let cells = xz_cells(line_points(x1, 0, z1, x2, 0, z2));
            &&& cells.len() >= 1
            &&& cells[0] == (x1, z1)
            &&& cells.last() == (x2, z2)
            &&& forall|i: int| 0 <= i < cells.len() - 1 ==> #[trigger] king_step(cells, i)
        }),
{
    lemma_line_shape(x1, 0, z1, x2, 0, z2);
    let pts = line_points(x1, 0, z1, x2, 0, z2);
    let cells = xz_cells(pts);
    assert forall|i: int| 0 <= i < cells.len() - 1 implies #[trigger] king_step(cells, i) by {
        lemma_flat_line_stays_flat(pts, (x2, 0, z2), i);
        lemma_flat_line_stays_flat(pts, (x2, 0, z2), i + 1);
        assert(step_toward(pts, i, (x2, 0, z2)));
    }
}

/// Bridging diagonal steps turns a walk between surrounding cells into a
/// 4-connected walk with the same first and last cells.
proof fn lemma_four_connect(cells: Seq<(i32, i32)>)
    requires
        cells.len() >= 1,
        forall|i: int| 0 <= i < cells.len() - 1 ==> #[trigger] king_step(cells, i),
    ensures
        four_connect(cells).len() >= 1,
        four_connect(cells)[0] == cells[0],
        four_connect(cells).last() == cells.last(),
        four_connected(four_connect(cells)),
    decreases cells.len(),
{
    let r = four_connect(cells);
    if cells.len() == 1 {
        assert(four_connect(cells.drop_last()) =~= Seq::<(i32, i32)>::empty());
    } else {
        let t = cells.drop_last();
        assert forall|i: int| 0 <= i < t.len() - 1 implies #[trigger] king_step(t, i) by {
            assert(king_step(cells, i));
        }
        lemma_four_connect(t);
        let before = four_connect(t);
        let p = cells[cells.len() - 2];
        let q = cells.last();
        assert(king_step(cells, cells.len() - 2));
        assert(before.last() == p);
        assert forall|i: int| 0 <= i < r.len() - 1 implies #[trigger] face_step(r, i) by {
            if i < before.len() - 1 {
                assert(face_step(before, i));
            }
        }
    }
}

/// `orient` on executable values.
fn oriented(axis: Axis, a: i32, b: i32, c: i32) -> (p: (i32, i32, i32))
    ensures
        p == orient(axis, (a, b, c)),
{
    match axis {
        Axis::X => (a, b, c),
        Axis::Y => (b, a, c),
        Axis::Z => (c, b, a),
    }
}

/// Traces the line from `(a1, b1, c1)` to `(a2, b2, c2)` along its major
/// axis `a`, pushing every point in `(x, y, z)` order.
fn trace_line(a1: i32, a2: i32, b1: i32, b2: i32, c1: i32, c2: i32, axis: Axis) -> (points: Vec<
    (i32, i32, i32),
>)
    requires
        abs_diff(a1 as int, a2 as int) < i32::MAX,
        2 * abs_diff(a1 as int, a2 as int) <= i32::MAX || (b1 == b2 && c1 == c2),
        abs_diff(b1 as int, b2 as int) <= abs_diff(a1 as int, a2 as int),
        abs_diff(c1 as int, c2 as int) <= abs_diff(a1 as int, a2 as int),
    ensures
        points@ == frame_line(a1, a2, b1, b2, c1, c2, axis),
{
    let da: i32 = if a2 > a1 {
        a2 - a1
    } else {
        a1 - a2
    };
    let db: i32 = if b2 > b1 {
        b2 - b1
    } else {
        b1 - b2
    };
    let dc: i32 = if c2 > c1 {
        c2 - c1
    } else {
        c1 - c2
    };
    let a_step: i32 = if a1 < a2 {
        1
    } else {
        -1
    };
    let b_step: i32 = if b1 < b2 {
        1
    } else {
        -1
    };
    let c_step: i32 = if c1 < c2 {
        1
    } else {
        -1
    };
    let mut points: Vec<(i32, i32, i32)> = Vec::with_capacity((da as usize) + 1);
    let mut a: i32 = a1;
    let mut b: i32 = b1;
    let mut c: i32 = c1;
    let mut p1: i32 = 2 * db - da;
    let mut p2: i32 = 2 * dc - da;
    let ghost mut i: int = 0;
    proof {
        lemma_minor_steps_start(db as int, da as int);
        lemma_minor_steps_start(dc as int, da as int);
    }
    while a != a2
        invariant
            da == abs_diff(a1 as int, a2 as int),
            db == abs_diff(b1 as int, b2 as int),
            dc == abs_diff(c1 as int, c2 as int),
            da < i32::MAX,
            2 * da <= i32::MAX || (db == 0 && dc == 0),
            db <= da,
            dc <= da,
            a_step == (if a1 < a2 { 1int } else { -1int }),
            b_step == (if b1 < b2 { 1int } else { -1int }),
            c_step == (if c1 < c2 { 1int } else { -1int }),
            0 <= i <= da,
            a == toward(a1 as int, a2 as int, i),
            b == toward(b1 as int, b2 as int, minor_steps(i, db as int, da as int)),
            c == toward(c1 as int, c2 as int, minor_steps(i, dc as int, da as int)),
            p1 == 2 * db * (i + 1) - da - 2 * da * minor_steps(i, db as int, da as int),
            p2 == 2 * dc * (i + 1) - da - 2 * da * minor_steps(i, dc as int, da as int),
            points@.len() == i,
            forall|j: int|
                0 <= j < i ==> points@[j] == orient(axis, frame_point(a1, a2, b1, b2, c1, c2, j)),
        decreases da - i,
    {
        proof {
            lemma_minor_step(i, db as int, da as int);
            lemma_minor_step(i, dc as int, da as int);
        }
        points.push(oriented(axis, a, b, c));
        if p1 >= 0 {
            b += b_step;
            p1 -= 2 * da;
        }
        if p2 >= 0 {
            c += c_step;
            p2 -= 2 * da;
        }
        p1 += 2 * db;
        p2 += 2 * dc;
        a += a_step;
        proof {
            i = i + 1;
        }
    }
    points.push(oriented(axis, a2, b2, c2));
    assert(points@ =~= frame_line(a1, a2, b1, b2, c1, c2, axis));
    points
}

/// Generates the coordinates for a line between two points using the
/// Bresenham algorithm. The result is a vector of 3D coordinates `(x, y, z)`
/// that starts at the first point, ends at the second, and advances by one
/// block per entry along the axis of greatest distance.
pub fn bresenham_line(x1: i32, y1: i32, z1: i32, x2: i32, y2: i32, z2: i32) -> (points: Vec<
    (i32, i32, i32),
>)
    requires
        line_fits(x1, y1, z1, x2, y2, z2),
    ensures
        points@ == line_points(x1, y1, z1, x2, y2, z2),
{
    let dx: i32 = if x2 > x1 {
        x2 - x1
    } else {
        x1 - x2
    };
    let dy: i32 = if y2 > y1 {
        y2 - y1
    } else {
        y1 - y2
    };
    let dz: i32 = if z2 > z1 {
        z2 - z1
    } else {
        z1 - z2
    };
    if dx >= dy && dx >= dz {
        trace_line(x1, x2, y1, y2, z1, z2, Axis::X)
    } else if dy >= dx && dy >= dz {
        trace_line(y1, y2, x1, x2, z1, z2, Axis::Y)
    } else {
        trace_line(z1, z2, y1, y2, x1, x2, Axis::Z)
    }
}

/// Generates a 4-connected (orthogonal) XZ line between two points.
///
/// `bresenham_line` is 8-connected: a diagonal step gives cells that only
/// touch at a corner. For blocks whose model connects to orthogonal
/// neighbours (fences, walls, rails, glass panes) such a step leaves a gap,
/// so this inserts one corner cell on every diagonal step: the cell with the
/// new `x` and the previous `z`. Y is dropped; callers derive it from the
/// terrain at each `(x, z)`.
pub fn bresenham_line_4_connected(x1: i32, z1: i32, x2: i32, z2: i32) -> (out: Vec<(i32, i32)>)
    requires
        line_fits(x1, 0, z1, x2, 0, z2),
    ensures
        out@ == line_4_connected_cells(x1, z1, x2, z2),
        out@.len() >= 1,
        out@[0] == (x1, z1),
        out@.last() == (x2, z2),
        four_connected(out@),
{
    let raw = bresenham_line(x1, 0, z1, x2, 0, z2);
    let ghost cells = xz_cells(raw@);
    let mut out: Vec<(i32, i32)> = Vec::new();
    let mut prev: Option<(i32, i32)> = None;
    let mut idx: usize = 0;
    while idx < raw.len()
        invariant
            cells == xz_cells(raw@),
            0 <= idx <= raw@.len(),
            out@ == four_connect(cells.take(idx as int)),
            prev == (if idx == 0 {
                None
            } else {
                Some(cells[idx - 1])
            }),
        decreases raw@.len() - idx,
    {
        let (bx, _, bz) = raw[idx];
        if let Some((px, pz)) = prev {
            if bx != px && bz != pz {
                out.push((bx, pz));
            }
        }
        out.push((bx, bz));
        prev = Some((bx, bz));
        assert(cells.take(idx + 1).drop_last() =~= cells.take(idx as int));
        idx += 1;
    }
    assert(cells.take(raw@.len() as int) =~= cells);
    proof {
        lemma_flat_line_cells(x1, z1, x2, z2);
        lemma_four_connect(cells);
    }
    out
}

} // verus!
