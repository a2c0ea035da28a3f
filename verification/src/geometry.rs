//! Fixed-point plane geometry.
//!
//! Coordinates are integers; the application picks the scale (how many
//! units stand for one normalized-device-coordinate unit) and divides by
//! it when it uploads vertices to the GPU. Keeping the model integral lets
//! every vertex a shape generates be pinned down exactly.

use vstd::prelude::*;

verus! {

/// A point of the plane, in fixed-point coordinate units.
#[derive(Clone, Copy, Debug, PartialEq, Eq, Structural)]
pub struct Point {
    pub x: i64,
    pub y: i64,
}

/// A width/height pair, in the same units as `Point`.
#[derive(Clone, Copy, Debug, PartialEq, Eq, Structural)]
pub struct Size {
    pub width: i64,
    pub height: i64,
}

impl Size {
    /// A size is valid when both extents are positive; constructing a
    /// shape with a degenerate size is ruled out at the call site.
    pub open spec fn valid(self) -> bool {
        0 < self.width && 0 < self.height
    }
}

/// The corners of the axis-aligned box of extent `size` centered at
/// `position`. Half extents round down, as the executable division does.
pub open spec fn box_left(size: Size, position: Point) -> int {
    position.x - size.width / 2
}

pub open spec fn box_right(size: Size, position: Point) -> int {
    position.x + size.width / 2
}

pub open spec fn box_bottom(size: Size, position: Point) -> int {
    position.y - size.height / 2
}

pub open spec fn box_top(size: Size, position: Point) -> int {
    position.y + size.height / 2
}

/// All four corner coordinates stay representable in `i64`.
pub open spec fn box_in_range(size: Size, position: Point) -> bool {
    i64::MIN <= box_left(size, position) && box_right(size, position) <= i64::MAX
        && i64::MIN <= box_bottom(size, position) && box_top(size, position) <= i64::MAX
}

/// The six vertices of the two counter-clockwise triangles that tile the
/// box: bottom-left, bottom-right, top-right, then bottom-left, top-right,
/// top-left.
pub open spec fn rectangle_vertices_spec(size: Size, position: Point) -> Seq<Point> {
    let l = box_left(size, position) as i64;
    let r = box_right(size, position) as i64;
    let b = box_bottom(size, position) as i64;
    let t = box_top(size, position) as i64;
    seq![
        Point { x: l, y: b },
        Point { x: r, y: b },
        Point { x: r, y: t },
        Point { x: l, y: b },
        Point { x: r, y: t },
        Point { x: l, y: t },
    ]
}

/// Generates the rectangle's vertex list: exactly six vertices, two
/// triangles covering the axis-aligned box of extent `size` centered at
/// `position`.
pub fn rectangle_vertices(size: Size, position: Point) -> (v: Vec<Point>)
    requires
        size.valid(),
        box_in_range(size, position),
    ensures
        v@ == rectangle_vertices_spec(size, position),
        v@.len() == 6,
{
    let half_w = size.width / 2;
    let half_h = size.height / 2;
    let l = position.x - half_w;
    let r = position.x + half_w;
    let b = position.y - half_h;
    let t = position.y + half_h;
    let v = vec![
        Point { x: l, y: b },
        Point { x: r, y: b },
        Point { x: r, y: t },
        Point { x: l, y: b },
        Point { x: r, y: t },
        Point { x: l, y: t },
    ];
    proof {
        assert(v@ =~= rectangle_vertices_spec(size, position));
    }
    v
}

/// Twice the signed area of the triangle (a, b, p): positive when p lies
/// strictly to the left of the directed edge a -> b.
pub open spec fn cross(ax: int, ay: int, bx: int, by: int, px: int, py: int) -> int {
    (bx - ax) * (py - ay) - (by - ay) * (px - ax)
}

/// Membership of (px, py) in the closed triangle (a, b, c), the triangle
/// given counter-clockwise: the point is on or to the left of each edge.
pub open spec fn in_triangle(px: int, py: int, a: Point, b: Point, c: Point) -> bool {
    cross(a.x as int, a.y as int, b.x as int, b.y as int, px, py) >= 0 && cross(
        b.x as int,
        b.y as int,
        c.x as int,
        c.y as int,
        px,
        py,
    ) >= 0 && cross(c.x as int, c.y as int, a.x as int, a.y as int, px, py) >= 0
}

/// The triangle (a, b, c) is counter-clockwise and not degenerate.
pub open spec fn counter_clockwise(a: Point, b: Point, c: Point) -> bool {
    cross(a.x as int, a.y as int, b.x as int, b.y as int, c.x as int, c.y as int) > 0
}

/// Membership of (px, py) in the closed box of extent `size` at `position`.
pub open spec fn in_box(px: int, py: int, size: Size, position: Point) -> bool {
    box_left(size, position) <= px <= box_right(size, position) && box_bottom(size, position) <= py
        <= box_top(size, position)
}

/// The arithmetic core of the covering law, over a plain box `[l, r] x
/// [b, t]` split along the diagonal from (l, b) to (r, t).
proof fn lemma_box_split(l: int, r: int, b: int, t: int, px: int, py: int)
    requires
        l < r,
        b < t,
    ensures
        (l <= px <= r && b <= py <= t) <==> ((r - l) * (py - b) >= 0 && (t - b) * (r - px) >= 0 && (
        r - l) * (t - py) - (t - b) * (r - px) >= 0) || ((r - l) * (py - b) - (t - b) * (px - l)
            >= 0 && (r - l) * (t - py) >= 0 && (t - b) * (px - l) >= 0),
{
    let d = (r - l) * (py - b) - (t - b) * (px - l);
    if l <= px <= r && b <= py <= t {
        if d <= 0 {
            assert((r - l) * (py - b) >= 0 && (t - b) * (r - px) >= 0 && (r - l) * (t - py) - (t
                - b) * (r - px) >= 0) by (nonlinear_arith)
                requires
                    l <= px <= r,
                    b <= py <= t,
                    (r - l) * (py - b) - (t - b) * (px - l) <= 0,
            ;
        } else {
            assert((r - l) * (py - b) - (t - b) * (px - l) >= 0 && (r - l) * (t - py) >= 0 && (t
                - b) * (px - l) >= 0) by (nonlinear_arith)
                requires
                    l <= px <= r,
                    b <= py <= t,
                    (r - l) * (py - b) - (t - b) * (px - l) >= 0,
            ;
        }
    }
    if (r - l) * (py - b) >= 0 && (t - b) * (r - px) >= 0 && (r - l) * (t - py) - (t - b) * (r - px)
        >= 0 {
        assert(l <= px <= r && b <= py <= t) by (nonlinear_arith)
            requires
                l < r,
                b < t,
                (r - l) * (py - b) >= 0,
                (t - b) * (r - px) >= 0,
                (r - l) * (t - py) - (t - b) * (r - px) >= 0,
        ;
    }
    if (r - l) * (py - b) - (t - b) * (px - l) >= 0 && (r - l) * (t - py) >= 0 && (t - b) * (px - l)
        >= 0 {
        assert(l <= px <= r && b <= py <= t) by (nonlinear_arith)
            requires
                l < r,
                b < t,
                (r - l) * (py - b) - (t - b) * (px - l) >= 0,
                (r - l) * (t - py) >= 0,
                (t - b) * (px - l) >= 0,
        ;
    }
}

/// The six generated vertices form two counter-clockwise triangles whose
/// union is exactly the axis-aligned box of extent `size` centered at
/// `position`: a point of the plane lies in the box if and only if it lies
/// in one of the two triangles.
///
/// The law asks for extents of at least two coordinate units: at extent
/// one the integer half extent is zero, the box collapses to a segment and
/// the two triangles degenerate.
pub proof fn lemma_rectangle_covers_box(size: Size, position: Point, px: int, py: int)
    requires
        2 <= size.width,
        2 <= size.height,
        box_in_range(size, position),
    ensures
        ({
            let v = rectangle_vertices_spec(size, position);
            &&& in_box(px, py, size, position) <==> (in_triangle(px, py, v[0], v[1], v[2])
                || in_triangle(px, py, v[3], v[4], v[5]))
            &&& counter_clockwise(v[0], v[1], v[2])
            &&& counter_clockwise(v[3], v[4], v[5])
        }),
{
    let l = box_left(size, position);
    let r = box_right(size, position);
    let b = box_bottom(size, position);
    let t = box_top(size, position);
    assert(l < r && b < t);
    let v = rectangle_vertices_spec(size, position);
    assert(v[0].x == l && v[0].y == b && v[1].x == r && v[1].y == b && v[2].x == r && v[2].y == t
        && v[3].x == l && v[3].y == b && v[4].x == r && v[4].y == t && v[5].x == l && v[5].y == t);
    lemma_box_split(l, r, b, t, px, py);
    // The six edge tests of the two triangles, rewritten to the products
    // the split lemma speaks of.
    assert(cross(l, b, r, b, px, py) == (r - l) * (py - b)) by (nonlinear_arith);
    assert(cross(r, b, r, t, px, py) == (t - b) * (r - px)) by (nonlinear_arith);
    assert(cross(r, t, l, b, px, py) == (r - l) * (t - py) - (t - b) * (r - px)) by (
    nonlinear_arith);
    assert(cross(l, b, r, t, px, py) == (r - l) * (py - b) - (t - b) * (px - l)) by (
    nonlinear_arith);
    assert(cross(r, t, l, t, px, py) == (r - l) * (t - py)) by (nonlinear_arith);
    assert(cross(l, t, l, b, px, py) == (t - b) * (px - l)) by (nonlinear_arith);
    assert(cross(l, b, r, b, r, t) == (r - l) * (t - b)) by (nonlinear_arith);
    assert(cross(l, b, r, t, l, t) == (r - l) * (t - b)) by (nonlinear_arith);
    assert((r - l) * (t - b) > 0) by (nonlinear_arith)
        requires
            l < r,
            b < t,
    ;
}

} // verus!
