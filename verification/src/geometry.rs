//! Planar fixed-point geometry: sites, convex cell polygons, areas and
//! centroids.
//!
//! Coordinates are integers in `[0, COORD_LIMIT]`, in whatever unit the
//! caller picks for the domain rectangle.  All polygon arithmetic is exact
//! integer arithmetic over `i128` accumulators.

use vstd::prelude::*;

verus! {

/// Largest coordinate the geometry accepts; keeps every product inside `i128`.
pub const COORD_LIMIT: i64 = 1_000_000_000;

/// Largest vertex count a polygon may have here.
pub const MAX_POLYGON_LEN: usize = 100_000_000;

/// A planar point (a Voronoi site or a polygon vertex).
#[derive(Debug, Clone, Copy, PartialEq, Eq, Structural)]
pub struct Point {
    pub x: i64,
    pub y: i64,
}

/// The point lies in the coordinate range the geometry accepts.
pub open spec fn point_bounded(p: Point) -> bool {
    0 <= p.x <= COORD_LIMIT && 0 <= p.y <= COORD_LIMIT
}

/// Every vertex of the polygon is in range.
pub open spec fn polygon_bounded(poly: Seq<Point>) -> bool {
    forall|i: int| 0 <= i < poly.len() ==> point_bounded(#[trigger] poly[i])
}

/// The point lies in the closed domain rectangle `[0, width] x [0, height]`.
pub open spec fn point_in_domain(p: Point, width: i64, height: i64) -> bool {
    0 <= p.x <= width && 0 <= p.y <= height
}

/// Clamps `v` into `[lo, hi]`.
pub open spec fn clamp_i64_spec(v: i64, lo: i64, hi: i64) -> i64 {
    if v < lo {
        lo
    } else if v > hi {
        hi
    } else {
        v
    }
}

pub fn clamp_i64(v: i64, lo: i64, hi: i64) -> (r: i64)
    requires
        lo <= hi,
    ensures
        r == clamp_i64_spec(v, lo, hi),
        lo <= r <= hi,
{
    if v < lo {
        lo
    } else if v > hi {
        hi
    } else {
        v
    }
}

/// Upper end of [`isqrt`]'s domain.
pub const SQRT_DOMAIN: u64 = 0x4000_0000_0000_0000;

/// The integer square root, as a mathematical function: the largest `r`
/// with `r^2 <= n`.
pub open spec fn sqrt_floor(n: nat) -> nat
    decreases n,
{
    if n == 0 {
        0
    } else {
        let r = sqrt_floor((n - 1) as nat);
        if (r + 1) * (r + 1) <= n {
            r + 1
        } else {
            r
        }
    }
}

/// `sqrt_floor(n)` squares to at most `n`, and is the largest such number.
pub proof fn lemma_sqrt_floor_bounds(n: nat)
    ensures
        sqrt_floor(n) * sqrt_floor(n) <= n,
        n < (sqrt_floor(n) + 1) * (sqrt_floor(n) + 1),
    decreases n,
{
    reveal_with_fuel(sqrt_floor, 2);
    if n == 0 {
        assert(sqrt_floor(0) == 0);
        assert(sqrt_floor(n) * sqrt_floor(n) <= n && n < (sqrt_floor(n) + 1) * (sqrt_floor(n) + 1))
            by (nonlinear_arith)
            requires
                n == 0,
                sqrt_floor(n) == 0,
        ;
    } else {
        lemma_sqrt_floor_bounds((n - 1) as nat);
        let r = sqrt_floor((n - 1) as nat);
        let s = sqrt_floor(n);
        if (r + 1) * (r + 1) <= n {
            assert(s == r + 1);
            assert(n - 1 < (r + 1) * (r + 1));
            assert(s * s <= n && n < (s + 1) * (s + 1)) by (nonlinear_arith)
                requires
                    s == r + 1,
                    (r + 1) * (r + 1) <= n,
                    n <= (r + 1) * (r + 1),
            ;
        } else {
            assert(s == r);
            assert(r * r <= n - 1);
            assert(s * s <= n && n < (s + 1) * (s + 1)) by (nonlinear_arith)
                requires
                    s == r,
                    r * r <= n - 1,
                    !((r + 1) * (r + 1) <= n),
            ;
        }
    }
}

/// Any `r` with `r^2 <= n < (r+1)^2` is `sqrt_floor(n)`.
pub proof fn lemma_sqrt_floor_unique(n: nat, r: nat)
    requires
        r * r <= n,
        n < (r + 1) * (r + 1),
    ensures
        r == sqrt_floor(n),
{
    lemma_sqrt_floor_bounds(n);
    let s = sqrt_floor(n);
    if r < s {
        assert((r + 1) * (r + 1) <= s * s) by (nonlinear_arith)
            requires
                r + 1 <= s,
        ;
    }
    if s < r {
        assert((s + 1) * (s + 1) <= r * r) by (nonlinear_arith)
            requires
                s + 1 <= r,
        ;
    }
}

/// Integer square root: the unique `r` with `r^2 <= n < (r+1)^2`.
pub fn isqrt(n: u64) -> (r: u64)
    requires
        n < SQRT_DOMAIN,
    ensures
        r * r <= n,
        n < (r + 1) * (r + 1),
        r == sqrt_floor(n as nat),
{
    let mut lo: u64 = 0;
    let mut hi: u64 = 0x8000_0000;
    while lo + 1 < hi
        invariant
            lo < hi <= 0x8000_0000,
            lo * lo <= n,
            n < hi * hi,
        decreases hi - lo,
    {
        let mid = lo + (hi - lo) / 2;
        assert(mid * mid < 0x4000_0000_0000_0000) by (nonlinear_arith)
            requires
                mid < 0x8000_0000,
        ;
        if mid * mid <= n {
            lo = mid;
        } else {
            hi = mid;
        }
    }
    proof {
        lemma_sqrt_floor_unique(n as nat, lo as nat);
    }
    lo
}

/// The vertex that follows vertex `i`, wrapping around the polygon.
pub open spec fn vertex_after(poly: Seq<Point>, i: int) -> Point {
    if i + 1 == poly.len() {
        poly[0]
    } else {
        poly[i + 1]
    }
}

/// One term of the shoelace sum: the cross product of edge `(p, q)`.
pub open spec fn shoelace_term(p: Point, q: Point) -> int {
    p.x * q.y - q.x * p.y
}

/// Shoelace sum over the first `k` edges.
pub open spec fn area2_prefix(poly: Seq<Point>, k: int) -> int
    decreases k,
{
    if k <= 0 {
        0
    } else {
        area2_prefix(poly, k - 1) + shoelace_term(poly[k - 1], vertex_after(poly, k - 1))
    }
}

/// Twice the signed area of the polygon (positive when counter-clockwise).
pub open spec fn polygon_area2_spec(poly: Seq<Point>) -> int {
    area2_prefix(poly, poly.len() as int)
}

/// Centroid numerator sums over the first `k` edges.
pub open spec fn cx_prefix(poly: Seq<Point>, k: int) -> int
    decreases k,
{
    if k <= 0 {
        0
    } else {
        cx_prefix(poly, k - 1) + (poly[k - 1].x + vertex_after(poly, k - 1).x) * shoelace_term(
            poly[k - 1],
            vertex_after(poly, k - 1),
        )
    }
}

pub open spec fn cy_prefix(poly: Seq<Point>, k: int) -> int
    decreases k,
{
    if k <= 0 {
        0
    } else {
        cy_prefix(poly, k - 1) + (poly[k - 1].y + vertex_after(poly, k - 1).y) * shoelace_term(
            poly[k - 1],
            vertex_after(poly, k - 1),
        )
    }
}

/// Vertex coordinate sums over the first `k` vertices.
pub open spec fn sum_x_prefix(poly: Seq<Point>, k: int) -> int
    decreases k,
{
    if k <= 0 {
        0
    } else {
        sum_x_prefix(poly, k - 1) + poly[k - 1].x
    }
}

pub open spec fn sum_y_prefix(poly: Seq<Point>, k: int) -> int
    decreases k,
{
    if k <= 0 {
        0
    } else {
        sum_y_prefix(poly, k - 1) + poly[k - 1].y
    }
}

/// One centroid coordinate from its numerator `s` and denominator `m`:
/// quotients below the range floor at zero, above it cap at `COORD_LIMIT`.
pub open spec fn centroid_coord_spec(s: int, m: int) -> i64 {
    if s <= 0 {
        0
    } else if s / m > COORD_LIMIT {
        COORD_LIMIT
    } else {
        (s / m) as i64
    }
}

/// The area-weighted polygon centroid; a polygon whose signed area is zero
/// falls back to the plain average of its vertices.
pub open spec fn polygon_centroid_spec(poly: Seq<Point>) -> Point {
    let a2 = polygon_area2_spec(poly);
    if a2 == 0 {
        Point {
            x: (sum_x_prefix(poly, poly.len() as int) / poly.len() as int) as i64,
            y: (sum_y_prefix(poly, poly.len() as int) / poly.len() as int) as i64,
        }
    } else {
        let sx = if a2 > 0 {
            cx_prefix(poly, poly.len() as int)
        } else {
            -cx_prefix(poly, poly.len() as int)
        };
        let sy = if a2 > 0 {
            cy_prefix(poly, poly.len() as int)
        } else {
            -cy_prefix(poly, poly.len() as int)
        };
        let m = 3 * (if a2 > 0 {
            a2
        } else {
            -a2
        });
        Point { x: centroid_coord_spec(sx, m), y: centroid_coord_spec(sy, m) }
    }
}

proof fn lemma_coord_prod_bound(a: int, b: int)
    requires
        0 <= a <= 1_000_000_000,
        0 <= b <= 1_000_000_000,
    ensures
        0 <= a * b <= 1_000_000_000_000_000_000,
{
    assert(0 <= a * b <= 1_000_000_000_000_000_000) by (nonlinear_arith)
        requires
            0 <= a <= 1_000_000_000,
            0 <= b <= 1_000_000_000,
    ;
}

proof fn lemma_shoelace_term_bound(p: Point, q: Point)
    requires
        point_bounded(p),
        point_bounded(q),
    ensures
        -2_000_000_000_000_000_000 <= shoelace_term(p, q) <= 2_000_000_000_000_000_000,
{
    assert(-2_000_000_000_000_000_000 <= p.x * q.y - q.x * p.y <= 2_000_000_000_000_000_000)
        by (nonlinear_arith)
        requires
            0 <= p.x <= 1_000_000_000,
            0 <= p.y <= 1_000_000_000,
            0 <= q.x <= 1_000_000_000,
            0 <= q.y <= 1_000_000_000,
    ;
}

proof fn lemma_centroid_term_bound(c: int, t: int)
    requires
        0 <= c <= 2_000_000_000,
        -2_000_000_000_000_000_000 <= t <= 2_000_000_000_000_000_000,
    ensures
        -4_000_000_000_000_000_000_000_000_000 <= c * t <= 4_000_000_000_000_000_000_000_000_000,
{
    assert(-4_000_000_000_000_000_000_000_000_000 <= c * t
        <= 4_000_000_000_000_000_000_000_000_000) by (nonlinear_arith)
        requires
            0 <= c <= 2_000_000_000,
            -2_000_000_000_000_000_000 <= t <= 2_000_000_000_000_000_000,
    ;
}

/// Twice the signed area of `poly`, by the shoelace formula.
pub fn polygon_area2(poly: &Vec<Point>) -> (r: i128)
    requires
        polygon_bounded(poly@),
        poly.len() <= MAX_POLYGON_LEN,
    ensures
        r == polygon_area2_spec(poly@),
{
    let n = poly.len();
    let mut total: i128 = 0;
    let mut i: usize = 0;
    while i < n
        invariant
            i <= n,
            n == poly.len() <= MAX_POLYGON_LEN,
            polygon_bounded(poly@),
            total == area2_prefix(poly@, i as int),
            -2_000_000_000_000_000_000 * (i as int) <= total <= 2_000_000_000_000_000_000 * (
            i as int),
        decreases n - i,
    {
        let p = poly[i];
        let j = if i + 1 == n {
            0
        } else {
            i + 1
        };
        let q = poly[j];
        proof {
            lemma_shoelace_term_bound(p, q);
            lemma_coord_prod_bound(p.x as int, q.y as int);
            lemma_coord_prod_bound(q.x as int, p.y as int);
        }
        let term: i128 = (p.x as i128) * (q.y as i128) - (q.x as i128) * (p.y as i128);
        total = total + term;
        i = i + 1;
    }
    total
}

/// The area-weighted centroid of `poly`, falling back to the vertex average
/// when the signed area is exactly zero.
pub fn calculate_polygon_centroid(poly: &Vec<Point>) -> (r: Point)
    requires
        polygon_bounded(poly@),
        0 < poly.len() <= MAX_POLYGON_LEN,
    ensures
        r == polygon_centroid_spec(poly@),
        point_bounded(r),
{
    let n = poly.len();
    let mut area2: i128 = 0;
    let mut cx: i128 = 0;
    let mut cy: i128 = 0;
    let mut sx: i128 = 0;
    let mut sy: i128 = 0;
    let mut i: usize = 0;
    while i < n
        invariant
            i <= n,
            n == poly.len() <= MAX_POLYGON_LEN,
            polygon_bounded(poly@),
            area2 == area2_prefix(poly@, i as int),
            cx == cx_prefix(poly@, i as int),
            cy == cy_prefix(poly@, i as int),
            sx == sum_x_prefix(poly@, i as int),
            sy == sum_y_prefix(poly@, i as int),
            -2_000_000_000_000_000_000 * (i as int) <= area2 <= 2_000_000_000_000_000_000 * (
            i as int),
            -4_000_000_000_000_000_000_000_000_000 * (i as int) <= cx
                <= 4_000_000_000_000_000_000_000_000_000 * (i as int),
            -4_000_000_000_000_000_000_000_000_000 * (i as int) <= cy
                <= 4_000_000_000_000_000_000_000_000_000 * (i as int),
            0 <= sx <= 1_000_000_000 * (i as int),
            0 <= sy <= 1_000_000_000 * (i as int),
        decreases n - i,
    {
        let p = poly[i];
        let j = if i + 1 == n {
            0
        } else {
            i + 1
        };
        let q = poly[j];
        proof {
            lemma_shoelace_term_bound(p, q);
            lemma_centroid_term_bound((p.x + q.x) as int, shoelace_term(p, q));
            lemma_centroid_term_bound((p.y + q.y) as int, shoelace_term(p, q));
            lemma_coord_prod_bound(p.x as int, q.y as int);
            lemma_coord_prod_bound(q.x as int, p.y as int);
        }
        let term: i128 = (p.x as i128) * (q.y as i128) - (q.x as i128) * (p.y as i128);
        assert(((p.x + q.x) as i128) * term == ((p.x + q.x) as int) * (term as int) && ((p.y
            + q.y) as i128) * term == ((p.y + q.y) as int) * (term as int)) by (nonlinear_arith)
            requires
                0 <= p.x + q.x <= 2_000_000_000,
                0 <= p.y + q.y <= 2_000_000_000,
                -2_000_000_000_000_000_000 <= term <= 2_000_000_000_000_000_000,
        ;
        area2 = area2 + term;
        cx = cx + ((p.x + q.x) as i128) * term;
        cy = cy + ((p.y + q.y) as i128) * term;
        sx = sx + (p.x as i128);
        sy = sy + (p.y as i128);
        i = i + 1;
    }
    if area2 == 0 {
        let ax = (sx as u128) / (n as u128);
        let ay = (sy as u128) / (n as u128);
        assert((sx as int) / (n as int) <= 1_000_000_000 && (sy as int) / (n as int)
            <= 1_000_000_000)
            by (nonlinear_arith)
            requires
                0 < n,
                0 <= sx <= 1_000_000_000 * (n as int),
                0 <= sy <= 1_000_000_000 * (n as int),
        ;
        Point { x: ax as i64, y: ay as i64 }
    } else {
        let (nx, ny, m) = if area2 > 0 {
            (cx, cy, 3 * area2)
        } else {
            (-cx, -cy, 3 * (-area2))
        };
        let rx = centroid_coord(nx, m);
        let ry = centroid_coord(ny, m);
        Point { x: rx, y: ry }
    }
}

/// One centroid coordinate, as [`centroid_coord_spec`] says.
fn centroid_coord(s: i128, m: i128) -> (r: i64)
    requires
        0 < m,
    ensures
        r == centroid_coord_spec(s as int, m as int),
        0 <= r <= COORD_LIMIT,
{
    if s <= 0 {
        0
    } else {
        let q = (s as u128) / (m as u128);
        if q > (COORD_LIMIT as u128) {
            COORD_LIMIT
        } else {
            q as i64
        }
    }
}

} // verus!
