use crate::geometry::{lerp_int, quad_int, represents, whole, Point, RationalPoint};
use crate::spline::{appended, recomputed, render, SplineModel};
use vstd::prelude::*;

verus! {

/// `p0`, `p1` and `p2` lie on one line.
pub open spec fn collinear(p0: Point, p1: Point, p2: Point) -> bool {
    (p1.x - p0.x) * (p2.y - p0.y) == (p1.y - p0.y) * (p2.x - p0.x)
}

/// `q` lies on the line through `p0` and `p1` and on the line through `p0`
/// and `p2` (whichever of them exist).
pub open spec fn on_line(q: RationalPoint, p0: Point, p1: Point, p2: Point) -> bool {
    &&& q.den > 0
    &&& (q.x - q.den * p0.x) * (p1.y - p0.y) == (q.y - q.den * p0.y) * (p1.x - p0.x)
    &&& (q.x - q.den * p0.x) * (p2.y - p0.y) == (q.y - q.den * p0.y) * (p2.x - p0.x)
}

proof fn lemma_quad_offset(k: int, r: int, a: int, b: int, c: int)
    ensures
        quad_int(k, r, a, b, c) - r * r * a == 2 * k * (r - k) * (b - a) + k * k * (c - a),
{
    let j = r - k;
    assert(j * (j * a + k * b) == j * j * a + j * k * b) by (nonlinear_arith);
    assert(k * (j * b + k * c) == j * k * b + k * k * c) by (nonlinear_arith);
    assert(r * r * a == j * j * a + 2 * (j * k * a) + k * k * a) by (nonlinear_arith)
        requires
            r == j + k,
    ;
    assert(2 * k * j * (b - a) == 2 * (j * k * b) - 2 * (j * k * a)) by (nonlinear_arith);
    assert(k * k * (c - a) == k * k * c - k * k * a) by (nonlinear_arith);
}

proof fn lemma_cross_zero(s: int, t: int, u: int, w: int, v: int, z: int)
    requires
        u * z == w * v,
    ensures
        (s * u + t * v) * w == (s * w + t * z) * u,
        (s * u + t * v) * z == (s * w + t * z) * v,
{
    assert((s * u + t * v) * w == (s * w + t * z) * u) by (nonlinear_arith)
        requires
            u * z == w * v,
    ;
    assert((s * u + t * v) * z == (s * w + t * z) * v) by (nonlinear_arith)
        requires
            u * z == w * v,
    ;
}

/// Every point rendered from three collinear control points lies on their
/// line.
pub proof fn lemma_collinear_curve_stays_on_line(cps: Seq<Point>, r: nat)
    requires
        r >= 1,
        cps.len() == 3,
        collinear(cps[0], cps[1], cps[2]),
    ensures
        forall|k: int|
            0 <= k < render(cps, r as int).len() ==> on_line(
                #[trigger] render(cps, r as int)[k],
                cps[0],
                cps[1],
                cps[2],
            ),
{
    let (p0, p1, p2) = (cps[0], cps[1], cps[2]);
    let ri = r as int;
    let u = p1.x - p0.x;
    let w = p1.y - p0.y;
    let v = p2.x - p0.x;
    let z = p2.y - p0.y;
    assert(ri * ri > 0) by (nonlinear_arith)
        requires
            ri >= 1,
    ;
    assert forall|k: int| 0 <= k < render(cps, ri).len() implies on_line(
        #[trigger] render(cps, ri)[k],
        p0,
        p1,
        p2,
    ) by {
        if k <= ri {
            lemma_quad_offset(k, ri, p0.x as int, p1.x as int, p2.x as int);
            lemma_quad_offset(k, ri, p0.y as int, p1.y as int, p2.y as int);
            lemma_cross_zero(2 * k * (ri - k), k * k, u, w, v, z);
        } else {
            lemma_cross_zero(0, 1, u, w, v, z);
        }
    }
}

/// With exactly two control points the rendered points are those two.
pub proof fn lemma_two_points_render_as_segment(p0: Point, p1: Point, r: int)
    ensures
        render(seq![p0, p1], r) == seq![whole(p0), whole(p1)],
{
    assert(seq![p0, p1].len() == 2);
}

/// With fewer than two control points the rendered points are the control
/// points themselves.
pub proof fn lemma_short_sequence_renders_as_itself(cps: Seq<Point>, r: int)
    requires
        cps.len() <= 1,
    ensures
        render(cps, r).len() == cps.len(),
        forall|k: int| 0 <= k < cps.len() ==> #[trigger] render(cps, r)[k] == whole(cps[k]),
{
}

/// With exactly three control points the rendered points start at the first
/// and end exactly on the last.
pub proof fn lemma_quadratic_endpoints(cps: Seq<Point>, r: nat)
    requires
        r >= 1,
        cps.len() == 3,
    ensures
        represents(render(cps, r as int)[0], cps[0]),
        render(cps, r as int).last() == whole(cps[2]),
{
    let (p0, p1) = (cps[0], cps[1]);
    let ri = r as int;
    assert(lerp_int(0, ri, p0.x as int, p1.x as int) == ri * p0.x);
    assert(lerp_int(0, ri, p0.y as int, p1.y as int) == ri * p0.y);
    assert(ri * (ri * p0.x) == (ri * ri) * p0.x) by (nonlinear_arith);
    assert(ri * (ri * p0.y) == (ri * ri) * p0.y) by (nonlinear_arith);
    assert(ri * ri > 0) by (nonlinear_arith)
        requires
            ri >= 1,
    ;
}

/// Deriving the rendered points a second time changes nothing.
pub proof fn lemma_recompute_idempotent(s: SplineModel)
    ensures
        recomputed(recomputed(s)) == recomputed(s),
{
}

/// After an append the rendered points depend on the new control points and
/// the resolution alone, never on the points rendered before.
pub proof fn lemma_append_ignores_prior_points(s: SplineModel, t: SplineModel, p: Point)
    requires
        s.control_points == t.control_points,
        s.resolution == t.resolution,
    ensures
        appended(s, p) == appended(t, p),
        appended(s, p).points == render(s.control_points.push(p), s.resolution as int),
{
}

} // verus!
