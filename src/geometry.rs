use vstd::prelude::*;

verus! {

/// The largest resolution a spline accepts. It keeps every numerator of a
/// rendered point (at most `resolution^3 * 2^63` in magnitude) inside `i128`.
pub const MAX_RESOLUTION: usize = 1048576;

/// A control point: integer coordinates in drawing units.
#[derive(Clone, Copy, Debug, PartialEq, Eq, Structural)]
pub struct Point {
    pub x: i64,
    pub y: i64,
}

/// A rendered point, held exactly as the rational point `(x / den, y / den)`.
#[derive(Clone, Copy, Debug, PartialEq, Eq, Structural)]
pub struct RenderedPoint {
    pub x: i128,
    pub y: i128,
    pub den: u64,
}

/// The mathematical value of a rendered point.
pub struct RationalPoint {
    pub x: int,
    pub y: int,
    pub den: int,
}

impl View for RenderedPoint {
    type V = RationalPoint;

    open spec fn view(&self) -> RationalPoint {
        RationalPoint { x: self.x as int, y: self.y as int, den: self.den as int }
    }
}

/// A control point as a rational point with denominator one.
pub open spec fn whole(p: Point) -> RationalPoint {
    RationalPoint { x: p.x as int, y: p.y as int, den: 1 }
}

/// `q` stands for the same location as `p`.
pub open spec fn represents(q: RationalPoint, p: Point) -> bool {
    q.den > 0 && q.x == q.den * p.x && q.y == q.den * p.y
}

/// Numerator of `lerp(i / r, a / d, b / d)` over the denominator `d * r`.
pub open spec fn lerp_int(i: int, r: int, a: int, b: int) -> int {
    (r - i) * a + i * b
}

/// De Casteljau's construction on one coordinate of a quadratic curve at
/// `t = i / r`: numerator over `r^2`.
pub open spec fn quad_int(i: int, r: int, a: int, b: int, c: int) -> int {
    lerp_int(i, r, lerp_int(i, r, a, b), lerp_int(i, r, b, c))
}

/// Blend at `t = i / r` of the quadratic curves over `(a, b, c)` and
/// `(b, c, d)`: numerator over `r^3`.
pub open spec fn blend_int(i: int, r: int, a: int, b: int, c: int, d: int) -> int {
    lerp_int(i, r, quad_int(i, r, a, b, c), quad_int(i, r, b, c, d))
}

/// Largest magnitude of a coordinate of a control point.
pub open spec fn coord_limit() -> int {
    0x8000_0000_0000_0000
}

/// The numerators of `q` lie within the control points' range scaled by its
/// denominator.
pub open spec fn bounded(q: RenderedPoint) -> bool {
    -(q.den * coord_limit()) <= q.x <= q.den * coord_limit() && -(q.den * coord_limit()) <= q.y
        <= q.den * coord_limit()
}

proof fn lemma_lerp_bound(i: int, r: int, a: int, b: int, m: int)
    requires
        0 <= i <= r,
        -m <= a <= m,
        -m <= b <= m,
    ensures
        -(r * m) <= (r - i) * a <= r * m,
        -(r * m) <= i * b <= r * m,
        -(r * m) <= lerp_int(i, r, a, b) <= r * m,
{
    assert(0 <= (r - i) * m && 0 <= i * m) by (nonlinear_arith)
        requires
            0 <= i <= r,
            0 <= m,
    ;
    assert((r - i) * a <= (r - i) * m) by (nonlinear_arith)
        requires
            0 <= r - i,
            a <= m,
    ;
    assert((r - i) * a >= -((r - i) * m)) by (nonlinear_arith)
        requires
            0 <= r - i,
            -m <= a,
    ;
    assert(i * b <= i * m) by (nonlinear_arith)
        requires
            0 <= i,
            b <= m,
    ;
    assert(i * b >= -(i * m)) by (nonlinear_arith)
        requires
            0 <= i,
            -m <= b,
    ;
    assert((r - i) * m + i * m == r * m) by (nonlinear_arith);
}

/// The control point `p` as a rendered point.
pub fn lift(p: Point) -> (q: RenderedPoint)
    ensures
        q@ == whole(p),
        bounded(q),
{
    RenderedPoint { x: p.x as i128, y: p.y as i128, den: 1 }
}

/// Linear interpolation at `t = i / r` between two rendered points of the
/// same denominator; the result has denominator `a.den * r`.
pub fn lerp(i: usize, r: usize, a: RenderedPoint, b: RenderedPoint) -> (q: RenderedPoint)
    requires
        i <= r,
        a.den == b.den,
        a.den * r <= 0x1000_0000_0000_0000,
        bounded(a),
        bounded(b),
    ensures
        q@ == (RationalPoint {
            x: lerp_int(i as int, r as int, a.x as int, b.x as int),
            y: lerp_int(i as int, r as int, a.y as int, b.y as int),
            den: a.den * r,
        }),
        bounded(q),
{
    proof {
        lemma_lerp_bound(i as int, r as int, a.x as int, b.x as int, a.den * coord_limit());
        lemma_lerp_bound(i as int, r as int, a.y as int, b.y as int, a.den * coord_limit());
        assert(r * (a.den * coord_limit()) == (a.den * r) * coord_limit()) by (nonlinear_arith);
        assert((a.den * r) * coord_limit() <= 0x1000_0000_0000_0000 * coord_limit()) by (nonlinear_arith)
            requires
                a.den * r <= 0x1000_0000_0000_0000,
        ;
    }
    let ri = (r - i) as i128;
    let ii = i as i128;
    let x = ri * a.x + ii * b.x;
    let y = ri * a.y + ii * b.y;
    RenderedPoint { x, y, den: a.den * (r as u64) }
}

} // verus!
