use crate::geometry::{
    blend_int, bounded, lerp, lerp_int, lift, quad_int, whole, Point, RationalPoint,
    RenderedPoint, MAX_RESOLUTION,
};
use vstd::prelude::*;

verus! {

/// Why a spline could not be built.
#[derive(Clone, Copy, Debug, PartialEq, Eq, Structural)]
pub enum SplineError {
    /// The resolution was zero: a curve needs at least one step.
    InvalidResolution,
}

/// A resolution a spline can render with.
pub open spec fn valid_resolution(r: nat) -> bool {
    1 <= r <= MAX_RESOLUTION
}

/// The values of a sequence of rendered points.
pub open spec fn views(s: Seq<RenderedPoint>) -> Seq<RationalPoint> {
    s.map_values(|q: RenderedPoint| q@)
}

/// Point `i` of `r` steps along the quadratic curve over `(p0, p1, p2)`.
pub open spec fn quad_at(i: int, r: int, p0: Point, p1: Point, p2: Point) -> RationalPoint {
    RationalPoint {
        x: quad_int(i, r, p0.x as int, p1.x as int, p2.x as int),
        y: quad_int(i, r, p0.y as int, p1.y as int, p2.y as int),
        den: r * r,
    }
}

/// Point `i` of `r` steps of the blend from the curve over `(p0, p1, p2)`
/// into the curve over `(p1, p2, p3)`.
pub open spec fn blend_at(i: int, r: int, p0: Point, p1: Point, p2: Point, p3: Point) -> RationalPoint {
    RationalPoint {
        x: blend_int(i, r, p0.x as int, p1.x as int, p2.x as int, p3.x as int),
        y: blend_int(i, r, p0.y as int, p1.y as int, p2.y as int, p3.y as int),
        den: r * r * r,
    }
}

/// The quadratic curve sampled at `t = 0, 1/r, ..., 1`, closed by `p2` itself.
pub open spec fn quad_curve(p0: Point, p1: Point, p2: Point, r: int) -> Seq<RationalPoint> {
    Seq::new((r + 1) as nat, |i: int| quad_at(i, r, p0, p1, p2)).push(whole(p2))
}

/// The blend of two quadratic curves sampled at `t = 0, 1/r, ..., 1`.
pub open spec fn blend_curve(p0: Point, p1: Point, p2: Point, p3: Point, r: int) -> Seq<RationalPoint> {
    Seq::new((r + 1) as nat, |i: int| blend_at(i, r, p0, p1, p2, p3))
}

/// The rendered points of a spline with control points `cps` and resolution
/// `r`. Fewer than two control points render as themselves, two as a
/// straight segment, three as one quadratic curve, and four or more as the
/// blend over the first four.
pub open spec fn render(cps: Seq<Point>, r: int) -> Seq<RationalPoint> {
    if cps.len() < 2 {
        cps.map_values(|p: Point| whole(p))
    } else if cps.len() == 2 {
        seq![whole(cps[0]), whole(cps[1])]
    } else if cps.len() == 3 {
        quad_curve(cps[0], cps[1], cps[2], r)
    } else {
        blend_curve(cps[0], cps[1], cps[2], cps[3], r)
    }
}

/// The abstract state of a spline.
pub struct SplineModel {
    pub control_points: Seq<Point>,
    pub resolution: nat,
    pub points: Seq<RationalPoint>,
}

/// The state after the rendered points are derived again from the control
/// points.
pub open spec fn recomputed(s: SplineModel) -> SplineModel {
    SplineModel {
        control_points: s.control_points,
        resolution: s.resolution,
        points: render(s.control_points, s.resolution as int),
    }
}

/// The state after `p` is appended to the control points.
pub open spec fn appended(s: SplineModel, p: Point) -> SplineModel {
    recomputed(
        SplineModel {
            control_points: s.control_points.push(p),
            resolution: s.resolution,
            points: s.points,
        },
    )
}

/// A sequence of control points with the curve rendered from them.
#[derive(Debug)]
pub struct Spline {
    control_points: Vec<Point>,
    points: Vec<RenderedPoint>,
    resolution: usize,
}

impl View for Spline {
    type V = SplineModel;

    closed spec fn view(&self) -> SplineModel {
        SplineModel {
            control_points: self.control_points@,
            resolution: self.resolution as nat,
            points: views(self.points@),
        }
    }
}

proof fn lemma_square_bounds(r: int)
    requires
        1 <= r <= MAX_RESOLUTION,
    ensures
        1 <= r * r <= 0x100_0000_0000,
        r * r * r <= 0x1000_0000_0000_0000,
{
    assert(1 <= r * r <= 0x100_0000_0000) by (nonlinear_arith)
        requires
            1 <= r <= 0x10_0000,
    ;
    assert(r * r * r <= 0x1000_0000_0000_0000) by (nonlinear_arith)
        requires
            1 <= r <= 0x10_0000,
            r * r <= 0x100_0000_0000,
    ;
}

/// The quadratic curve over `(p0, p1, p2)`, by De Casteljau's construction.
fn quadratic_samples(r: usize, p0: Point, p1: Point, p2: Point) -> (v: Vec<RenderedPoint>)
    requires
        valid_resolution(r as nat),
    ensures
        v@.len() == r + 2,
        views(v@) == quad_curve(p0, p1, p2, r as int),
        forall|k: int| 0 <= k <= r ==> #[trigger] v@[k].den == r * r && bounded(v@[k]),
{
    proof {
        lemma_square_bounds(r as int);
    }
    let a = lift(p0);
    let b = lift(p1);
    let c = lift(p2);
    let mut v: Vec<RenderedPoint> = Vec::new();
    let mut i: usize = 0;
    while i <= r
        invariant
            valid_resolution(r as nat),
            1 <= r * r <= 0x100_0000_0000,
            i <= r + 1,
            v@.len() == i,
            a@ == whole(p0),
            b@ == whole(p1),
            c@ == whole(p2),
            bounded(a),
            bounded(b),
            bounded(c),
            forall|k: int|
                0 <= k < i ==> (#[trigger] v@[k])@ == quad_at(k, r as int, p0, p1, p2)
                    && v@[k].den == r * r && bounded(v@[k]),
        decreases r + 1 - i,
    {
        let m0 = lerp(i, r, a, b);
        let m1 = lerp(i, r, b, c);
        let q = lerp(i, r, m0, m1);
        v.push(q);
        i += 1;
    }
    v.push(c);
    assert(views(v@) =~= quad_curve(p0, p1, p2, r as int));
    v
}

/// Pointwise blend at `t = i / r` of the first `r + 1` points of two curves.
fn blend_samples(r: usize, pr0: &Vec<RenderedPoint>, pr1: &Vec<RenderedPoint>) -> (v: Vec<
    RenderedPoint,
>)
    requires
        valid_resolution(r as nat),
        pr0@.len() > r,
        pr1@.len() > r,
        forall|k: int| 0 <= k <= r ==> #[trigger] pr0@[k].den == r * r && bounded(pr0@[k]),
        forall|k: int| 0 <= k <= r ==> #[trigger] pr1@[k].den == r * r && bounded(pr1@[k]),
    ensures
        v@.len() == r + 1,
        forall|k: int|
            0 <= k <= r ==> (#[trigger] v@[k])@ == (RationalPoint {
                x: lerp_int(k, r as int, pr0@[k].x as int, pr1@[k].x as int),
                y: lerp_int(k, r as int, pr0@[k].y as int, pr1@[k].y as int),
                den: r * r * r,
            }),
{
    proof {
        lemma_square_bounds(r as int);
    }
    let mut v: Vec<RenderedPoint> = Vec::new();
    let mut i: usize = 0;
    while i <= r
        invariant
            valid_resolution(r as nat),
            r * r * r <= 0x1000_0000_0000_0000,
            pr0@.len() > r,
            pr1@.len() > r,
            forall|k: int| 0 <= k <= r ==> #[trigger] pr0@[k].den == r * r && bounded(pr0@[k]),
            forall|k: int| 0 <= k <= r ==> #[trigger] pr1@[k].den == r * r && bounded(pr1@[k]),
            i <= r + 1,
            v@.len() == i,
            forall|k: int|
                0 <= k < i ==> (#[trigger] v@[k])@ == (RationalPoint {
                    x: lerp_int(k, r as int, pr0@[k].x as int, pr1@[k].x as int),
                    y: lerp_int(k, r as int, pr0@[k].y as int, pr1@[k].y as int),
                    den: r * r * r,
                }),
        decreases r + 1 - i,
    {
        let q = lerp(i, r, pr0[i], pr1[i]);
        v.push(q);
        i += 1;
    }
    v
}

impl Spline {
    /// The spline is rendered from its control points at a usable resolution.
    pub open spec fn wf(&self) -> bool {
        valid_resolution(self@.resolution) && self@ == recomputed(self@)
    }

    /// Builds a spline and renders it; a zero resolution is refused.
    pub fn new(resolution: usize, control_points: Vec<Point>) -> (r: Result<Spline, SplineError>)
        requires
            resolution <= MAX_RESOLUTION,
        ensures
            resolution == 0 <==> r is Err,
            r is Err ==> r->Err_0 == SplineError::InvalidResolution,
            r is Ok ==> r->Ok_0.wf() && r->Ok_0@ == recomputed(
                SplineModel {
                    control_points: control_points@,
                    resolution: resolution as nat,
                    points: Seq::empty(),
                },
            ),
    {
        if resolution == 0 {
            return Err(SplineError::InvalidResolution);
        }
        let mut spline = Spline { control_points, points: Vec::new(), resolution };
        spline.compute_path();
        Ok(spline)
    }

    /// Appends a control point and renders the spline again.
    pub fn add_control_point(&mut self, point: Point)
        requires
            valid_resolution(old(self)@.resolution),
        ensures
            final(self)@ == appended(old(self)@, point),
            final(self).wf(),
    {
        self.control_points.push(point);
        self.compute_path();
    }

    /// Derives the rendered points from the control points, discarding the
    /// previous ones.
    pub fn compute_path(&mut self)
        requires
            valid_resolution(old(self)@.resolution),
        ensures
            final(self)@ == recomputed(old(self)@),
            final(self).wf(),
    {
        let n = self.control_points.len();
        let r = self.resolution;
        let mut points: Vec<RenderedPoint> = Vec::new();
        if n < 2 {
            if n == 1 {
                points.push(lift(self.control_points[0]));
            }
            assert(views(points@) =~= self.control_points@.map_values(|p: Point| whole(p)));
        } else if n == 2 {
            points.push(lift(self.control_points[0]));
            points.push(lift(self.control_points[1]));
            assert(views(points@) =~= seq![whole(self.control_points@[0]), whole(self.control_points@[1])]);
        } else if n == 3 {
            points = quadratic_samples(
                r,
                self.control_points[0],
                self.control_points[1],
                self.control_points[2],
            );
        } else {
            let p0 = self.control_points[0];
            let p1 = self.control_points[1];
            let p2 = self.control_points[2];
            let p3 = self.control_points[3];
            let pr0 = quadratic_samples(r, p0, p1, p2);
            let pr1 = quadratic_samples(r, p1, p2, p3);
            points = blend_samples(r, &pr0, &pr1);
            assert forall|k: int| 0 <= k <= r implies #[trigger] views(points@)[k] == blend_at(
                k,
                r as int,
                p0,
                p1,
                p2,
                p3,
            ) by {
                assert(views(points@)[k] == points@[k]@);
                assert(views(pr0@)[k] == pr0@[k]@);
                assert(views(pr1@)[k] == pr1@[k]@);
                assert(views(pr0@)[k] == quad_curve(p0, p1, p2, r as int)[k]);
                assert(views(pr1@)[k] == quad_curve(p1, p2, p3, r as int)[k]);
            }
            assert(views(points@) =~= blend_curve(p0, p1, p2, p3, r as int));
        }
        self.points = points;
    }

    /// The control points, in order.
    pub fn control_points(&self) -> (r: &Vec<Point>)
        ensures
            r@ == self@.control_points,
    {
        &self.control_points
    }

    /// The rendered points, in order.
    pub fn points(&self) -> (r: &Vec<RenderedPoint>)
        ensures
            views(r@) == self@.points,
    {
        &self.points
    }

    /// The number of steps per quadratic segment.
    pub fn resolution(&self) -> (r: usize)
        ensures
            r as nat == self@.resolution,
    {
        self.resolution
    }
}

} // verus!
