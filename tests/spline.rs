use traffic_paths::{lerp, Path, Point, RenderedPoint, Spline, SplineError, MAX_RESOLUTION};

fn pt(x: i64, y: i64) -> Point {
    Point { x, y }
}

fn rp(x: i128, y: i128, den: u64) -> RenderedPoint {
    RenderedPoint { x, y, den }
}

fn same_place(q: &RenderedPoint, p: Point) -> bool {
    q.den > 0 && q.x == q.den as i128 * p.x as i128 && q.y == q.den as i128 * p.y as i128
}

#[test]
fn resolution_ten_curve_runs_from_first_to_last() {
    let s = Spline::new(10, vec![pt(100, 100), pt(350, 100), pt(500, 200)]).unwrap();
    let ps = s.points();
    assert_eq!(ps.len(), 12);
    assert!(same_place(&ps[0], pt(100, 100)));
    assert_eq!(ps[11], rp(500, 200, 1));
    assert!(same_place(&ps[10], pt(500, 200)));
    // t = 1/2: (25 * 100 + 50 * 350 + 25 * 500) / 100 = 325, (25 * 100 + 50 * 100 + 25 * 200) / 100 = 125
    assert_eq!(ps[5], rp(32500, 12500, 100));
    for i in 0..11 {
        let a = &ps[i];
        let b = &ps[i + 1];
        assert!(a.x * b.den as i128 <= b.x * a.den as i128);
        assert!(a.y * b.den as i128 <= b.y * a.den as i128);
    }
}

#[test]
fn two_points_at_resolution_one() {
    let s = Spline::new(1, vec![pt(0, 0), pt(10, 0)]).unwrap();
    assert_eq!(s.points(), &vec![rp(0, 0, 1), rp(10, 0, 1)]);
}

#[test]
fn two_points_ignore_resolution() {
    let s = Spline::new(7, vec![pt(-3, 4), pt(9, -2)]).unwrap();
    assert_eq!(s.points(), &vec![rp(-3, 4, 1), rp(9, -2, 1)]);
}

#[test]
fn zero_resolution_is_refused() {
    let r = Spline::new(0, vec![pt(0, 0), pt(10, 0)]);
    assert_eq!(r.unwrap_err(), SplineError::InvalidResolution);
    assert!(Spline::new(0, vec![]).is_err());
}

#[test]
fn empty_and_single_render_as_themselves() {
    let s = Spline::new(3, vec![]).unwrap();
    assert!(s.points().is_empty());
    let s = Spline::new(3, vec![pt(7, -8)]).unwrap();
    assert_eq!(s.points(), &vec![rp(7, -8, 1)]);
}

#[test]
fn collinear_control_points_stay_on_line() {
    let (p0, p1, p2) = (pt(0, 0), pt(5, 5), pt(-10, -10));
    let s = Spline::new(4, vec![p0, p1, p2]).unwrap();
    assert_eq!(s.points().len(), 6);
    for q in s.points() {
        assert!(q.den > 0);
        assert_eq!(q.x, q.y);
    }
}

#[test]
fn quadratic_endpoints_are_exact() {
    let s = Spline::new(3, vec![pt(1, 2), pt(40, -7), pt(13, 5)]).unwrap();
    let ps = s.points();
    assert_eq!(ps.len(), 5);
    assert_eq!(ps[0], rp(9, 18, 9));
    assert_eq!(ps[4], rp(13, 5, 1));
}

#[test]
fn recomputing_twice_changes_nothing() {
    let mut s = Spline::new(5, vec![pt(0, 0), pt(4, 9), pt(8, 1), pt(3, 3)]).unwrap();
    let first = s.points().clone();
    s.compute_path();
    assert_eq!(s.points(), &first);
    s.compute_path();
    assert_eq!(s.points(), &first);
    assert_eq!(s.control_points().len(), 4);
    assert_eq!(s.resolution(), 5);
}

#[test]
fn append_renders_as_a_fresh_spline() {
    let mut s = Spline::new(6, vec![pt(0, 0), pt(10, 0)]).unwrap();
    s.add_control_point(pt(10, 10));
    let fresh = Spline::new(6, vec![pt(0, 0), pt(10, 0), pt(10, 10)]).unwrap();
    assert_eq!(s.points(), fresh.points());
    assert_eq!(s.control_points(), fresh.control_points());
    assert_eq!(s.points().len(), 8);
}

#[test]
fn four_points_blend_two_curves() {
    let s = Spline::new(2, vec![pt(0, 0), pt(2, 0), pt(2, 2), pt(0, 2)]).unwrap();
    assert_eq!(s.points(), &vec![rp(0, 0, 8), rp(12, 8, 8), rp(0, 16, 8)]);
}

#[test]
fn points_beyond_the_fourth_are_ignored() {
    let four = Spline::new(3, vec![pt(0, 0), pt(2, 0), pt(2, 2), pt(0, 2)]).unwrap();
    let mut five = Spline::new(3, vec![pt(0, 0), pt(2, 0), pt(2, 2), pt(0, 2)]).unwrap();
    five.add_control_point(pt(100, -100));
    assert_eq!(five.points(), four.points());
    assert_eq!(five.control_points().len(), 5);
}

#[test]
fn lerp_weights_by_step() {
    let q = lerp(1, 4, rp(0, 0, 1), rp(8, 4, 1));
    assert_eq!(q, rp(8, 4, 4));
    let q = lerp(0, 4, rp(3, 5, 2), rp(8, 4, 2));
    assert_eq!(q, rp(12, 20, 8));
}

#[test]
fn largest_resolution_with_extreme_coordinates() {
    let lo = pt(i64::MIN, i64::MAX);
    let hi = pt(i64::MAX, i64::MIN);
    let s = Spline::new(MAX_RESOLUTION, vec![lo, hi, lo, hi]).unwrap();
    let ps = s.points();
    assert_eq!(ps.len(), MAX_RESOLUTION + 1);
    assert!(same_place(&ps[0], lo));
    assert!(same_place(&ps[MAX_RESOLUTION], hi));
}

#[test]
fn path_collects_splines() {
    let mut p = Path::new([255, 255, 255, 255], 1000);
    assert!(p.splines.is_empty());
    p.add_spline(Spline::new(10, vec![pt(1, 1)]).unwrap());
    assert_eq!(p.splines.len(), 1);
    assert_eq!(p.color, [255, 255, 255, 255]);
    assert_eq!(p.radius, 1000);
    let q = Path::from_splines(
        vec![Spline::new(2, vec![]).unwrap(), Spline::new(2, vec![pt(0, 0), pt(1, 1)]).unwrap()],
        [0, 0, 0, 255],
        500,
    );
    assert_eq!(q.splines.len(), 2);
    assert_eq!(q.splines[1].points().len(), 2);
    assert_eq!(q.color, [0, 0, 0, 255]);
}
