use crate::spline::Spline;
use vstd::prelude::*;

verus! {

/// Splines drawn together with one color and stroke.
pub struct Path {
    pub splines: Vec<Spline>,
    /// Red, green, blue and alpha, each as a fraction of 255.
    pub color: [u8; 4],
    /// Half the stroke width, in thousandths of a drawing unit.
    pub radius: u32,
}

impl Path {
    /// A path with no splines.
    pub fn new(color: [u8; 4], radius: u32) -> (p: Path)
        ensures
            p.splines@ == Seq::<Spline>::empty(),
            p.color == color,
            p.radius == radius,
    {
        Path { splines: Vec::new(), color, radius }
    }

    /// A path holding the given splines, in order.
    pub fn from_splines(splines: Vec<Spline>, color: [u8; 4], radius: u32) -> (p: Path)
        ensures
            p.splines@ == splines@,
            p.color == color,
            p.radius == radius,
    {
        Path { splines, color, radius }
    }

    /// Appends a spline after the existing ones.
    pub fn add_spline(&mut self, spline: Spline)
        ensures
            final(self).splines@ == old(self).splines@.push(spline),
            final(self).color == old(self).color,
            final(self).radius == old(self).radius,
    {
        self.splines.push(spline);
    }
}

} // verus!
