//! Quadratic spline geometry: control points, exact rendered samples, and
//! paths that group splines for drawing.

pub mod geometry;
pub mod laws;
pub mod path;
pub mod spline;

pub use geometry::{lerp, Point, RenderedPoint, MAX_RESOLUTION};
pub use path::Path;
pub use spline::{Spline, SplineError};
