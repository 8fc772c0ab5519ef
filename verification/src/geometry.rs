//! Fixed-point plane geometry: points, rectangles and the proximity test the
//! path normalizer uses to detect implicitly closed subpaths.
//!
//! Coordinates are integers counting thousandths of a drawing unit
//! ([`SUBUNITS`] per unit), so the 0.01-unit proximity epsilon is the exact
//! integer [`COORD_EPS`].

use vstd::prelude::*;

verus! {

/// Fixed-point subdivisions per drawing unit.
pub const SUBUNITS: i64 = 1000;

/// Proximity epsilon: 0.01 drawing units, in fixed-point subunits.
pub const COORD_EPS: i64 = 10;

/// A point of the plane, in fixed-point subunits.
#[derive(Clone, Copy, Debug, PartialEq, Eq, Structural)]
pub struct PointFx {
    /// Horizontal coordinate, in subunits.
    pub x: i64,
    /// Vertical coordinate, in subunits.
    pub y: i64,
}

/// An axis-aligned rectangle, in fixed-point subunits.
///
/// `x0 <= x1` and `y0 <= y1` are not required: a degenerate or inverted
/// rectangle is still a well-defined pair of corner points.
#[derive(Clone, Copy, Debug, PartialEq, Eq, Structural)]
pub struct RectFx {
    /// Left edge, in subunits.
    pub x0: i64,
    /// Top edge, in subunits.
    pub y0: i64,
    /// Right edge, in subunits.
    pub x1: i64,
    /// Bottom edge, in subunits.
    pub y1: i64,
}

/// An RGBA color with one byte per channel.
#[derive(Clone, Copy, Debug, PartialEq, Eq, Structural)]
pub struct Rgba8 {
    /// Red channel.
    pub r: u8,
    /// Green channel.
    pub g: u8,
    /// Blue channel.
    pub b: u8,
    /// Alpha channel.
    pub a: u8,
}

/// Whether two coordinates differ by strictly less than [`COORD_EPS`].
pub open spec fn coord_close(a: i64, b: i64) -> bool {
    -(COORD_EPS as int) < a - b < COORD_EPS as int
}

/// Whether two points coincide within the 0.01-unit epsilon, component-wise.
pub open spec fn points_near(p: PointFx, q: PointFx) -> bool {
    coord_close(p.x, q.x) && coord_close(p.y, q.y)
}

/// Decides [`points_near`] executably; the differences are formed in 128-bit
/// arithmetic so that no coordinate range is excluded.
pub fn points_near_exec(p: &PointFx, q: &PointFx) -> (r: bool)
    ensures
        r == points_near(*p, *q),
{
    let dx: i128 = p.x as i128 - q.x as i128;
    let dy: i128 = p.y as i128 - q.y as i128;
    let eps: i128 = COORD_EPS as i128;
    -eps < dx && dx < eps && -eps < dy && dy < eps
}

} // verus!
