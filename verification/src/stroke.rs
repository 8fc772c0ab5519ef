//! Stroke styling and the dash policy.
//!
//! A stroke with an empty dash pattern is tessellated directly; a non-empty
//! pattern cannot be expressed by a direct stroke tessellation, so the path
//! is first dash-expanded into its "on" segments and the result is filled
//! under the NonZero rule.  [`stroke_mode`] is that decision.

use vstd::prelude::*;

verus! {

/// How a stroke ends at an open endpoint.
#[derive(Clone, Copy, Debug, PartialEq, Eq, Structural)]
pub enum LineCap {
    /// Flat end exactly at the endpoint.
    Butt,
    /// Semicircular end.
    Round,
    /// Flat end extended by half the stroke width.
    Square,
}

/// How two stroke segments join at a corner.
#[derive(Clone, Copy, Debug, PartialEq, Eq, Structural)]
pub enum LineJoin {
    /// Cut the corner straight.
    Bevel,
    /// Round the corner.
    Round,
    /// Extend the edges to a point, falling back to bevel beyond the limit.
    Miter {
        /// Miter limit, in fixed-point subunits of the width ratio.
        limit: i64,
    },
}

/// Which regions of an outline count as inside when filling.
#[derive(Clone, Copy, Debug, PartialEq, Eq, Structural)]
pub enum FillRule {
    /// Accumulate signed winding per edge crossing.
    NonZero,
    /// Toggle parity per edge crossing.
    EvenOdd,
}

/// The style of a stroke: caps, joins and the dash pattern.
#[derive(Clone, Debug)]
pub struct StrokeStyle {
    /// Cap applied at both open endpoints.
    pub line_cap: LineCap,
    /// Join applied at corners.
    pub line_join: LineJoin,
    /// Lengths of the alternating on/off dash runs, in fixed-point subunits;
    /// empty means a solid stroke.
    pub dash_pattern: Vec<i64>,
    /// Offset into the dash pattern, in fixed-point subunits.
    pub dash_offset: i64,
}

/// How a stroke is to be tessellated.
#[derive(Clone, Copy, Debug, PartialEq, Eq, Structural)]
pub enum StrokeMode {
    /// Tessellate the stroked outline directly.
    Direct {
        /// Stroke width, in fixed-point subunits.
        width: i64,
        /// Cap at open endpoints.
        cap: LineCap,
        /// Join at corners.
        join: LineJoin,
    },
    /// Dash-expand the path into its "on" segments, stroke-expand those with
    /// the same caps and joins, and fill the result.
    DashExpandThenFill {
        /// Stroke width, in fixed-point subunits.
        width: i64,
        /// Cap at open endpoints and dash ends.
        cap: LineCap,
        /// Join at corners.
        join: LineJoin,
        /// The rule the expanded outline is filled under.
        fill_rule: FillRule,
    },
}

/// Decides how a stroke is tessellated: directly when the dash pattern is
/// empty, and by dash expansion followed by a NonZero fill otherwise (dashed
/// segments never self-overlap in a way parity would notice).
pub fn stroke_mode(width: i64, style: &StrokeStyle) -> (m: StrokeMode)
    ensures
        style.dash_pattern@.len() == 0 ==> m == (StrokeMode::Direct {
            width,
            cap: style.line_cap,
            join: style.line_join,
        }),
        style.dash_pattern@.len() != 0 ==> m == (StrokeMode::DashExpandThenFill {
            width,
            cap: style.line_cap,
            join: style.line_join,
            fill_rule: FillRule::NonZero,
        }),
{
    if style.dash_pattern.len() == 0 {
        StrokeMode::Direct { width, cap: style.line_cap, join: style.line_join }
    } else {
        StrokeMode::DashExpandThenFill {
            width,
            cap: style.line_cap,
            join: style.line_join,
            fill_rule: FillRule::NonZero,
        }
    }
}

} // verus!
