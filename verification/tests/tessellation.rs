//! End-to-end tessellation properties: the canonical event stream feeds a
//! real tessellator, and the resulting meshes have the expected triangle
//! counts and areas.

use lyon_tessellation::geometry_builder::{BuffersBuilder, VertexBuffers};
use lyon_tessellation::math::{point, Point};
use lyon_tessellation::path::PathEvent as LyonEvent;
use lyon_tessellation::{
    FillOptions, FillRule, FillTessellator, FillVertex, StrokeOptions, StrokeTessellator,
    StrokeVertex,
};

use piet_hardware::geometry::{PointFx, SUBUNITS};
use piet_hardware::path::{normalize, PathEvent, PathInstruction};
use piet_hardware::stroke::{stroke_mode, LineCap, LineJoin, StrokeMode, StrokeStyle};

fn pt(x: f64, y: f64) -> PointFx {
    PointFx {
        x: (x * SUBUNITS as f64).round() as i64,
        y: (y * SUBUNITS as f64).round() as i64,
    }
}

fn to_f32(p: &PointFx) -> Point {
    point(
        p.x as f32 / SUBUNITS as f32,
        p.y as f32 / SUBUNITS as f32,
    )
}

/// Converts the library's canonical events to the tessellator's event type.
fn lyon_events(events: &[PathEvent]) -> Vec<LyonEvent> {
    events
        .iter()
        .map(|e| match e {
            PathEvent::Begin { at } => LyonEvent::Begin { at: to_f32(at) },
            PathEvent::Line { from, to } => LyonEvent::Line { from: to_f32(from), to: to_f32(to) },
            PathEvent::Quadratic { from, ctrl, to } => LyonEvent::Quadratic {
                from: to_f32(from),
                ctrl: to_f32(ctrl),
                to: to_f32(to),
            },
            PathEvent::Cubic { from, ctrl1, ctrl2, to } => LyonEvent::Cubic {
                from: to_f32(from),
                ctrl1: to_f32(ctrl1),
                ctrl2: to_f32(ctrl2),
                to: to_f32(to),
            },
            PathEvent::End { first, last, close } => LyonEvent::End {
                first: to_f32(first),
                last: to_f32(last),
                close: *close,
            },
        })
        .collect()
}

fn fill_mesh(els: &Vec<PathInstruction>, tolerance: f32) -> VertexBuffers<[f32; 2], u32> {
    let events = normalize(els);
    let mut buffers: VertexBuffers<[f32; 2], u32> = VertexBuffers::new();
    let mut builder =
        BuffersBuilder::new(&mut buffers, |v: FillVertex| v.position().to_array());
    let mut options = FillOptions::default();
    options.fill_rule = FillRule::NonZero;
    options.tolerance = tolerance;
    FillTessellator::new()
        .tessellate(lyon_events(&events), &options, &mut builder)
        .expect("fill tessellation");
    buffers
}

/// Total unsigned area of the mesh's triangles.
fn mesh_area(buffers: &VertexBuffers<[f32; 2], u32>) -> f64 {
    let mut area = 0.0f64;
    for tri in buffers.indices.chunks(3) {
        let a = buffers.vertices[tri[0] as usize];
        let b = buffers.vertices[tri[1] as usize];
        let c = buffers.vertices[tri[2] as usize];
        let cross = (b[0] as f64 - a[0] as f64) * (c[1] as f64 - a[1] as f64)
            - (b[1] as f64 - a[1] as f64) * (c[0] as f64 - a[0] as f64);
        area += cross.abs() / 2.0;
    }
    area
}

#[test]
fn square_fill_yields_two_triangles_covering_area_100() {
    // MoveTo(0,0), LineTo(10,0), LineTo(10,10), LineTo(0,10), ClosePath,
    // filled under NonZero at tolerance 0.1.
    let els = vec![
        PathInstruction::MoveTo(pt(0.0, 0.0)),
        PathInstruction::LineTo(pt(10.0, 0.0)),
        PathInstruction::LineTo(pt(10.0, 10.0)),
        PathInstruction::LineTo(pt(0.0, 10.0)),
        PathInstruction::ClosePath,
    ];
    let buffers = fill_mesh(&els, 0.1);
    assert_eq!(buffers.indices.len() % 3, 0);
    assert_eq!(buffers.indices.len() / 3, 2);
    let area = mesh_area(&buffers);
    // Area 100, with tolerance-driven slack of 0.1 per perimeter unit.
    assert!((area - 100.0).abs() <= 0.1 * 40.0, "area was {area}");
}

#[test]
fn convex_polygon_fill_yields_n_minus_2_triangles_with_its_area() {
    // A convex hexagon; its area by the shoelace formula is 16.
    let corners = [
        (2.0, 0.0),
        (4.0, 0.0),
        (6.0, 2.0),
        (4.0, 4.0),
        (2.0, 4.0),
        (0.0, 2.0),
    ];
    let mut shoelace = 0.0f64;
    for i in 0..corners.len() {
        let (x0, y0) = corners[i];
        let (x1, y1) = corners[(i + 1) % corners.len()];
        shoelace += x0 * y1 - x1 * y0;
    }
    let polygon_area = (shoelace / 2.0).abs();

    let mut els = vec![PathInstruction::MoveTo(pt(corners[0].0, corners[0].1))];
    for &(x, y) in corners.iter().skip(1) {
        els.push(PathInstruction::LineTo(pt(x, y)));
    }
    els.push(PathInstruction::ClosePath);

    let buffers = fill_mesh(&els, 0.1);
    assert_eq!(buffers.indices.len() / 3, corners.len() - 2);
    let area = mesh_area(&buffers);
    assert!((area - polygon_area).abs() <= 0.1, "area was {area}");
}

#[test]
fn full_coverage_dash_pattern_matches_solid_stroke_area() {
    // A closed 10-by-10 square, stroked 1 unit wide with bevel joins.
    let els = vec![
        PathInstruction::MoveTo(pt(0.0, 0.0)),
        PathInstruction::LineTo(pt(10.0, 0.0)),
        PathInstruction::LineTo(pt(10.0, 10.0)),
        PathInstruction::LineTo(pt(0.0, 10.0)),
        PathInstruction::ClosePath,
    ];
    let tolerance = 0.05f32;

    // With an empty dash pattern the stroke is tessellated directly.
    let solid_style = StrokeStyle {
        line_cap: LineCap::Butt,
        line_join: LineJoin::Bevel,
        dash_pattern: Vec::new(),
        dash_offset: 0,
    };
    let mode = stroke_mode(1000, &solid_style);
    assert!(matches!(mode, StrokeMode::Direct { .. }));

    let events = normalize(&els);
    let mut solid: VertexBuffers<[f32; 2], u32> = VertexBuffers::new();
    let mut builder =
        BuffersBuilder::new(&mut solid, |v: StrokeVertex| v.position().to_array());
    let mut options = StrokeOptions::default();
    options.tolerance = tolerance;
    options.line_width = 1.0;
    options.start_cap = lyon_tessellation::LineCap::Butt;
    options.end_cap = lyon_tessellation::LineCap::Butt;
    options.line_join = lyon_tessellation::LineJoin::Bevel;
    StrokeTessellator::new()
        .tessellate(lyon_events(&events), &options, &mut builder)
        .expect("stroke tessellation");
    let solid_area = mesh_area(&solid);

    // A dash pattern covering the whole path length goes through dash
    // expansion and a NonZero fill instead.
    let dashed_style = StrokeStyle {
        line_cap: LineCap::Butt,
        line_join: LineJoin::Bevel,
        dash_pattern: vec![1_000_000_000_000],
        dash_offset: 0,
    };
    let mode = stroke_mode(1000, &dashed_style);
    assert!(matches!(mode, StrokeMode::DashExpandThenFill { .. }));

    let kurbo_els = vec![
        kurbo::PathEl::MoveTo(kurbo::Point::new(0.0, 0.0)),
        kurbo::PathEl::LineTo(kurbo::Point::new(10.0, 0.0)),
        kurbo::PathEl::LineTo(kurbo::Point::new(10.0, 10.0)),
        kurbo::PathEl::LineTo(kurbo::Point::new(0.0, 10.0)),
        kurbo::PathEl::ClosePath,
    ];
    let stroke = kurbo::Stroke::new(1.0)
        .with_caps(kurbo::Cap::Butt)
        .with_join(kurbo::Join::Bevel)
        .with_dashes(0.0, [1e9]);
    let outline = kurbo::stroke(
        kurbo_els.iter().copied(),
        &stroke,
        &kurbo::StrokeOpts::default(),
        tolerance as f64,
    );

    let mut dash_els: Vec<PathInstruction> = Vec::new();
    for el in outline.elements() {
        match *el {
            kurbo::PathEl::MoveTo(p) => dash_els.push(PathInstruction::MoveTo(pt(p.x, p.y))),
            kurbo::PathEl::LineTo(p) => dash_els.push(PathInstruction::LineTo(pt(p.x, p.y))),
            kurbo::PathEl::QuadTo(c, p) => {
                dash_els.push(PathInstruction::QuadTo(pt(c.x, c.y), pt(p.x, p.y)))
            }
            kurbo::PathEl::CurveTo(c1, c2, p) => dash_els.push(PathInstruction::CurveTo(
                pt(c1.x, c1.y),
                pt(c2.x, c2.y),
                pt(p.x, p.y),
            )),
            kurbo::PathEl::ClosePath => dash_els.push(PathInstruction::ClosePath),
        }
    }
    let dashed = fill_mesh(&dash_els, tolerance);
    let dashed_area = mesh_area(&dashed);

    // The two meshes cover the same stroke ring; their areas agree within
    // tessellation tolerance.
    assert!(
        (solid_area - dashed_area).abs() <= 0.5,
        "solid {solid_area} dashed {dashed_area}"
    );
}
