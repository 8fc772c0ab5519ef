//! Tests for the mesh accumulator: the rectangle fast path, buffer reuse
//! across clears, and index rebasing when appending a tessellated mesh.

use piet_hardware::geometry::{PointFx, RectFx, Rgba8};
use piet_hardware::mesh::{Rasterizer, TessRect, Vertex};

fn rect(x0: i64, y0: i64, x1: i64, y1: i64) -> RectFx {
    RectFx { x0, y0, x1, y1 }
}

fn color(r: u8, g: u8, b: u8, a: u8) -> Rgba8 {
    Rgba8 { r, g, b, a }
}

fn pt(x: i64, y: i64) -> PointFx {
    PointFx { x, y }
}

#[test]
fn single_rect_emits_four_corners_and_two_triangles() {
    let mut rast = Rasterizer::new();
    let c = color(10, 20, 30, 255);
    let rects = vec![TessRect {
        pos: rect(0, 0, 10_000, 20_000),
        uv: rect(0, 0, 1_000, 1_000),
        color: c,
    }];
    rast.fill_rects(&rects);

    let verts = rast.vertices();
    let idxs = rast.indices();
    assert_eq!(verts.len(), 4);
    assert_eq!(idxs.len(), 6);

    // Fixed winding order: top-left, top-right, bottom-right, bottom-left.
    assert_eq!(verts[0].pos, pt(0, 0));
    assert_eq!(verts[1].pos, pt(10_000, 0));
    assert_eq!(verts[2].pos, pt(10_000, 20_000));
    assert_eq!(verts[3].pos, pt(0, 20_000));
    assert_eq!(verts[0].uv, pt(0, 0));
    assert_eq!(verts[1].uv, pt(1_000, 0));
    assert_eq!(verts[2].uv, pt(1_000, 1_000));
    assert_eq!(verts[3].uv, pt(0, 1_000));
    for v in verts.iter() {
        assert_eq!(v.color, c);
    }

    // Two triangles, {0,1,2} and {0,2,3}: together they cover the rectangle
    // exactly and share only the diagonal.
    assert_eq!(idxs.as_slice(), &[0, 1, 2, 0, 2, 3]);
}

#[test]
fn each_rect_gets_its_own_index_block() {
    let mut rast = Rasterizer::new();
    let c = color(0, 0, 0, 255);
    let rects = vec![
        TessRect { pos: rect(0, 0, 100, 100), uv: rect(0, 0, 10, 10), color: c },
        TessRect { pos: rect(200, 0, 300, 100), uv: rect(0, 0, 10, 10), color: c },
    ];
    rast.fill_rects(&rects);
    assert_eq!(rast.vertices().len(), 8);
    assert_eq!(rast.indices().as_slice(), &[0, 1, 2, 0, 2, 3, 4, 5, 6, 4, 6, 7]);
}

#[test]
fn clear_empties_buffers_and_keeps_capacity() {
    let mut rast = Rasterizer::new();
    let c = color(1, 2, 3, 4);
    let rects = vec![
        TessRect { pos: rect(0, 0, 100, 100), uv: rect(0, 0, 10, 10), color: c };
        8
    ];
    rast.fill_rects(&rects);
    let vertex_high_water = rast.vertices().capacity();
    let index_high_water = rast.indices().capacity();
    assert_eq!(rast.vertices().len(), 32);

    rast.clear();
    assert!(rast.vertices().is_empty());
    assert!(rast.indices().is_empty());
    // Backing storage is retained: length reset, capacity kept.
    assert!(rast.vertices().capacity() >= vertex_high_water);
    assert!(rast.indices().capacity() >= index_high_water);

    // The accumulator is reusable after the clear, from index zero again.
    rast.fill_rects(&rects[..1].to_vec());
    assert_eq!(rast.indices().as_slice(), &[0, 1, 2, 0, 2, 3]);
}

#[test]
fn append_mesh_rebases_local_indices() {
    let mut rast = Rasterizer::new();
    let c = color(9, 9, 9, 9);
    rast.fill_rects(&vec![TessRect {
        pos: rect(0, 0, 100, 100),
        uv: rect(0, 0, 10, 10),
        color: c,
    }]);
    assert_eq!(rast.vertices().len(), 4);

    let verts = vec![
        Vertex { pos: pt(0, 0), uv: pt(0, 0), color: c },
        Vertex { pos: pt(100, 0), uv: pt(0, 0), color: c },
        Vertex { pos: pt(0, 100), uv: pt(0, 0), color: c },
    ];
    let local = vec![0u32, 1, 2];
    rast.append_mesh(&verts, &local);

    assert_eq!(rast.vertices().len(), 7);
    assert_eq!(rast.indices().as_slice(), &[0, 1, 2, 0, 2, 3, 4, 5, 6]);
    // Every index stays a valid offset into the vertex buffer.
    for &i in rast.indices().iter() {
        assert!((i as usize) < rast.vertices().len());
    }
}

#[test]
fn fill_rects_after_append_offsets_past_appended_vertices() {
    let mut rast = Rasterizer::new();
    let c = color(0, 0, 0, 0);
    let verts = vec![
        Vertex { pos: pt(0, 0), uv: pt(0, 0), color: c },
        Vertex { pos: pt(1, 0), uv: pt(0, 0), color: c },
        Vertex { pos: pt(0, 1), uv: pt(0, 0), color: c },
    ];
    rast.append_mesh(&verts, &vec![0u32, 1, 2]);
    rast.fill_rects(&vec![TessRect {
        pos: rect(0, 0, 10, 10),
        uv: rect(0, 0, 1, 1),
        color: c,
    }]);
    assert_eq!(rast.indices().as_slice(), &[0, 1, 2, 3, 4, 5, 3, 5, 6]);
}
