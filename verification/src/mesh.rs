//! The mesh accumulator: growable vertex and index buffers that tessellation
//! writes into, with a verified fast path for axis-aligned rectangles.
//!
//! The buffers describe a triangle list in local index space.  The
//! accumulator's invariant is that every index is a valid offset into the
//! vertex buffer, so the mesh can be handed to a draw call as it stands.

use vstd::prelude::*;

use crate::geometry::{PointFx, RectFx, Rgba8};

verus! {

/// One vertex of the mesh: position, texture coordinate and color.
#[derive(Clone, Copy, Debug, PartialEq, Eq, Structural)]
pub struct Vertex {
    /// Position, in fixed-point subunits.
    pub pos: PointFx,
    /// Texture coordinate, in fixed-point subunits.
    pub uv: PointFx,
    /// Vertex color.
    pub color: Rgba8,
}

/// A rectangle to be emitted by the rectangle fast path: where it lands,
/// which part of the texture it samples, and its color.
#[derive(Clone, Copy, Debug, PartialEq, Eq, Structural)]
pub struct TessRect {
    /// Target rectangle, in fixed-point subunits.
    pub pos: RectFx,
    /// Texture-coordinate rectangle, in fixed-point subunits.
    pub uv: RectFx,
    /// Fill color.
    pub color: Rgba8,
}

/// The four corner vertices a rectangle emits, in the fixed winding order
/// top-left, top-right, bottom-right, bottom-left.
pub open spec fn rect_vertices(r: TessRect) -> Seq<Vertex> {
    seq![
        Vertex {
            pos: PointFx { x: r.pos.x0, y: r.pos.y0 },
            uv: PointFx { x: r.uv.x0, y: r.uv.y0 },
            color: r.color,
        },
        Vertex {
            pos: PointFx { x: r.pos.x1, y: r.pos.y0 },
            uv: PointFx { x: r.uv.x1, y: r.uv.y0 },
            color: r.color,
        },
        Vertex {
            pos: PointFx { x: r.pos.x1, y: r.pos.y1 },
            uv: PointFx { x: r.uv.x1, y: r.uv.y1 },
            color: r.color,
        },
        Vertex {
            pos: PointFx { x: r.pos.x0, y: r.pos.y1 },
            uv: PointFx { x: r.uv.x0, y: r.uv.y1 },
            color: r.color,
        },
    ]
}

/// The corner vertices of a whole run of rectangles, in order.
pub open spec fn rects_vertices(rs: Seq<TessRect>) -> Seq<Vertex>
    decreases rs.len(),
{
    if rs.len() == 0 {
        Seq::<Vertex>::empty()
    } else {
        rects_vertices(rs.drop_last()) + rect_vertices(rs.last())
    }
}

/// The two triangles of the quad whose four corners start at `base`:
/// indices `{base, base+1, base+2, base, base+2, base+3}`.
pub open spec fn quad_indices(base: int) -> Seq<int> {
    seq![base, base + 1, base + 2, base, base + 2, base + 3]
}

/// The index block of `n` rectangles whose first corner vertex sits at
/// `base`: one quad of two triangles per rectangle, offset per rectangle.
pub open spec fn rects_indices(base: int, n: int) -> Seq<int>
    decreases n,
{
    if n <= 0 {
        Seq::<int>::empty()
    } else {
        rects_indices(base, n - 1) + quad_indices(base + 4 * (n - 1))
    }
}

/// The mathematical values of an index buffer.
pub open spec fn index_vals(s: Seq<u32>) -> Seq<int> {
    s.map_values(|x: u32| x as int)
}

/// Whether every index of `idxs` is a valid offset into a vertex buffer of
/// length `vlen`.
pub open spec fn indices_in_bounds(idxs: Seq<u32>, vlen: int) -> bool {
    forall|i: int| 0 <= i < idxs.len() ==> (#[trigger] idxs[i]) < vlen
}

/// The values of a local index buffer once rebased onto a mesh that already
/// holds `base` vertices.
pub open spec fn rebased_index_vals(s: Seq<u32>, base: int) -> Seq<int> {
    s.map_values(|x: u32| x + base)
}

/// The mesh accumulator: a growable vertex buffer and a parallel triangle
/// index buffer, cleared and reused between frames.
#[derive(Debug)]
pub struct Rasterizer {
    /// The vertices of the accumulated mesh.
    vertices: Vec<Vertex>,
    /// Triangle-list indices into `vertices`.
    indices: Vec<u32>,
}

impl Rasterizer {
    /// The accumulated vertices, as a mathematical sequence.
    pub closed spec fn verts(self) -> Seq<Vertex> {
        self.vertices@
    }

    /// The accumulated indices, as a mathematical sequence.
    pub closed spec fn idxs(self) -> Seq<u32> {
        self.indices@
    }

    /// Well-formedness: every index is a valid offset into the vertex buffer,
    /// so the mesh is fit to draw at any time.
    pub open spec fn wf(self) -> bool {
        indices_in_bounds(self.idxs(), self.verts().len() as int)
    }

    /// Creates an empty accumulator.
    pub fn new() -> (r: Rasterizer)
        ensures
            r.verts() == Seq::<Vertex>::empty(),
            r.idxs() == Seq::<u32>::empty(),
            r.wf(),
    {
        Rasterizer { vertices: Vec::new(), indices: Vec::new() }
    }

    /// Read-only view of the vertex buffer, for upload to a GPU buffer.
    pub fn vertices(&self) -> (v: &Vec<Vertex>)
        ensures
            v@ == self.verts(),
    {
        &self.vertices
    }

    /// Read-only view of the index buffer, for upload to a GPU buffer.
    pub fn indices(&self) -> (v: &Vec<u32>)
        ensures
            v@ == self.idxs(),
    {
        &self.indices
    }

    /// Resets both buffers to length zero.  The backing storage is retained
    /// (length reset, capacity kept), amortizing allocation across frames.
    pub fn clear(&mut self)
        ensures
            final(self).verts() == Seq::<Vertex>::empty(),
            final(self).idxs() == Seq::<u32>::empty(),
            final(self).wf(),
    {
        self.vertices.clear();
        self.indices.clear();
    }

    /// Emits each rectangle as four corner vertices (top-left, top-right,
    /// bottom-right, bottom-left) and six indices describing its two
    /// triangles, without invoking a general tessellator.
    pub fn fill_rects(&mut self, rects: &Vec<TessRect>)
        requires
            old(self).wf(),
            old(self).verts().len() + 4 * rects@.len() <= u32::MAX,
        ensures
            final(self).verts() == old(self).verts() + rects_vertices(rects@),
            index_vals(final(self).idxs()) == index_vals(old(self).idxs()) + rects_indices(
                old(self).verts().len() as int,
                rects@.len() as int,
            ),
            final(self).wf(),
    {
        let ghost base0: int = self.vertices@.len() as int;
        let ghost idx0: Seq<u32> = self.indices@;
        proof {
            assert(self.vertices@ =~= old(self).verts() + rects_vertices(rects@.take(0)));
            assert(index_vals(self.indices@) =~= index_vals(idx0) + rects_indices(base0, 0));
        }
        let mut r: usize = 0;
        while r < rects.len()
            invariant
                0 <= r <= rects@.len(),
                base0 + 4 * rects@.len() <= u32::MAX,
                self.vertices@.len() == base0 + 4 * r,
                self.vertices@ == old(self).verts() + rects_vertices(rects@.take(r as int)),
                index_vals(self.indices@) == index_vals(idx0) + rects_indices(base0, r as int),
                indices_in_bounds(self.indices@, self.vertices@.len() as int),
            decreases rects@.len() - r,
        {
            let rect = rects[r];
            let base: u32 = self.vertices.len() as u32;
            self.vertices.push(
                Vertex {
                    pos: PointFx { x: rect.pos.x0, y: rect.pos.y0 },
                    uv: PointFx { x: rect.uv.x0, y: rect.uv.y0 },
                    color: rect.color,
                },
            );
            self.vertices.push(
                Vertex {
                    pos: PointFx { x: rect.pos.x1, y: rect.pos.y0 },
                    uv: PointFx { x: rect.uv.x1, y: rect.uv.y0 },
                    color: rect.color,
                },
            );
            self.vertices.push(
                Vertex {
                    pos: PointFx { x: rect.pos.x1, y: rect.pos.y1 },
                    uv: PointFx { x: rect.uv.x1, y: rect.uv.y1 },
                    color: rect.color,
                },
            );
            self.vertices.push(
                Vertex {
                    pos: PointFx { x: rect.pos.x0, y: rect.pos.y1 },
                    uv: PointFx { x: rect.uv.x0, y: rect.uv.y1 },
                    color: rect.color,
                },
            );
            let ghost prev: Seq<u32> = self.indices@;
            self.indices.push(base);
            self.indices.push(base + 1);
            self.indices.push(base + 2);
            self.indices.push(base);
            self.indices.push(base + 2);
            self.indices.push(base + 3);
            proof {
                assert(rects@.take(r + 1).drop_last() =~= rects@.take(r as int));
                assert(rects@.take(r + 1).last() == rects@[r as int]);
                assert(self.vertices@ =~= old(self).verts() + rects_vertices(
                    rects@.take(r + 1),
                ));
                let n0 = prev.len() as int;
                let target = index_vals(idx0) + rects_indices(base0, r + 1);
                assert(rects_indices(base0, r + 1) == rects_indices(base0, r as int)
                    + quad_indices(base0 + 4 * r));
                assert(index_vals(prev) == index_vals(idx0) + rects_indices(base0, r as int));
                assert(index_vals(prev).len() == prev.len());
                assert(rects_indices(base0, r as int).len() == n0 - idx0.len());
                assert(target.len() == n0 + 6);
                assert(base == base0 + 4 * r);
                assert(self.indices@ == prev.push(base).push((base + 1) as u32).push(
                    (base + 2) as u32,
                ).push(base).push((base + 2) as u32).push((base + 3) as u32));
                assert(self.indices@.len() == n0 + 6);
                assert(self.indices@[n0] == base);
                assert(self.indices@[n0 + 1] == (base + 1) as u32);
                assert(self.indices@[n0 + 2] == (base + 2) as u32);
                assert(self.indices@[n0 + 3] == base);
                assert(self.indices@[n0 + 4] == (base + 2) as u32);
                assert(self.indices@[n0 + 5] == (base + 3) as u32);
                assert(quad_indices(base0 + 4 * r)[0] == base0 + 4 * r);
                assert(quad_indices(base0 + 4 * r)[1] == base0 + 4 * r + 1);
                assert(quad_indices(base0 + 4 * r)[2] == base0 + 4 * r + 2);
                assert(quad_indices(base0 + 4 * r)[3] == base0 + 4 * r);
                assert(quad_indices(base0 + 4 * r)[4] == base0 + 4 * r + 2);
                assert(quad_indices(base0 + 4 * r)[5] == base0 + 4 * r + 3);
                assert(forall|m: int| 0 <= m < 6 ==> #[trigger] target[n0 + m] == quad_indices(
                    base0 + 4 * r,
                )[m]);
                assert(forall|k: int| 0 <= k < n0 ==> #[trigger] self.indices@[k] == prev[k]);
                assert(forall|k: int| 0 <= k < n0 ==> #[trigger] target[k] == index_vals(
                    prev,
                )[k]);
                assert(index_vals(self.indices@) =~= target);
            }
            r = r + 1;
        }
        proof {
            assert(rects@.take(rects@.len() as int) =~= rects@);
        }
    }

    /// Appends an already tessellated mesh whose indices are in its own local
    /// space: the vertices are appended and the indices are rebased by the
    /// number of vertices already accumulated.
    pub fn append_mesh(&mut self, verts: &Vec<Vertex>, local_indices: &Vec<u32>)
        requires
            old(self).wf(),
            indices_in_bounds(local_indices@, verts@.len() as int),
            old(self).verts().len() + verts@.len() <= u32::MAX,
        ensures
            final(self).verts() == old(self).verts() + verts@,
            index_vals(final(self).idxs()) == index_vals(old(self).idxs())
                + rebased_index_vals(local_indices@, old(self).verts().len() as int),
            final(self).wf(),
    {
        let base: u32 = self.vertices.len() as u32;
        let ghost idx0: Seq<u32> = self.indices@;
        proof {
            assert(self.vertices@ =~= old(self).verts() + verts@.take(0));
        }
        let mut i: usize = 0;
        while i < verts.len()
            invariant
                0 <= i <= verts@.len(),
                self.vertices@ == old(self).verts() + verts@.take(i as int),
                self.indices@ == idx0,
            decreases verts@.len() - i,
        {
            self.vertices.push(verts[i]);
            proof {
                assert(self.vertices@ =~= old(self).verts() + verts@.take(i + 1));
            }
            i = i + 1;
        }
        proof {
            assert(verts@.take(verts@.len() as int) =~= verts@);
        }
        proof {
            assert(index_vals(self.indices@) =~= index_vals(idx0) + rebased_index_vals(
                local_indices@.take(0),
                base as int,
            ));
        }
        let mut j: usize = 0;
        while j < local_indices.len()
            invariant
                0 <= j <= local_indices@.len(),
                base == old(self).verts().len(),
                old(self).verts().len() + verts@.len() <= u32::MAX,
                indices_in_bounds(local_indices@, verts@.len() as int),
                self.vertices@ == old(self).verts() + verts@,
                index_vals(self.indices@) == index_vals(idx0) + rebased_index_vals(
                    local_indices@.take(j as int),
                    base as int,
                ),
                indices_in_bounds(self.indices@, self.vertices@.len() as int),
            decreases local_indices@.len() - j,
        {
            let v: u32 = local_indices[j];
            let ghost prev: Seq<u32> = self.indices@;
            self.indices.push(base + v);
            proof {
                let target = index_vals(idx0) + rebased_index_vals(
                    local_indices@.take(j + 1),
                    base as int,
                );
                assert(self.indices@ == prev.push((base + v) as u32));
                assert(index_vals(prev).len() == prev.len());
                assert(prev.len() == idx0.len() + j);
                assert(index_vals(self.indices@)[prev.len() as int] == base + v);
                assert(target[prev.len() as int] == local_indices@.take(j + 1)[j as int] + base);
                assert(local_indices@.take(j + 1)[j as int] == v);
                assert(forall|k: int| 0 <= k < prev.len() ==> index_vals(self.indices@)[k]
                    == #[trigger] index_vals(prev)[k]);
                assert(forall|k: int| 0 <= k < prev.len() ==> #[trigger] target[k]
                    == (index_vals(idx0) + rebased_index_vals(
                        local_indices@.take(j as int),
                        base as int,
                    ))[k]);
                assert(index_vals(self.indices@) =~= target);
            }
            j = j + 1;
        }
        proof {
            assert(local_indices@.take(local_indices@.len() as int) =~= local_indices@);
        }
    }
}

} // verus!
