//! A vector-path tessellation engine paired with a backend-agnostic GPU
//! resource contract.
//!
//! The crate converts 2D vector paths (fills, strokes, dashed strokes,
//! axis-aligned rectangles) into triangle meshes and manages the
//! format-dependent lifecycle of GPU textures.  All coordinates are carried as
//! fixed-point integers (see [`geometry::SUBUNITS`]); the floating-point glue
//! that drives a concrete tessellator or graphics driver lives outside this
//! crate and converts at the boundary.

pub mod context;
pub mod geometry;
pub mod gpu;
pub mod mesh;
pub mod path;
pub mod stroke;
pub mod texture;
