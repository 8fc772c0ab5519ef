//! The GPU resource contract: the uniform set of operations every concrete
//! graphics backend supplies, stated over the library's own plain types.
//!
//! The mesh and tessellation side of the library never names a concrete
//! graphics API; it is written against this trait, and each backend supplies
//! its own handle types.  Every operation assumes the caller currently holds
//! the device context; calling without it is a contract error of the caller,
//! fatal in the backend, not a runtime condition to recover from.  Backends
//! must preserve the call order bind, uniforms, textures, vertex state, draw,
//! unbind, to avoid stale-state bugs.

use vstd::prelude::*;

use crate::geometry::Rgba8;
use crate::texture::{ImageFormat, InterpolationMode, RepeatStrategy};

verus! {

/// What a GPU buffer holds.
#[derive(Clone, Copy, Debug, PartialEq, Eq, Structural)]
pub enum BufferKind {
    /// Vertex data.
    Vertex,
    /// Triangle-list index data.
    Index,
}

/// The role of one vertex attribute.
#[derive(Clone, Copy, Debug, PartialEq, Eq, Structural)]
pub enum AttributeRole {
    /// Clip-space position input.
    Position,
    /// Texture-coordinate input.
    Texture,
    /// Per-vertex color input.
    Color,
}

/// The component layout of one vertex attribute.
#[derive(Clone, Copy, Debug, PartialEq, Eq, Structural)]
pub enum ComponentFormat {
    /// Two 32-bit floating-point components.
    FloatPair,
    /// Four unsigned normalized bytes.
    NormalizedByteQuad,
}

/// One vertex-attribute binding of a vertex array.
#[derive(Clone, Copy, Debug, PartialEq, Eq, Structural)]
pub struct AttributeDescriptor {
    /// What the attribute feeds.
    pub role: AttributeRole,
    /// How its components are laid out.
    pub format: ComponentFormat,
    /// Distance between consecutive vertices, in bytes.
    pub stride: u32,
    /// Offset of the attribute within a vertex, in bytes.
    pub offset: u32,
}

/// A 2D affine transform: the six coefficients of a row-major 3-by-3 affine
/// matrix, in fixed-point subunits.
#[derive(Clone, Copy, Debug, PartialEq, Eq, Structural)]
pub struct Affine {
    /// Row one, column one.
    pub a: i64,
    /// Row two, column one.
    pub b: i64,
    /// Row one, column two.
    pub c: i64,
    /// Row two, column two.
    pub d: i64,
    /// Horizontal translation.
    pub e: i64,
    /// Vertical translation.
    pub f: i64,
}

/// The abstract capability set a concrete graphics backend implements.
///
/// Texture lifecycle follows [`crate::texture`]: created unallocated, first
/// write allocates, a format change reallocates and rebuilds dependent bind
/// state.  Buffers are rewritten wholesale per batch.  `flush` and
/// `push_buffers` return the backend's error when the device is lost or
/// unavailable; every other failure mode is a caller contract error.
pub trait GpuContext {
    /// The backend's texture resource.
    type TextureHandle;

    /// The backend's buffer resource.
    type BufferHandle;

    /// The backend's vertex-array resource, binding buffers to a layout.
    type VertexArrayHandle;

    /// The backend's error for device loss and kin.
    type Error;

    /// Clears the render target to a color.
    fn clear(&mut self, color: Rgba8);

    /// Completes all queued work, reporting a backend error if the device is
    /// lost or unavailable.
    fn flush(&mut self) -> Result<(), Self::Error>;

    /// Creates a texture with a sampler only; storage comes with the first
    /// write.
    fn create_texture(
        &mut self,
        interpolation: InterpolationMode,
        repeat: &RepeatStrategy,
    ) -> Self::TextureHandle;

    /// Destroys a texture and its dependent objects.
    fn delete_texture(&mut self, texture: Self::TextureHandle);

    /// Writes a full image, reallocating storage when the format differs or
    /// none fits, as [`crate::texture::write_transition`] describes; absent
    /// data zero-fills.
    fn write_texture(
        &mut self,
        texture: &mut Self::TextureHandle,
        size: (u32, u32),
        format: ImageFormat,
        data: Option<&Vec<u8>>,
    );

    /// Writes a rectangular sub-region; the format must match the storage.
    fn write_subtexture(
        &mut self,
        texture: &mut Self::TextureHandle,
        offset: (u32, u32),
        size: (u32, u32),
        format: ImageFormat,
        data: &Vec<u8>,
    );

    /// Changes a texture's interpolation mode, rebuilding its sampler and
    /// dependent bind state when the mode actually differs.
    fn set_texture_interpolation(
        &mut self,
        texture: &mut Self::TextureHandle,
        interpolation: InterpolationMode,
    );

    /// The largest texture size the device supports, as width and height.
    fn max_texture_size(&self) -> (u32, u32);

    /// Creates an empty buffer.
    fn create_buffer(&mut self) -> Self::BufferHandle;

    /// Replaces a buffer's contents wholesale for the given usage.
    fn write_buffer(&mut self, buffer: &mut Self::BufferHandle, data: &Vec<u8>, kind: BufferKind);

    /// Destroys a buffer.
    fn delete_buffer(&mut self, buffer: Self::BufferHandle);

    /// Builds a vertex array binding a vertex buffer to a layout.
    fn create_vertex_array(
        &mut self,
        buffer: &Self::BufferHandle,
        layout: &Vec<AttributeDescriptor>,
    ) -> Self::VertexArrayHandle;

    /// Destroys a vertex array.
    fn delete_vertex_array(&mut self, vertex_array: Self::VertexArrayHandle);

    /// Binds the vertex array, index buffer, content texture and alpha-mask
    /// texture, uploads the transform and viewport uniforms, and issues an
    /// indexed triangle-list draw of `index_count` indices.
    fn push_buffers(
        &mut self,
        vertex_array: &Self::VertexArrayHandle,
        index_buffer: &Self::BufferHandle,
        index_count: u32,
        texture: &Self::TextureHandle,
        mask: &Self::TextureHandle,
        transform: &Affine,
        viewport_size: (u32, u32),
    ) -> Result<(), Self::Error>;
}

} // verus!
