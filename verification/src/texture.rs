//! Texture formats, pixel-data normalization, sampler configuration and the
//! texture lifecycle state machine.
//!
//! A texture is created unallocated (sampler only).  The first write
//! allocates backing storage sized to the write; a later write with a
//! different format, or one that no longer fits, reallocates and invalidates
//! the dependent bind object; a write with a matching format into
//! equal-or-larger storage only uploads pixel data.  Storage always uses the
//! 4-byte RGBA canonical format, so narrower source formats are expanded
//! before upload.

use vstd::prelude::*;

use crate::geometry::Rgba8;

verus! {

/// The logical pixel format of image data handed to a texture write.
#[derive(Clone, Copy, Debug, PartialEq, Eq, Structural)]
pub enum ImageFormat {
    /// One byte per pixel; expanded to opaque gray RGBA on upload.
    Grayscale,
    /// Three bytes per pixel; expanded to opaque RGBA on upload.
    Rgb,
    /// Four bytes per pixel, alpha premultiplied.
    RgbaPremul,
    /// Four bytes per pixel, alpha separate.
    RgbaSeparate,
}

/// How a texture is sampled between texels.
#[derive(Clone, Copy, Debug, PartialEq, Eq, Structural)]
pub enum InterpolationMode {
    /// Take the nearest texel.
    NearestNeighbor,
    /// Interpolate linearly between texels.
    Bilinear,
}

/// What a sampler does outside the unit texture-coordinate range.
#[derive(Clone, Copy, Debug, PartialEq, Eq, Structural)]
pub enum RepeatStrategy {
    /// Clamp to the edge texel.
    Clamp,
    /// Tile the texture.
    Repeat,
    /// Clamp to a border color.
    Color(Rgba8),
}

/// The filter a sampler is built with.
#[derive(Clone, Copy, Debug, PartialEq, Eq, Structural)]
pub enum FilterKind {
    /// Nearest-texel filtering.
    Nearest,
    /// Linear filtering.
    Linear,
}

/// The address mode a sampler is built with.
#[derive(Clone, Copy, Debug, PartialEq, Eq, Structural)]
pub enum AddressKind {
    /// Clamp to the edge texel.
    ClampToEdge,
    /// Tile the texture.
    Repeat,
    /// Clamp to the configured border color.
    ClampToBorder,
}

/// The border colors a sampler can express.
#[derive(Clone, Copy, Debug, PartialEq, Eq, Structural)]
pub enum BorderKind {
    /// Fully transparent black.
    TransparentBlack,
    /// Opaque black.
    OpaqueBlack,
    /// Opaque white.
    OpaqueWhite,
}

/// Everything a sampler object is built from.
#[derive(Clone, Copy, Debug, PartialEq, Eq, Structural)]
pub struct SamplerConfig {
    /// Magnification and minification filter.
    pub filter: FilterKind,
    /// Address mode on both axes.
    pub address: AddressKind,
    /// Border color, set exactly for the border address mode.
    pub border: Option<BorderKind>,
}

/// Bytes per pixel of a texture's backing storage.  Storage always uses the
/// 4-byte RGBA canonical format, whatever the logical format of the write.
pub open spec fn spec_bytes_per_pixel(format: ImageFormat) -> u32 {
    4u32
}

/// Bytes per pixel of the backing storage for a logical format: always 4,
/// since storage uses the RGBA canonical format.
pub fn bytes_per_pixel(format: ImageFormat) -> (r: u32)
    ensures
        r == spec_bytes_per_pixel(format),
{
    match format {
        ImageFormat::Grayscale => 4u32,
        ImageFormat::Rgb => 4u32,
        ImageFormat::RgbaPremul => 4u32,
        ImageFormat::RgbaSeparate => 4u32,
    }
}

/// Bytes per pixel of source data in a logical format.
pub open spec fn spec_source_bytes_per_pixel(format: ImageFormat) -> u32 {
    match format {
        ImageFormat::Grayscale => 1u32,
        ImageFormat::Rgb => 3u32,
        ImageFormat::RgbaPremul => 4u32,
        ImageFormat::RgbaSeparate => 4u32,
    }
}

/// Bytes per pixel that callers supply for a logical format.
pub fn source_bytes_per_pixel(format: ImageFormat) -> (r: u32)
    ensures
        r == spec_source_bytes_per_pixel(format),
{
    match format {
        ImageFormat::Grayscale => 1u32,
        ImageFormat::Rgb => 3u32,
        ImageFormat::RgbaPremul => 4u32,
        ImageFormat::RgbaSeparate => 4u32,
    }
}

/// Grayscale data expanded to the RGBA canonical form: each byte becomes an
/// opaque gray pixel.
pub open spec fn expanded_gray(data: Seq<u8>) -> Seq<u8> {
    Seq::new(
        (4 * data.len()) as nat,
        |i: int|
            if i % 4 == 3 {
                255u8
            } else {
                data[i / 4]
            },
    )
}

/// RGB data expanded to the RGBA canonical form: each three-byte pixel gains
/// an opaque alpha byte.
pub open spec fn expanded_rgb(data: Seq<u8>) -> Seq<u8> {
    Seq::new(
        ((data.len() / 3) * 4) as nat,
        |i: int|
            if i % 4 == 3 {
                255u8
            } else {
                data[(i / 4) * 3 + i % 4]
            },
    )
}

/// The bytes actually uploaded for a write in a logical format: the RGBA
/// canonical expansion of the source data.
pub open spec fn normalized_pixels(format: ImageFormat, data: Seq<u8>) -> Seq<u8> {
    match format {
        ImageFormat::Grayscale => expanded_gray(data),
        ImageFormat::Rgb => expanded_rgb(data),
        ImageFormat::RgbaPremul => data,
        ImageFormat::RgbaSeparate => data,
    }
}

/// Expands source pixel data to the RGBA canonical form the backing storage
/// uses.  RGBA data passes through; grayscale and RGB gain the missing
/// channels with opaque alpha.
pub fn normalize_pixels(format: ImageFormat, data: &Vec<u8>) -> (out: Vec<u8>)
    requires
        format is Rgb ==> data@.len() % 3 == 0,
    ensures
        out@ == normalized_pixels(format, data@),
{
    match format {
        ImageFormat::Grayscale => {
            let mut out: Vec<u8> = Vec::new();
            let mut i: usize = 0;
            while i < data.len()
                invariant
                    0 <= i <= data@.len(),
                    out@.len() == 4 * i,
                    forall|k: int|
                        0 <= k < out@.len() ==> #[trigger] out@[k] == (if k % 4 == 3 {
                            255u8
                        } else {
                            data@[k / 4]
                        }),
                decreases data@.len() - i,
            {
                let byte: u8 = data[i];
                out.push(byte);
                out.push(byte);
                out.push(byte);
                out.push(255);
                i = i + 1;
            }
            proof {
                assert(out@ =~= expanded_gray(data@));
            }
            out
        },
        ImageFormat::Rgb => {
            let pixels: usize = data.len() / 3;
            let mut out: Vec<u8> = Vec::new();
            let mut p: usize = 0;
            while p < pixels
                invariant
                    0 <= p <= pixels,
                    pixels == data@.len() / 3,
                    data@.len() % 3 == 0,
                    3 * pixels <= usize::MAX,
                    out@.len() == 4 * p,
                    forall|k: int|
                        0 <= k < out@.len() ==> #[trigger] out@[k] == (if k % 4 == 3 {
                            255u8
                        } else {
                            data@[(k / 4) * 3 + k % 4]
                        }),
                decreases pixels - p,
            {
                out.push(data[3 * p]);
                out.push(data[3 * p + 1]);
                out.push(data[3 * p + 2]);
                out.push(255);
                p = p + 1;
            }
            proof {
                assert(out@ =~= expanded_rgb(data@));
            }
            out
        },
        ImageFormat::RgbaPremul => data.clone(),
        ImageFormat::RgbaSeparate => data.clone(),
    }
}

/// A buffer of zero bytes, used when a write supplies no data.
pub fn zero_pixels(count: usize) -> (v: Vec<u8>)
    ensures
        v@.len() == count,
        forall|i: int| 0 <= i < v@.len() ==> #[trigger] v@[i] == 0u8,
{
    let v: Vec<u8> = vec![0u8; count];
    v
}

/// The border color a sampler uses for a requested border color: the three
/// expressible colors map to themselves, any other color falls back to
/// opaque white.
pub open spec fn spec_border_for(c: Rgba8) -> BorderKind {
    if c.r == 0 && c.g == 0 && c.b == 0 && c.a == 0 {
        BorderKind::TransparentBlack
    } else if c.r == 0 && c.g == 0 && c.b == 0 && c.a == 255 {
        BorderKind::OpaqueBlack
    } else {
        BorderKind::OpaqueWhite
    }
}

/// The filter a sampler uses for an interpolation mode.
pub open spec fn spec_filter_for(interpolation: InterpolationMode) -> FilterKind {
    match interpolation {
        InterpolationMode::NearestNeighbor => FilterKind::Nearest,
        InterpolationMode::Bilinear => FilterKind::Linear,
    }
}

/// The full sampler configuration for an interpolation mode and repeat
/// strategy: border-color repetition selects the border address mode and the
/// nearest expressible border color; the other strategies set no border.
pub open spec fn spec_sampler_config(
    interpolation: InterpolationMode,
    repeat: RepeatStrategy,
) -> SamplerConfig {
    match repeat {
        RepeatStrategy::Clamp => SamplerConfig {
            filter: spec_filter_for(interpolation),
            address: AddressKind::ClampToEdge,
            border: None,
        },
        RepeatStrategy::Repeat => SamplerConfig {
            filter: spec_filter_for(interpolation),
            address: AddressKind::Repeat,
            border: None,
        },
        RepeatStrategy::Color(c) => SamplerConfig {
            filter: spec_filter_for(interpolation),
            address: AddressKind::ClampToBorder,
            border: Some(spec_border_for(c)),
        },
    }
}

/// Computes the sampler configuration for an interpolation mode and repeat
/// strategy.
pub fn sampler_config(interpolation: InterpolationMode, repeat: &RepeatStrategy) -> (c:
    SamplerConfig)
    ensures
        c == spec_sampler_config(interpolation, *repeat),
{
    let filter = match interpolation {
        InterpolationMode::NearestNeighbor => FilterKind::Nearest,
        InterpolationMode::Bilinear => FilterKind::Linear,
    };
    match repeat {
        RepeatStrategy::Clamp => SamplerConfig {
            filter,
            address: AddressKind::ClampToEdge,
            border: None,
        },
        RepeatStrategy::Repeat => SamplerConfig {
            filter,
            address: AddressKind::Repeat,
            border: None,
        },
        RepeatStrategy::Color(c) => {
            let border = if c.r == 0 && c.g == 0 && c.b == 0 && c.a == 0 {
                BorderKind::TransparentBlack
            } else if c.r == 0 && c.g == 0 && c.b == 0 && c.a == 255 {
                BorderKind::OpaqueBlack
            } else {
                BorderKind::OpaqueWhite
            };
            SamplerConfig { filter, address: AddressKind::ClampToBorder, border: Some(border) }
        },
    }
}

/// The abstract state of a texture: whether backing storage exists, and if
/// so its format and size, plus the sampler's interpolation mode.
#[derive(Clone, Copy, Debug, PartialEq, Eq, Structural)]
pub struct TextureState {
    /// Whether backing storage has been allocated.  The dependent bind
    /// object exists exactly when it has.
    pub allocated: bool,
    /// Format of the backing storage; meaningful only when allocated.
    pub format: ImageFormat,
    /// Width of the backing storage, in pixels; meaningful only when
    /// allocated.
    pub width: u32,
    /// Height of the backing storage, in pixels; meaningful only when
    /// allocated.
    pub height: u32,
    /// The sampler's interpolation mode.
    pub interpolation: InterpolationMode,
}

/// The state of a texture just created: no backing storage, sampler only.
pub open spec fn initial_texture_state(interpolation: InterpolationMode) -> TextureState {
    TextureState {
        allocated: false,
        format: ImageFormat::Grayscale,
        width: 0,
        height: 0,
        interpolation,
    }
}

/// Whether a write must reallocate the backing storage and rebuild the
/// dependent bind object: there is no storage yet, the format differs, or
/// the write no longer fits the storage.
pub open spec fn write_reallocates(
    s: TextureState,
    format: ImageFormat,
    width: u32,
    height: u32,
) -> bool {
    !s.allocated || s.format != format || width > s.width || height > s.height
}

/// The texture state after a write.  A reallocating write sizes the storage
/// to the write and rebuilds the bind object; any other write only uploads
/// pixel data and leaves the state unchanged.
pub open spec fn write_transition(
    s: TextureState,
    format: ImageFormat,
    width: u32,
    height: u32,
) -> TextureState {
    if write_reallocates(s, format, width, height) {
        TextureState {
            allocated: true,
            format,
            width,
            height,
            interpolation: s.interpolation,
        }
    } else {
        s
    }
}

/// The texture state after the interpolation mode changes.  The sampler is
/// rebuilt only when the mode actually differs; the bind object is rebuilt
/// with it when one exists, since the bind object refers to the sampler.
pub open spec fn interpolation_transition(
    s: TextureState,
    interpolation: InterpolationMode,
) -> TextureState {
    TextureState {
        allocated: s.allocated,
        format: s.format,
        width: s.width,
        height: s.height,
        interpolation,
    }
}

/// Decides what a write must do: whether it reallocates (and so rebuilds the
/// bind object), and the state it leaves behind.
pub fn plan_write(s: &TextureState, format: ImageFormat, width: u32, height: u32) -> (r: (
    bool,
    TextureState,
))
    ensures
        r.0 == write_reallocates(*s, format, width, height),
        r.1 == write_transition(*s, format, width, height),
{
    let reallocate: bool = !s.allocated || s.format != format || width > s.width || height
        > s.height;
    if reallocate {
        (
            true,
            TextureState {
                allocated: true,
                format,
                width,
                height,
                interpolation: s.interpolation,
            },
        )
    } else {
        (false, *s)
    }
}

/// Writing a format twice at one size never rebuilds the dependent bind
/// object twice: whatever the starting state, the second identical write
/// reallocates nothing and leaves the state untouched, while a following
/// write with a different format forces exactly one rebuild.
pub proof fn lemma_repeated_write_is_idempotent(
    s: TextureState,
    f1: ImageFormat,
    f2: ImageFormat,
    width: u32,
    height: u32,
)
    requires
        f2 != f1,
    ensures
        ({
            let s1 = write_transition(s, f1, width, height);
            &&& !write_reallocates(s1, f1, width, height)
            &&& write_transition(s1, f1, width, height) == s1
            &&& write_reallocates(write_transition(s1, f1, width, height), f2, width, height)
        }),
{
}

} // verus!
