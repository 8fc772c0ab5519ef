//! The wgpu-backed texture: the verified lifecycle state machine of
//! [`crate::texture`] driving real driver objects.
//!
//! All driver calls go through trusted wrappers at the bottom of this file;
//! everything above them — when storage is reallocated, when the dependent
//! bind group is rebuilt, how source pixels are normalized — is verified
//! against the transition functions of [`crate::texture`].

use vstd::prelude::*;
use vstd::pervasive::unreached;
use vstd::arithmetic::div_mod::{lemma_div_multiples_vanish, lemma_mod_multiples_basic};

use crate::texture::{
    normalize_pixels, normalized_pixels, plan_write, sampler_config, spec_filter_for,
    spec_sampler_config, spec_source_bytes_per_pixel, write_reallocates, write_transition,
    initial_texture_state, interpolation_transition, zero_pixels, AddressKind, BorderKind,
    FilterKind, ImageFormat, InterpolationMode, RepeatStrategy, SamplerConfig, TextureState,
};

verus! {

#[verifier::external_type_specification]
#[verifier::external_body]
/// Declares `wgpu::Device` so texture resources can be created on it.
pub struct ExDevice(wgpu::Device);

#[verifier::external_type_specification]
#[verifier::external_body]
/// Declares `wgpu::Queue` so pixel uploads can be submitted to it.
pub struct ExQueue(wgpu::Queue);

#[verifier::external_type_specification]
#[verifier::external_body]
/// Declares `wgpu::Texture`: the backing storage of a texture.
pub struct ExTexture(wgpu::Texture);

#[verifier::external_type_specification]
#[verifier::external_body]
/// Declares `wgpu::TextureView`: the view a bind group refers to.
pub struct ExTextureView(wgpu::TextureView);

#[verifier::external_type_specification]
#[verifier::external_body]
/// Declares `wgpu::Sampler`: the sampler object of a texture.
pub struct ExSampler(wgpu::Sampler);

#[verifier::external_type_specification]
#[verifier::external_body]
/// Declares `wgpu::BindGroup`: the dependent bind object of a texture.
pub struct ExBindGroup(wgpu::BindGroup);

#[verifier::external_type_specification]
#[verifier::external_body]
/// Declares `wgpu::BindGroupLayout`: the layout bind groups are built against.
pub struct ExBindGroupLayout(wgpu::BindGroupLayout);

#[verifier::external_type_specification]
#[verifier::external_body]
/// Declares `wgpu::FilterMode` for sampler construction.
pub struct ExFilterMode(wgpu::FilterMode);

#[verifier::external_type_specification]
#[verifier::external_body]
/// Declares `wgpu::AddressMode` for sampler construction.
pub struct ExAddressMode(wgpu::AddressMode);

#[verifier::external_type_specification]
#[verifier::external_body]
/// Declares `wgpu::SamplerBorderColor` for sampler construction.
pub struct ExSamplerBorderColor(wgpu::SamplerBorderColor);

/// Relies on `wgpu::FilterMode`: maps each filter kind to the wgpu variant of
/// the same meaning, one arm per variant.
#[verifier::external_body]
fn filter_mode(f: FilterKind) -> wgpu::FilterMode {
    match f {
        FilterKind::Nearest => wgpu::FilterMode::Nearest,
        FilterKind::Linear => wgpu::FilterMode::Linear,
    }
}

/// Relies on `wgpu::AddressMode`: maps each address kind to the wgpu variant
/// of the same meaning, one arm per variant.
#[verifier::external_body]
fn address_mode(a: AddressKind) -> wgpu::AddressMode {
    match a {
        AddressKind::ClampToEdge => wgpu::AddressMode::ClampToEdge,
        AddressKind::Repeat => wgpu::AddressMode::Repeat,
        AddressKind::ClampToBorder => wgpu::AddressMode::ClampToBorder,
    }
}

/// Relies on `wgpu::SamplerBorderColor`: maps each border kind to the wgpu
/// variant of the same meaning, one arm per variant.
#[verifier::external_body]
fn border_color(b: BorderKind) -> wgpu::SamplerBorderColor {
    match b {
        BorderKind::TransparentBlack => wgpu::SamplerBorderColor::TransparentBlack,
        BorderKind::OpaqueBlack => wgpu::SamplerBorderColor::OpaqueBlack,
        BorderKind::OpaqueWhite => wgpu::SamplerBorderColor::OpaqueWhite,
    }
}

/// Relies on `wgpu::Device::create_sampler`: builds a sampler with the given
/// filter on both minification and magnification, the given address mode on
/// both axes, and the given border color; everything else is wgpu's default.
/// wgpu accepts a border color only with the border-clamping address mode and
/// the device's border-clamp capability; the verified callers pass the two
/// together, and a missing capability fails driver-side validation, as it
/// would for any backend lacking it.
#[verifier::external_body]
fn gpu_create_sampler(
    device: &wgpu::Device,
    filter: wgpu::FilterMode,
    address: wgpu::AddressMode,
    border: Option<wgpu::SamplerBorderColor>,
) -> wgpu::Sampler {
    device.create_sampler(&wgpu::SamplerDescriptor {
        mag_filter: filter,
        min_filter: filter,
        address_mode_u: address,
        address_mode_v: address,
        border_color: border,
        ..Default::default()
    })
}

/// Relies on `wgpu::Device::create_texture`: allocates a 2D RGBA8 texture of
/// the given size, usable as a binding and a copy target.  wgpu rejects a
/// zero extent, and a size beyond the device's limit fails driver-side
/// validation, so the caller stays within both.
#[verifier::external_body]
fn gpu_create_texture(device: &wgpu::Device, width: u32, height: u32) -> wgpu::Texture
    requires
        width >= 1,
        height >= 1,
{
    device.create_texture(&wgpu::TextureDescriptor {
        label: None,
        size: wgpu::Extent3d { width, height, depth_or_array_layers: 1 },
        mip_level_count: 1,
        sample_count: 1,
        dimension: wgpu::TextureDimension::D2,
        format: wgpu::TextureFormat::Rgba8Unorm,
        usage: wgpu::TextureUsages::TEXTURE_BINDING | wgpu::TextureUsages::COPY_DST,
        view_formats: &[wgpu::TextureFormat::Rgba8Unorm],
    })
}

/// Relies on `wgpu::Texture::create_view`: builds the default full view of
/// the texture.
#[verifier::external_body]
fn gpu_create_view(texture: &wgpu::Texture) -> wgpu::TextureView {
    texture.create_view(&wgpu::TextureViewDescriptor::default())
}

/// Relies on `wgpu::Device::create_bind_group`: binds the texture view at
/// binding 0 and the sampler at binding 1, against the given layout.
#[verifier::external_body]
fn gpu_create_bind_group(
    device: &wgpu::Device,
    layout: &wgpu::BindGroupLayout,
    view: &wgpu::TextureView,
    sampler: &wgpu::Sampler,
) -> wgpu::BindGroup {
    device.create_bind_group(&wgpu::BindGroupDescriptor {
        label: None,
        layout,
        entries: &[
            wgpu::BindGroupEntry {
                binding: 0,
                resource: wgpu::BindingResource::TextureView(view),
            },
            wgpu::BindGroupEntry { binding: 1, resource: wgpu::BindingResource::Sampler(sampler) },
        ],
    })
}

/// Relies on `wgpu::Queue::write_texture`: queues an upload of tightly
/// packed 4-byte-per-pixel data into the given region of the texture.  The
/// data length matches the region exactly; the caller keeps the region
/// within the texture's real storage, which this module tracks in its
/// [`TextureState`].
#[verifier::external_body]
fn gpu_write_texture(
    queue: &wgpu::Queue,
    texture: &wgpu::Texture,
    x: u32,
    y: u32,
    width: u32,
    height: u32,
    data: &Vec<u8>,
)
    requires
        data@.len() == 4 * (width * height),
        4 * width <= u32::MAX,
{
    queue.write_texture(
        wgpu::ImageCopyTexture {
            texture,
            mip_level: 0,
            origin: wgpu::Origin3d { x, y, z: 0 },
            aspect: wgpu::TextureAspect::All,
        },
        data,
        wgpu::ImageDataLayout {
            offset: 0,
            bytes_per_row: Some(4 * width),
            rows_per_image: Some(height),
        },
        wgpu::Extent3d { width, height, depth_or_array_layers: 1 },
    )
}

/// A texture resource: sampler, optional backing storage and optional
/// dependent bind group, with the lifecycle of [`crate::texture`].
pub struct WgpuTexture {
    /// The texture's identity among its peers; carried for the caller, never
    /// interpreted here.
    id: usize,
    /// Backing storage; absent until the first write.
    texture: Option<wgpu::Texture>,
    /// The sampler object, rebuilt when the interpolation mode changes.
    sampler: wgpu::Sampler,
    /// The dependent bind object; exists exactly while storage does.
    bind_group: Option<wgpu::BindGroup>,
    /// Logical format of the backing storage.
    format: ImageFormat,
    /// Width of the backing storage, in pixels.
    width: u32,
    /// Height of the backing storage, in pixels.
    height: u32,
    /// The sampler's interpolation mode.
    interpolation: InterpolationMode,
    /// The sampler's address mode, fixed at creation.
    address: AddressKind,
    /// The sampler's border color, fixed at creation.
    border: Option<BorderKind>,
}

impl WgpuTexture {
    /// The texture's identity, as given at creation.
    pub closed spec fn tex_id(self) -> usize {
        self.id
    }

    /// The abstract lifecycle state this texture is in.
    pub closed spec fn state(self) -> TextureState {
        TextureState {
            allocated: self.texture is Some,
            format: self.format,
            width: self.width,
            height: self.height,
            interpolation: self.interpolation,
        }
    }

    /// The configuration the current sampler object was built from.
    pub closed spec fn sampler_cfg(self) -> SamplerConfig {
        SamplerConfig {
            filter: spec_filter_for(self.interpolation),
            address: self.address,
            border: self.border,
        }
    }

    /// The dependent bind object, as an opaque value; unchanged exactly when
    /// no rebuild happened.
    pub closed spec fn bind_obj(self) -> Option<wgpu::BindGroup> {
        self.bind_group
    }

    /// Well-formedness: the dependent bind object exists exactly while the
    /// backing storage does.
    pub open spec fn wf(self) -> bool {
        self.state().allocated <==> self.bind_obj() is Some
    }

    /// Creates a texture with a sampler only: no backing storage until the
    /// first write.
    pub fn create_texture(
        id: usize,
        device: &wgpu::Device,
        interpolation: InterpolationMode,
        repeat: &RepeatStrategy,
    ) -> (t: WgpuTexture)
        ensures
            t.tex_id() == id,
            t.state() == initial_texture_state(interpolation),
            t.sampler_cfg() == spec_sampler_config(interpolation, *repeat),
            t.wf(),
    {
        let cfg = sampler_config(interpolation, repeat);
        let filter = filter_mode(cfg.filter);
        let address = address_mode(cfg.address);
        let border = match cfg.border {
            Some(b) => Some(border_color(b)),
            None => None,
        };
        let sampler = gpu_create_sampler(device, filter, address, border);
        WgpuTexture {
            id,
            texture: None,
            sampler,
            bind_group: None,
            format: ImageFormat::Grayscale,
            width: 0,
            height: 0,
            interpolation,
            address: cfg.address,
            border: cfg.border,
        }
    }

    /// The texture's identity, as given at creation.
    pub fn id(&self) -> (r: usize)
        ensures
            r == self.tex_id(),
    {
        self.id
    }

    /// The dependent bind object, for issuing a draw call.
    pub fn bind_group(&self) -> (r: &wgpu::BindGroup)
        requires
            self.wf(),
            self.state().allocated,
    {
        match &self.bind_group {
            Some(b) => b,
            None => unreached(),
        }
    }

    /// Rebuilds the dependent bind object from the current storage and
    /// sampler, or drops it when no storage exists.
    fn recompute_bind_group(&mut self, device: &wgpu::Device, layout: &wgpu::BindGroupLayout)
        ensures
            final(self).tex_id() == old(self).tex_id(),
            final(self).state() == old(self).state(),
            final(self).sampler_cfg() == old(self).sampler_cfg(),
            final(self).wf(),
    {
        match &self.texture {
            Some(t) => {
                let view = gpu_create_view(t);
                let bg = gpu_create_bind_group(device, layout, &view, &self.sampler);
                self.bind_group = Some(bg);
            },
            None => {
                self.bind_group = None;
            },
        }
    }

    /// Writes an image to the texture.  Storage is reallocated — and the
    /// dependent bind object rebuilt — exactly when there is none yet, the
    /// format differs, or the write no longer fits; otherwise the existing
    /// storage and bind object are reused and only pixel data is uploaded.
    /// Data in a narrower source format is expanded to the 4-byte canonical
    /// form; absent data clears the region to zero bytes.
    pub fn write_texture(
        &mut self,
        device: &wgpu::Device,
        queue: &wgpu::Queue,
        layout: &wgpu::BindGroupLayout,
        width: u32,
        height: u32,
        format: ImageFormat,
        data: Option<&Vec<u8>>,
    )
        requires
            old(self).wf(),
            width >= 1,
            height >= 1,
            4 * (width * height) <= u32::MAX,
            data matches Some(d) ==> d@.len() == (width * height) * spec_source_bytes_per_pixel(
                format,
            ),
        ensures
            final(self).tex_id() == old(self).tex_id(),
            final(self).state() == write_transition(old(self).state(), format, width, height),
            final(self).sampler_cfg() == old(self).sampler_cfg(),
            final(self).wf(),
            !write_reallocates(old(self).state(), format, width, height) ==> *final(self)
                == *old(self),
    {
        proof {
            assert(width * height <= u32::MAX && 4 * width <= u32::MAX) by (nonlinear_arith)
                requires
                    4 * (width * height) <= u32::MAX,
                    width >= 1,
                    height >= 1,
            ;
        }
        let pixel_count: usize = (width as usize) * (height as usize);
        let normalized: Vec<u8> = match data {
            Some(d) => {
                proof {
                    if format is Rgb {
                        lemma_mod_multiples_basic((width * height) as int, 3);
                    }
                }
                normalize_pixels(format, d)
            },
            None => zero_pixels(4 * pixel_count),
        };
        proof {
            lemma_normalized_upload_len(format, width, height, data, normalized@);
        }
        let current = TextureState {
            allocated: self.texture.is_some(),
            format: self.format,
            width: self.width,
            height: self.height,
            interpolation: self.interpolation,
        };
        let (reallocate, _) = plan_write(&current, format, width, height);
        if reallocate {
            let tex = gpu_create_texture(device, width, height);
            self.texture = Some(tex);
            self.format = format;
            self.width = width;
            self.height = height;
            self.recompute_bind_group(device, layout);
        }
        match &self.texture {
            Some(t) => gpu_write_texture(queue, t, 0, 0, width, height, &normalized),
            None => unreached(),
        }
    }

    /// Writes a rectangular sub-region of the texture.  The format must
    /// match the storage and the region must fit it — a mismatch is a
    /// contract error of the caller — so the lifecycle state is untouched
    /// and only pixel data is uploaded.
    pub fn write_subtexture(
        &mut self,
        queue: &wgpu::Queue,
        x: u32,
        y: u32,
        width: u32,
        height: u32,
        format: ImageFormat,
        data: &Vec<u8>,
    )
        requires
            old(self).wf(),
            old(self).state().allocated,
            format == old(self).state().format,
            x + width <= old(self).state().width,
            y + height <= old(self).state().height,
            4 * (width * height) <= u32::MAX,
            4 * width <= u32::MAX,
            data@.len() == (width * height) * spec_source_bytes_per_pixel(format),
        ensures
            *final(self) == *old(self),
    {
        proof {
            if format is Rgb {
                lemma_mod_multiples_basic((width * height) as int, 3);
            }
        }
        let normalized: Vec<u8> = normalize_pixels(format, data);
        proof {
            lemma_normalized_upload_len(format, width, height, Some(data), normalized@);
        }
        match &self.texture {
            Some(t) => gpu_write_texture(queue, t, x, y, width, height, &normalized),
            None => unreached(),
        }
    }

    /// Changes the interpolation mode.  When it actually differs, the
    /// sampler is rebuilt with the stored address mode and border color, and
    /// the dependent bind object — which refers to the sampler — is rebuilt
    /// with it if one exists; otherwise nothing happens.
    pub fn set_texture_interpolation(
        &mut self,
        device: &wgpu::Device,
        layout: &wgpu::BindGroupLayout,
        interpolation: InterpolationMode,
    )
        requires
            old(self).wf(),
        ensures
            final(self).tex_id() == old(self).tex_id(),
            final(self).state() == interpolation_transition(old(self).state(), interpolation),
            final(self).sampler_cfg() == (SamplerConfig {
                filter: spec_filter_for(interpolation),
                address: old(self).sampler_cfg().address,
                border: old(self).sampler_cfg().border,
            }),
            final(self).wf(),
            interpolation == old(self).state().interpolation ==> *final(self) == *old(self),
    {
        if self.interpolation != interpolation {
            let filter = match interpolation {
                InterpolationMode::NearestNeighbor => filter_mode(FilterKind::Nearest),
                InterpolationMode::Bilinear => filter_mode(FilterKind::Linear),
            };
            let address = address_mode(self.address);
            let border = match self.border {
                Some(b) => Some(border_color(b)),
                None => None,
            };
            self.sampler = gpu_create_sampler(device, filter, address, border);
            self.interpolation = interpolation;
            self.recompute_bind_group(device, layout);
        }
    }

}

/// The bytes uploaded for a write always cover the written region exactly:
/// four bytes per pixel.
proof fn lemma_normalized_upload_len(
    format: ImageFormat,
    width: u32,
    height: u32,
    data: Option<&Vec<u8>>,
    uploaded: Seq<u8>,
)
    requires
        data matches Some(d) ==> d@.len() == (width * height) * spec_source_bytes_per_pixel(
            format,
        ),
        data matches Some(d) ==> uploaded == normalized_pixels(format, d@),
        data is None ==> uploaded.len() == 4 * (width * height),
    ensures
        uploaded.len() == 4 * (width * height),
{
    match data {
        Some(d) => {
            match format {
                ImageFormat::Grayscale => {
                    assert(d@.len() == width * height);
                    assert(uploaded.len() == 4 * d@.len());
                },
                ImageFormat::Rgb => {
                    lemma_div_multiples_vanish((width * height) as int, 3);
                    assert(d@.len() == (width * height) * 3);
                    assert(d@.len() / 3 == width * height);
                    assert(uploaded.len() == (d@.len() / 3) * 4);
                },
                ImageFormat::RgbaPremul => {
                    assert(uploaded == d@);
                    assert(d@.len() == (width * height) * 4);
                    assert(uploaded.len() == 4 * (width * height));
                },
                ImageFormat::RgbaSeparate => {
                    assert(uploaded == d@);
                    assert(d@.len() == (width * height) * 4);
                    assert(uploaded.len() == 4 * (width * height));
                },
            }
        },
        None => {},
    }
}

} // verus!
