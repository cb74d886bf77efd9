//! Buffers, textures, texture views and samplers, copies between them, and render bundle encoders
//! and swap chains: their descriptors in WebGPU form.
use crate::format::{
    GpuTextureFormat, TextureFormat, map_texture_format, texture_format_supported,
    web_texture_format,
};
use crate::state::{
    AddressMode, CompareFunction, FilterMode, GpuAddressMode, GpuCompareFunction, GpuFilterMode,
    GpuTextureAspect, GpuTextureDimension, GpuTextureViewDimension, TextureAspect, TextureDimension,
    TextureViewDimension, address_mode_supported, map_address_mode, map_compare_function,
    map_filter_mode, map_texture_aspect, map_texture_dimension, map_texture_view_dimension,
    web_address_mode, web_compare_function, web_filter_mode, web_texture_aspect,
    web_texture_dimension, web_texture_view_dimension,
};
use crate::support::{Unsupported, first_reason, lemma_first_reason_skip, lemma_no_first_reason};
use vstd::prelude::*;

verus! {

/// The size of a texture or a copy, as wgpu describes it (`wgpu_types::Extent3d`).
#[derive(Clone, Copy, Debug, PartialEq, Eq, Structural)]
pub struct Extent3d {
    pub width: u32,
    pub height: u32,
    pub depth: u32,
}

/// The size of a texture or a copy, as WebGPU describes it (`web_sys::GpuExtent3dDict`).
#[derive(Clone, Copy, Debug, PartialEq, Eq, Structural)]
pub struct GpuExtent3dDict {
    pub width: u32,
    pub height: u32,
    pub depth: u32,
}

/// The WebGPU extent of an extent: every dimension kept.
pub open spec fn web_extent(extent: Extent3d) -> GpuExtent3dDict {
    GpuExtent3dDict { width: extent.width, height: extent.height, depth: extent.depth }
}

/// Maps an extent to its WebGPU counterpart.
pub fn map_extent_3d(extent: Extent3d) -> (mapped: GpuExtent3dDict)
    ensures
        mapped == web_extent(extent),
{
    GpuExtent3dDict { depth: extent.depth, height: extent.height, width: extent.width }
}

/// A texel position in a texture, as wgpu describes it (`wgpu_types::Origin3d`).
#[derive(Clone, Copy, Debug, PartialEq, Eq, Structural)]
pub struct Origin3d {
    pub x: u32,
    pub y: u32,
    pub z: u32,
}

/// A texel position in a texture, as WebGPU describes it (`web_sys::GpuOrigin3dDict`).
#[derive(Clone, Copy, Debug, PartialEq, Eq, Structural)]
pub struct GpuOrigin3dDict {
    pub x: u32,
    pub y: u32,
    pub z: u32,
}

/// The WebGPU origin of an origin: every coordinate kept.
pub open spec fn web_origin(origin: Origin3d) -> GpuOrigin3dDict {
    GpuOrigin3dDict { x: origin.x, y: origin.y, z: origin.z }
}

/// Maps an origin to its WebGPU counterpart.
pub fn map_origin_3d(origin: Origin3d) -> (mapped: GpuOrigin3dDict)
    ensures
        mapped == web_origin(origin),
{
    GpuOrigin3dDict { x: origin.x, y: origin.y, z: origin.z }
}

/// How texel data is laid out in a buffer, as wgpu describes it
/// (`wgpu_types::TextureDataLayout`).
#[derive(Clone, Copy, Debug, PartialEq, Eq, Structural)]
pub struct TextureDataLayout {
    pub offset: u64,
    pub bytes_per_row: u32,
    pub rows_per_image: u32,
}

/// How texel data is laid out in a buffer, as WebGPU describes it
/// (`web_sys::GpuTextureDataLayout`).
#[derive(Clone, Copy, Debug, PartialEq, Eq, Structural)]
pub struct GpuTextureDataLayout {
    pub offset: u64,
    pub bytes_per_row: u32,
    pub rows_per_image: u32,
}

/// The WebGPU layout of a data layout: every member kept.
pub open spec fn web_data_layout(layout: TextureDataLayout) -> GpuTextureDataLayout {
    GpuTextureDataLayout {
        offset: layout.offset,
        bytes_per_row: layout.bytes_per_row,
        rows_per_image: layout.rows_per_image,
    }
}

/// Maps a data layout to its WebGPU counterpart.
pub fn map_texture_data_layout(layout: &TextureDataLayout) -> (mapped: GpuTextureDataLayout)
    ensures
        mapped == web_data_layout(*layout),
{
    GpuTextureDataLayout {
        bytes_per_row: layout.bytes_per_row,
        rows_per_image: layout.rows_per_image,
        offset: layout.offset,
    }
}

/// A buffer as the source or destination of a copy, as wgpu describes it
/// (`wgpu::BufferCopyView`), with a buffer handle of type `B`.
#[derive(Clone, Copy, Debug)]
pub struct BufferCopyView<B> {
    pub buffer: B,
    pub layout: TextureDataLayout,
}

/// A buffer as the source or destination of a copy, as WebGPU describes it
/// (`web_sys::GpuBufferCopyView`).
#[derive(Clone, Copy, Debug)]
pub struct GpuBufferCopyView<B> {
    pub buffer: B,
    pub bytes_per_row: u32,
    pub rows_per_image: u32,
    pub offset: u64,
}

/// The WebGPU copy view of a buffer copy view: the buffer and its layout kept.
pub open spec fn web_buffer_copy_view<B>(view: BufferCopyView<B>) -> GpuBufferCopyView<B> {
    GpuBufferCopyView {
        buffer: view.buffer,
        bytes_per_row: view.layout.bytes_per_row,
        rows_per_image: view.layout.rows_per_image,
        offset: view.layout.offset,
    }
}

/// Maps a buffer copy view to its WebGPU counterpart.
pub fn map_buffer_copy_view<B: Copy>(view: BufferCopyView<B>) -> (mapped: GpuBufferCopyView<B>)
    ensures
        mapped == web_buffer_copy_view(view),
{
    GpuBufferCopyView {
        buffer: view.buffer,
        bytes_per_row: view.layout.bytes_per_row,
        rows_per_image: view.layout.rows_per_image,
        offset: view.layout.offset,
    }
}

/// A texture as the source or destination of a copy, as wgpu describes it
/// (`wgpu::TextureCopyView`), with a texture handle of type `X`.
#[derive(Clone, Copy, Debug)]
pub struct TextureCopyView<X> {
    pub texture: X,
    pub mip_level: u32,
    pub origin: Origin3d,
}

/// A texture as the source or destination of a copy, as WebGPU describes it
/// (`web_sys::GpuTextureCopyView`).
#[derive(Clone, Copy, Debug)]
pub struct GpuTextureCopyView<X> {
    pub texture: X,
    pub mip_level: u32,
    pub origin: GpuOrigin3dDict,
}

/// The WebGPU copy view of a texture copy view: the texture and mip level kept, the origin mapped.
pub open spec fn web_texture_copy_view<X>(view: TextureCopyView<X>) -> GpuTextureCopyView<X> {
    GpuTextureCopyView {
        texture: view.texture,
        mip_level: view.mip_level,
        origin: web_origin(view.origin),
    }
}

/// Maps a texture copy view to its WebGPU counterpart.
pub fn map_texture_copy_view<X: Copy>(view: TextureCopyView<X>) -> (mapped: GpuTextureCopyView<X>)
    ensures
        mapped == web_texture_copy_view(view),
{
    GpuTextureCopyView {
        texture: view.texture,
        mip_level: view.mip_level,
        origin: map_origin_3d(view.origin),
    }
}

/// Sizes, positions and data layouts reach WebGPU as wgpu gave them: width stays width, height
/// height and depth depth; x stays x, y y and z z; the offset, the bytes per row and the rows per
/// image keep their roles.
pub proof fn copy_geometry_kept(extent: Extent3d, origin: Origin3d, layout: TextureDataLayout)
    ensures
        web_extent(extent).width == extent.width,
        web_extent(extent).height == extent.height,
        web_extent(extent).depth == extent.depth,
        web_origin(origin).x == origin.x,
        web_origin(origin).y == origin.y,
        web_origin(origin).z == origin.z,
        web_data_layout(layout).offset == layout.offset,
        web_data_layout(layout).bytes_per_row == layout.bytes_per_row,
        web_data_layout(layout).rows_per_image == layout.rows_per_image,
{
}

/// A copy reads or writes the same buffer at the same place with the same row layout, or the same
/// texture at the same mip level and the same origin.
pub proof fn copy_views_kept<B, X>(buffer_view: BufferCopyView<B>, texture_view: TextureCopyView<X>)
    ensures
        web_buffer_copy_view(buffer_view).buffer == buffer_view.buffer,
        web_buffer_copy_view(buffer_view).offset == buffer_view.layout.offset,
        web_buffer_copy_view(buffer_view).bytes_per_row == buffer_view.layout.bytes_per_row,
        web_buffer_copy_view(buffer_view).rows_per_image == buffer_view.layout.rows_per_image,
        web_texture_copy_view(texture_view).texture == texture_view.texture,
        web_texture_copy_view(texture_view).mip_level == texture_view.mip_level,
        web_texture_copy_view(texture_view).origin.x == texture_view.origin.x,
        web_texture_copy_view(texture_view).origin.y == texture_view.origin.y,
        web_texture_copy_view(texture_view).origin.z == texture_view.origin.z,
{
}

/// A buffer, as wgpu describes it (`wgpu::BufferDescriptor`); `usage` holds the bits of
/// `wgpu_types::BufferUsage`.
#[derive(Clone, Copy, Debug)]
pub struct BufferDescriptor<'a> {
    pub label: Option<&'a str>,
    pub size: u64,
    pub usage: u32,
    pub mapped_at_creation: bool,
}

/// A buffer, as WebGPU describes it (`web_sys::GpuBufferDescriptor`).
#[derive(Clone, Copy, Debug)]
pub struct GpuBufferDescriptor<'a> {
    pub size: u64,
    pub usage: u32,
    pub mapped_at_creation: bool,
    pub label: Option<&'a str>,
}

/// Maps a buffer descriptor to its WebGPU counterpart: every member kept.
pub fn map_buffer_descriptor<'a>(desc: &BufferDescriptor<'a>) -> (mapped: GpuBufferDescriptor<'a>)
    ensures
        mapped.size == desc.size,
        mapped.usage == desc.usage,
        mapped.mapped_at_creation == desc.mapped_at_creation,
        mapped.label == desc.label,
{
    GpuBufferDescriptor {
        size: desc.size,
        usage: desc.usage,
        mapped_at_creation: desc.mapped_at_creation,
        label: desc.label,
    }
}

/// A texture, as wgpu describes it (`wgpu::TextureDescriptor`); `usage` holds the bits of
/// `wgpu_types::TextureUsage`.
#[derive(Clone, Copy, Debug)]
pub struct TextureDescriptor<'a> {
    pub label: Option<&'a str>,
    pub size: Extent3d,
    pub mip_level_count: u32,
    pub sample_count: u32,
    pub dimension: TextureDimension,
    pub format: TextureFormat,
    pub usage: u32,
}

/// A texture, as WebGPU describes it (`web_sys::GpuTextureDescriptor`).
#[derive(Clone, Copy, Debug)]
pub struct GpuTextureDescriptor<'a> {
    pub format: GpuTextureFormat,
    pub size: GpuExtent3dDict,
    pub usage: u32,
    pub label: Option<&'a str>,
    pub dimension: GpuTextureDimension,
    pub mip_level_count: u32,
    pub sample_count: u32,
}

/// Whether the web backend can express a texture: only its format can keep it from doing so.
pub fn check_texture(desc: &TextureDescriptor) -> (checked: Result<(), Unsupported>)
    ensures
        checked == if web_texture_format(desc.format) is Some {
            Ok::<(), Unsupported>(())
        } else {
            Err(Unsupported::TextureFormat(desc.format))
        },
{
    if texture_format_supported(desc.format) {
        Ok(())
    } else {
        Err(Unsupported::TextureFormat(desc.format))
    }
}

/// Maps a texture descriptor to its WebGPU counterpart: the format, size and dimension mapped, the
/// other members kept.
pub fn map_texture_descriptor<'a>(desc: &TextureDescriptor<'a>) -> (mapped: GpuTextureDescriptor<'a>)
    requires
        web_texture_format(desc.format) is Some,
    ensures
        Some(mapped.format) == web_texture_format(desc.format),
        mapped.size == web_extent(desc.size),
        mapped.usage == desc.usage,
        mapped.label == desc.label,
        mapped.dimension == web_texture_dimension(desc.dimension),
        mapped.mip_level_count == desc.mip_level_count,
        mapped.sample_count == desc.sample_count,
{
    GpuTextureDescriptor {
        format: map_texture_format(desc.format),
        size: map_extent_3d(desc.size),
        usage: desc.usage,
        label: desc.label,
        dimension: map_texture_dimension(desc.dimension),
        mip_level_count: desc.mip_level_count,
        sample_count: desc.sample_count,
    }
}

/// A view of a texture, as wgpu describes it (`wgpu::TextureViewDescriptor`); the two counts are
/// the values of their `NonZeroU32`.
#[derive(Clone, Copy, Debug)]
pub struct TextureViewDescriptor<'a> {
    pub label: Option<&'a str>,
    pub format: Option<TextureFormat>,
    pub dimension: Option<TextureViewDimension>,
    pub aspect: TextureAspect,
    pub base_mip_level: u32,
    pub level_count: Option<u32>,
    pub base_array_layer: u32,
    pub array_layer_count: Option<u32>,
}

/// A view of a texture, as WebGPU describes it (`web_sys::GpuTextureViewDescriptor`); a member
/// that is `None` is left unset.
#[derive(Clone, Copy, Debug)]
pub struct GpuTextureViewDescriptor<'a> {
    pub dimension: Option<GpuTextureViewDimension>,
    pub format: Option<GpuTextureFormat>,
    pub aspect: GpuTextureAspect,
    pub base_array_layer: u32,
    pub array_layer_count: Option<u32>,
    pub base_mip_level: u32,
    pub mip_level_count: Option<u32>,
    pub label: Option<&'a str>,
}

/// Whether the web backend can express a texture view: only its format, if it names one, can keep
/// it from doing so.
pub fn check_texture_view(desc: &TextureViewDescriptor) -> (checked: Result<(), Unsupported>)
    ensures
        checked == match desc.format {
            Some(format) => if web_texture_format(format) is Some {
                Ok::<(), Unsupported>(())
            } else {
                Err(Unsupported::TextureFormat(format))
            },
            None => Ok(()),
        },
{
    match desc.format {
        Some(format) => if texture_format_supported(format) {
            Ok(())
        } else {
            Err(Unsupported::TextureFormat(format))
        },
        None => Ok(()),
    }
}

/// Maps a texture view descriptor to its WebGPU counterpart: the optional members set only when
/// given, the dimension, format and aspect mapped, the rest kept.
pub fn map_texture_view_descriptor<'a>(desc: &TextureViewDescriptor<'a>) -> (mapped:
    GpuTextureViewDescriptor<'a>)
    requires
        desc.format matches Some(format) ==> web_texture_format(format) is Some,
    ensures
        mapped.dimension == match desc.dimension {
            Some(dimension) => Some(web_texture_view_dimension(dimension)),
            None => None,
        },
        mapped.format == match desc.format {
            Some(format) => web_texture_format(format),
            None => None,
        },
        mapped.aspect == web_texture_aspect(desc.aspect),
        mapped.base_array_layer == desc.base_array_layer,
        mapped.array_layer_count == desc.array_layer_count,
        mapped.base_mip_level == desc.base_mip_level,
        mapped.mip_level_count == desc.level_count,
        mapped.label == desc.label,
{
    let mut mapped = GpuTextureViewDescriptor {
        dimension: None,
        format: None,
        aspect: map_texture_aspect(desc.aspect),
        base_array_layer: desc.base_array_layer,
        array_layer_count: None,
        base_mip_level: desc.base_mip_level,
        mip_level_count: None,
        label: None,
    };
    if let Some(dimension) = desc.dimension {
        mapped.dimension = Some(map_texture_view_dimension(dimension));
    }
    if let Some(format) = desc.format {
        mapped.format = Some(map_texture_format(format));
    }
    if let Some(count) = desc.array_layer_count {
        mapped.array_layer_count = Some(count);
    }
    if let Some(count) = desc.level_count {
        mapped.mip_level_count = Some(count);
    }
    if let Some(label) = desc.label {
        mapped.label = Some(label);
    }
    mapped
}

/// A sampler, as wgpu describes it (`wgpu::SamplerDescriptor`); the two level-of-detail clamps are
/// held as the bits of their `f32` values.
#[derive(Clone, Copy, Debug)]
pub struct SamplerDescriptor<'a> {
    pub label: Option<&'a str>,
    pub address_mode_u: AddressMode,
    pub address_mode_v: AddressMode,
    pub address_mode_w: AddressMode,
    pub mag_filter: FilterMode,
    pub min_filter: FilterMode,
    pub mipmap_filter: FilterMode,
    pub lod_min_clamp_bits: u32,
    pub lod_max_clamp_bits: u32,
    pub compare: Option<CompareFunction>,
}

/// A sampler, as WebGPU describes it (`web_sys::GpuSamplerDescriptor`); a member that is `None` is
/// left unset.
#[derive(Clone, Copy, Debug)]
pub struct GpuSamplerDescriptor<'a> {
    pub address_mode_u: GpuAddressMode,
    pub address_mode_v: GpuAddressMode,
    pub address_mode_w: GpuAddressMode,
    pub compare: Option<GpuCompareFunction>,
    pub lod_max_clamp_bits: u32,
    pub lod_min_clamp_bits: u32,
    pub mag_filter: GpuFilterMode,
    pub min_filter: GpuFilterMode,
    pub mipmap_filter: GpuFilterMode,
    pub label: Option<&'a str>,
}

/// Why the web backend cannot express a sampler, if it cannot: WebGPU has no border clamping.
pub open spec fn sampler_unsupported(desc: SamplerDescriptor) -> Option<Unsupported> {
    if web_address_mode(desc.address_mode_u) is None || web_address_mode(desc.address_mode_v) is None
        || web_address_mode(desc.address_mode_w) is None {
        Some(Unsupported::ClampToBorder)
    } else {
        None
    }
}

/// A sampler is turned down exactly when one of its three address modes clamps to a border color,
/// which WebGPU cannot do; every other sampler is expressed.
pub proof fn sampler_refused_iff_border(desc: SamplerDescriptor)
    ensures
        sampler_unsupported(desc) is Some <==> (desc.address_mode_u == AddressMode::ClampToBorder
            || desc.address_mode_v == AddressMode::ClampToBorder || desc.address_mode_w
            == AddressMode::ClampToBorder),
        sampler_unsupported(desc) matches Some(reason) ==> reason == Unsupported::ClampToBorder,
{
}

/// Checks whether the web backend can express a sampler.
pub fn check_sampler(desc: &SamplerDescriptor) -> (checked: Result<(), Unsupported>)
    ensures
        checked == match sampler_unsupported(*desc) {
            Some(reason) => Err(reason),
            None => Ok::<(), Unsupported>(()),
        },
{
    if !address_mode_supported(desc.address_mode_u) || !address_mode_supported(desc.address_mode_v)
        || !address_mode_supported(desc.address_mode_w) {
        Err(Unsupported::ClampToBorder)
    } else {
        Ok(())
    }
}

/// Maps a sampler descriptor to its WebGPU counterpart: the address modes, filters and comparison
/// mapped, the clamps and label kept.
pub fn map_sampler_descriptor<'a>(desc: &SamplerDescriptor<'a>) -> (mapped: GpuSamplerDescriptor<'a>)
    requires
        sampler_unsupported(*desc) is None,
    ensures
        Some(mapped.address_mode_u) == web_address_mode(desc.address_mode_u),
        Some(mapped.address_mode_v) == web_address_mode(desc.address_mode_v),
        Some(mapped.address_mode_w) == web_address_mode(desc.address_mode_w),
        mapped.compare == match desc.compare {
            Some(compare) => Some(web_compare_function(compare)),
            None => None,
        },
        mapped.lod_max_clamp_bits == desc.lod_max_clamp_bits,
        mapped.lod_min_clamp_bits == desc.lod_min_clamp_bits,
        mapped.mag_filter == web_filter_mode(desc.mag_filter),
        mapped.min_filter == web_filter_mode(desc.min_filter),
        mapped.mipmap_filter == web_filter_mode(desc.mipmap_filter),
        mapped.label == desc.label,
{
    let compare = match desc.compare {
        Some(compare) => Some(map_compare_function(compare)),
        None => None,
    };
    GpuSamplerDescriptor {
        address_mode_u: map_address_mode(desc.address_mode_u),
        address_mode_v: map_address_mode(desc.address_mode_v),
        address_mode_w: map_address_mode(desc.address_mode_w),
        compare,
        lod_max_clamp_bits: desc.lod_max_clamp_bits,
        lod_min_clamp_bits: desc.lod_min_clamp_bits,
        mag_filter: map_filter_mode(desc.mag_filter),
        min_filter: map_filter_mode(desc.min_filter),
        mipmap_filter: map_filter_mode(desc.mipmap_filter),
        label: desc.label,
    }
}

/// A render bundle encoder, as wgpu describes it (`wgpu::RenderBundleEncoderDescriptor`).
#[derive(Debug)]
pub struct RenderBundleEncoderDescriptor<'a> {
    pub label: Option<&'a str>,
    pub color_formats: Vec<TextureFormat>,
    pub depth_stencil_format: Option<TextureFormat>,
    pub sample_count: u32,
}

/// A render bundle encoder, as WebGPU describes it
/// (`web_sys::GpuRenderBundleEncoderDescriptor`).
#[derive(Debug)]
pub struct GpuRenderBundleEncoderDescriptor<'a> {
    pub color_formats: Vec<GpuTextureFormat>,
    pub label: Option<&'a str>,
    pub depth_stencil_format: Option<GpuTextureFormat>,
    pub sample_count: u32,
}

/// Why the web backend cannot express a texture format, as a function.
pub open spec fn format_reason() -> spec_fn(TextureFormat) -> Option<Unsupported> {
    |format: TextureFormat|
        if web_texture_format(format) is None {
            Some(Unsupported::TextureFormat(format))
        } else {
            None
        }
}

/// The first thing in a render bundle encoder that the web backend cannot express: a color format,
/// in order, then the depth-stencil format.
pub open spec fn first_unsupported_in_bundle_encoder(desc: RenderBundleEncoderDescriptor) -> Option<
    Unsupported,
> {
    match first_reason(desc.color_formats@, format_reason()) {
        Some(reason) => Some(reason),
        None => match desc.depth_stencil_format {
            Some(format) => format_reason()(format),
            None => None,
        },
    }
}

/// Checks whether the web backend can express a render bundle encoder, naming the first thing it
/// cannot.
pub fn check_render_bundle_encoder(desc: &RenderBundleEncoderDescriptor) -> (checked: Result<
    (),
    Unsupported,
>)
    ensures
        checked == match first_unsupported_in_bundle_encoder(*desc) {
            Some(reason) => Err(reason),
            None => Ok::<(), Unsupported>(()),
        },
{
    let ghost reason = format_reason();
    let mut i: usize = 0;
    assert(desc.color_formats@.skip(0) =~= desc.color_formats@);
    while i < desc.color_formats.len()
        invariant
            reason == format_reason(),
            i <= desc.color_formats@.len(),
            first_reason(desc.color_formats@, reason) == first_reason(
                desc.color_formats@.skip(i as int),
                reason,
            ),
        decreases desc.color_formats@.len() - i,
    {
        proof {
            lemma_first_reason_skip(desc.color_formats@, reason, i as int);
        }
        let format = desc.color_formats[i];
        if !texture_format_supported(format) {
            return Err(Unsupported::TextureFormat(format));
        }
        i = i + 1;
    }
    assert(desc.color_formats@.skip(i as int) =~= Seq::<TextureFormat>::empty());
    match desc.depth_stencil_format {
        Some(format) => if texture_format_supported(format) {
            Ok(())
        } else {
            Err(Unsupported::TextureFormat(format))
        },
        None => Ok(()),
    }
}

/// Maps a render bundle encoder descriptor to its WebGPU counterpart: each color format mapped in
/// order, the depth-stencil format mapped if there is one, the rest kept.
pub fn map_render_bundle_encoder_descriptor<'a>(desc: &RenderBundleEncoderDescriptor<'a>) -> (mapped:
    GpuRenderBundleEncoderDescriptor<'a>)
    requires
        first_unsupported_in_bundle_encoder(*desc) is None,
    ensures
        mapped.color_formats@.len() == desc.color_formats@.len(),
        forall|i: int|
            0 <= i < desc.color_formats@.len() ==> Some(#[trigger] mapped.color_formats@[i])
                == web_texture_format(desc.color_formats@[i]),
        mapped.depth_stencil_format == match desc.depth_stencil_format {
            Some(format) => web_texture_format(format),
            None => None,
        },
        mapped.sample_count == desc.sample_count,
        mapped.label == desc.label,
{
    let ghost reason = format_reason();
    proof {
        lemma_no_first_reason(desc.color_formats@, reason);
    }
    let mut color_formats: Vec<GpuTextureFormat> = Vec::new();
    let mut i: usize = 0;
    while i < desc.color_formats.len()
        invariant
            reason == format_reason(),
            i <= desc.color_formats@.len(),
            color_formats@.len() == i,
            forall|j: int|
                0 <= j < desc.color_formats@.len() ==> reason(#[trigger] desc.color_formats@[j]) is None,
            forall|j: int|
                0 <= j < i ==> Some(#[trigger] color_formats@[j]) == web_texture_format(
                    desc.color_formats@[j],
                ),
        decreases desc.color_formats@.len() - i,
    {
        assert(reason(desc.color_formats@[i as int]) is None);
        color_formats.push(map_texture_format(desc.color_formats[i]));
        i = i + 1;
    }
    let depth_stencil_format = match desc.depth_stencil_format {
        Some(format) => Some(map_texture_format(format)),
        None => None,
    };
    GpuRenderBundleEncoderDescriptor {
        color_formats,
        label: desc.label,
        depth_stencil_format,
        sample_count: desc.sample_count,
    }
}

/// A swap chain, as WebGPU describes it (`web_sys::GpuSwapChainDescriptor`), with a device
/// handle of type `D`; `usage` holds the bits of `wgpu_types::TextureUsage`.
#[derive(Clone, Copy, Debug)]
pub struct GpuSwapChainDescriptor<D> {
    pub device: D,
    pub format: GpuTextureFormat,
    pub usage: u32,
}

/// Maps the device, format and usage of a swap chain to its WebGPU descriptor.
pub fn map_swap_chain_descriptor<D: Copy>(device: D, format: TextureFormat, usage: u32) -> (mapped:
    GpuSwapChainDescriptor<D>)
    requires
        web_texture_format(format) is Some,
    ensures
        mapped.device == device,
        Some(mapped.format) == web_texture_format(format),
        mapped.usage == usage,
{
    GpuSwapChainDescriptor { device, format: map_texture_format(format), usage }
}

/// The texture format that the web backend prefers for swap chains
/// (`adapter_get_swap_chain_preferred_format`): 8-bit BGRA, which WebGPU supports.
pub fn preferred_swap_chain_format() -> (format: TextureFormat)
    ensures
        format == TextureFormat::Bgra8Unorm,
        web_texture_format(format) == Some(GpuTextureFormat::Bgra8unorm),
{
    TextureFormat::Bgra8Unorm
}

/// The arguments of a WebGPU `writeBuffer` call: where in the buffer the data goes, and which part
/// of the data is written.
#[derive(Clone, Copy, Debug, PartialEq, Eq, Structural)]
pub struct GpuWriteBuffer {
    pub buffer_offset: u64,
    pub data_offset: u64,
    pub size: u64,
}

/// The arguments for writing all of `data` into a buffer at `offset`.
pub fn write_buffer_args(offset: u64, data: &[u8]) -> (args: GpuWriteBuffer)
    ensures
        args.buffer_offset == offset,
        args.data_offset == 0,
        args.size == data@.len(),
{
    GpuWriteBuffer { buffer_offset: offset, data_offset: 0, size: data.len() as u64 }
}

} // verus!
