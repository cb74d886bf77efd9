use wgpu_web::format::{GpuTextureFormat, TextureFormat};
use wgpu_web::resource::{
    check_render_bundle_encoder, check_sampler, check_texture, check_texture_view,
    map_buffer_copy_view, map_buffer_descriptor, map_extent_3d, map_origin_3d,
    map_render_bundle_encoder_descriptor, map_sampler_descriptor, map_swap_chain_descriptor,
    map_texture_copy_view, map_texture_data_layout, map_texture_descriptor,
    map_texture_view_descriptor, preferred_swap_chain_format, write_buffer_args,
    BufferCopyView, BufferDescriptor, Extent3d, GpuExtent3dDict, GpuOrigin3dDict, Origin3d,
    RenderBundleEncoderDescriptor, SamplerDescriptor, TextureCopyView, TextureDataLayout,
    TextureDescriptor, TextureViewDescriptor,
};
use wgpu_web::state::{
    AddressMode, CompareFunction, FilterMode, GpuAddressMode, GpuCompareFunction, GpuFilterMode,
    GpuTextureAspect, GpuTextureDimension, GpuTextureViewDimension, TextureAspect,
    TextureDimension, TextureViewDimension,
};
use wgpu_web::support::Unsupported;

#[test]
fn extents_and_origins_keep_their_coordinates() {
    assert_eq!(map_extent_3d(Extent3d { width: 640, height: 480, depth: 6 }), GpuExtent3dDict { width: 640, height: 480, depth: 6 });
    assert_eq!(map_origin_3d(Origin3d { x: 1, y: 2, z: 3 }), GpuOrigin3dDict { x: 1, y: 2, z: 3 });
}

#[test]
fn copy_views_keep_handles_and_layouts() {
    let layout = TextureDataLayout { offset: 1024, bytes_per_row: 256, rows_per_image: 64 };
    let data = map_texture_data_layout(&layout);
    assert_eq!((data.offset, data.bytes_per_row, data.rows_per_image), (1024, 256, 64));
    let buffer = map_buffer_copy_view(BufferCopyView { buffer: 5u32, layout });
    assert_eq!((buffer.buffer, buffer.offset, buffer.bytes_per_row, buffer.rows_per_image), (5, 1024, 256, 64));
    let texture = map_texture_copy_view(TextureCopyView { texture: 6u32, mip_level: 2, origin: Origin3d { x: 4, y: 5, z: 0 } });
    assert_eq!((texture.texture, texture.mip_level), (6, 2));
    assert_eq!(texture.origin, GpuOrigin3dDict { x: 4, y: 5, z: 0 });
}

#[test]
fn buffer_descriptor_keeps_every_member() {
    let desc = BufferDescriptor { label: Some("vertices"), size: 4096, usage: 0x20 | 0x8, mapped_at_creation: true };
    let mapped = map_buffer_descriptor(&desc);
    assert_eq!((mapped.size, mapped.usage, mapped.mapped_at_creation, mapped.label), (4096, 0x28, true, Some("vertices")));
}

#[test]
fn texture_descriptor_maps_format_size_and_dimension() {
    let desc = TextureDescriptor {
        label: Some("depth"),
        size: Extent3d { width: 800, height: 600, depth: 1 },
        mip_level_count: 1,
        sample_count: 4,
        dimension: TextureDimension::D2,
        format: TextureFormat::Depth32Float,
        usage: 16,
    };
    assert_eq!(check_texture(&desc), Ok(()));
    let mapped = map_texture_descriptor(&desc);
    assert_eq!(mapped.format, GpuTextureFormat::Depth32float);
    assert_eq!(mapped.size, GpuExtent3dDict { width: 800, height: 600, depth: 1 });
    assert_eq!(mapped.dimension, GpuTextureDimension::N2d);
    assert_eq!((mapped.mip_level_count, mapped.sample_count, mapped.usage, mapped.label), (1, 4, 16, Some("depth")));
    let compressed = TextureDescriptor { format: TextureFormat::Bc7RgbaUnorm, ..desc };
    assert_eq!(check_texture(&compressed), Err(Unsupported::TextureFormat(TextureFormat::Bc7RgbaUnorm)));
}

#[test]
fn texture_view_sets_only_given_members() {
    let bare = TextureViewDescriptor {
        label: None,
        format: None,
        dimension: None,
        aspect: TextureAspect::All,
        base_mip_level: 0,
        level_count: None,
        base_array_layer: 0,
        array_layer_count: None,
    };
    assert_eq!(check_texture_view(&bare), Ok(()));
    let mapped = map_texture_view_descriptor(&bare);
    assert_eq!((mapped.dimension, mapped.format, mapped.array_layer_count, mapped.mip_level_count, mapped.label), (None, None, None, None, None));
    assert_eq!(mapped.aspect, GpuTextureAspect::All);

    let full = TextureViewDescriptor {
        label: Some("cube"),
        format: Some(TextureFormat::Rgba8UnormSrgb),
        dimension: Some(TextureViewDimension::Cube),
        aspect: TextureAspect::StencilOnly,
        base_mip_level: 1,
        level_count: Some(3),
        base_array_layer: 6,
        array_layer_count: Some(6),
    };
    let mapped = map_texture_view_descriptor(&full);
    assert_eq!(mapped.dimension, Some(GpuTextureViewDimension::Cube));
    assert_eq!(mapped.format, Some(GpuTextureFormat::Rgba8unormSrgb));
    assert_eq!(mapped.aspect, GpuTextureAspect::StencilOnly);
    assert_eq!((mapped.base_mip_level, mapped.mip_level_count), (1, Some(3)));
    assert_eq!((mapped.base_array_layer, mapped.array_layer_count), (6, Some(6)));
    assert_eq!(mapped.label, Some("cube"));

    let compressed = TextureViewDescriptor { format: Some(TextureFormat::Etc2RgbUnorm), ..bare };
    assert_eq!(check_texture_view(&compressed), Err(Unsupported::TextureFormat(TextureFormat::Etc2RgbUnorm)));
}

fn sampler(u: AddressMode, v: AddressMode, w: AddressMode) -> SamplerDescriptor<'static> {
    SamplerDescriptor {
        label: Some("sampler"),
        address_mode_u: u,
        address_mode_v: v,
        address_mode_w: w,
        mag_filter: FilterMode::Linear,
        min_filter: FilterMode::Nearest,
        mipmap_filter: FilterMode::Linear,
        lod_min_clamp_bits: 0.0f32.to_bits(),
        lod_max_clamp_bits: 32.0f32.to_bits(),
        compare: Some(CompareFunction::GreaterEqual),
    }
}

#[test]
fn sampler_maps_modes_filters_and_comparison() {
    let desc = sampler(AddressMode::Repeat, AddressMode::MirrorRepeat, AddressMode::ClampToEdge);
    assert_eq!(check_sampler(&desc), Ok(()));
    let mapped = map_sampler_descriptor(&desc);
    assert_eq!(mapped.address_mode_u, GpuAddressMode::Repeat);
    assert_eq!(mapped.address_mode_v, GpuAddressMode::MirrorRepeat);
    assert_eq!(mapped.address_mode_w, GpuAddressMode::ClampToEdge);
    assert_eq!(mapped.mag_filter, GpuFilterMode::Linear);
    assert_eq!(mapped.min_filter, GpuFilterMode::Nearest);
    assert_eq!(mapped.mipmap_filter, GpuFilterMode::Linear);
    assert_eq!(mapped.compare, Some(GpuCompareFunction::GreaterEqual));
    assert_eq!(f32::from_bits(mapped.lod_max_clamp_bits), 32.0);
    assert_eq!(f32::from_bits(mapped.lod_min_clamp_bits), 0.0);
    assert_eq!(mapped.label, Some("sampler"));
}

#[test]
fn border_clamping_samplers_are_refused() {
    let desc = sampler(AddressMode::Repeat, AddressMode::Repeat, AddressMode::ClampToBorder);
    assert_eq!(check_sampler(&desc), Err(Unsupported::ClampToBorder));
}

#[test]
fn render_bundle_encoder_maps_formats_in_order() {
    let desc = RenderBundleEncoderDescriptor {
        label: Some("bundle"),
        color_formats: vec![TextureFormat::Bgra8Unorm, TextureFormat::Rgba16Float],
        depth_stencil_format: Some(TextureFormat::Depth24PlusStencil8),
        sample_count: 1,
    };
    assert_eq!(check_render_bundle_encoder(&desc), Ok(()));
    let mapped = map_render_bundle_encoder_descriptor(&desc);
    assert_eq!(mapped.color_formats, vec![GpuTextureFormat::Bgra8unorm, GpuTextureFormat::Rgba16float]);
    assert_eq!(mapped.depth_stencil_format, Some(GpuTextureFormat::Depth24plusStencil8));
    assert_eq!((mapped.sample_count, mapped.label), (1, Some("bundle")));
}

#[test]
fn render_bundle_encoder_check_names_the_first_unsupported_format() {
    let desc = RenderBundleEncoderDescriptor {
        label: None,
        color_formats: vec![TextureFormat::Bgra8Unorm, TextureFormat::Bc5RgUnorm, TextureFormat::Bc6hRgbUfloat],
        depth_stencil_format: Some(TextureFormat::Bc1RgbaUnorm),
        sample_count: 1,
    };
    assert_eq!(check_render_bundle_encoder(&desc), Err(Unsupported::TextureFormat(TextureFormat::Bc5RgUnorm)));
    let depth_only = RenderBundleEncoderDescriptor { color_formats: vec![TextureFormat::R8Unorm], ..desc };
    assert_eq!(check_render_bundle_encoder(&depth_only), Err(Unsupported::TextureFormat(TextureFormat::Bc1RgbaUnorm)));
}

#[test]
fn swap_chain_uses_the_preferred_format() {
    let format = preferred_swap_chain_format();
    assert_eq!(format, TextureFormat::Bgra8Unorm);
    let mapped = map_swap_chain_descriptor(1u8, format, 16);
    assert_eq!((mapped.device, mapped.format, mapped.usage), (1, GpuTextureFormat::Bgra8unorm, 16));
}

#[test]
fn buffer_writes_take_all_of_the_data() {
    let args = write_buffer_args(64, &[1, 2, 3, 4, 5]);
    assert_eq!((args.buffer_offset, args.data_offset, args.size), (64, 0, 5));
}
