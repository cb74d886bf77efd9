use wgpu_web::state::{
    address_mode_supported, map_address_mode, map_blend_factor, map_blend_operation,
    map_compare_function, map_cull_mode, map_filter_mode, map_front_face, map_index_format,
    map_input_step_mode, map_map_mode, map_power_preference, map_primitive_topology,
    map_stencil_operation, map_store_op, map_texture_aspect, map_texture_component_type,
    map_texture_dimension, map_texture_view_dimension, AddressMode, BlendFactor, BlendOperation,
    CompareFunction, Face, FilterMode, FrontFace, GpuAddressMode, GpuBlendFactor,
    GpuBlendOperation, GpuCompareFunction, GpuCullMode, GpuFilterMode, GpuFrontFace,
    GpuIndexFormat, GpuInputStepMode, GpuPowerPreference, GpuPrimitiveTopology,
    GpuStencilOperation, GpuStoreOp, GpuTextureAspect, GpuTextureComponentType,
    GpuTextureDimension, GpuTextureViewDimension, IndexFormat, InputStepMode, MapMode,
    PowerPreference, PrimitiveTopology, StencilOperation, TextureAspect, TextureDimension,
    TextureSampleType, TextureViewDimension, GPU_MAP_MODE_READ, GPU_MAP_MODE_WRITE,
};

#[test]
fn comparison_and_stencil_values_keep_their_names() {
    assert_eq!(map_compare_function(CompareFunction::Never), GpuCompareFunction::Never);
    assert_eq!(map_compare_function(CompareFunction::LessEqual), GpuCompareFunction::LessEqual);
    assert_eq!(map_compare_function(CompareFunction::Always), GpuCompareFunction::Always);
    assert_eq!(map_stencil_operation(StencilOperation::Keep), GpuStencilOperation::Keep);
    assert_eq!(
        map_stencil_operation(StencilOperation::DecrementWrap),
        GpuStencilOperation::DecrementWrap
    );
}

#[test]
fn blend_values_keep_their_names() {
    assert_eq!(map_blend_factor(BlendFactor::Zero), GpuBlendFactor::Zero);
    assert_eq!(map_blend_factor(BlendFactor::OneMinusSrcAlpha), GpuBlendFactor::OneMinusSrcAlpha);
    assert_eq!(map_blend_factor(BlendFactor::SrcAlphaSaturated), GpuBlendFactor::SrcAlphaSaturated);
    assert_eq!(map_blend_factor(BlendFactor::OneMinusBlendColor), GpuBlendFactor::OneMinusBlendColor);
    assert_eq!(map_blend_operation(BlendOperation::ReverseSubtract), GpuBlendOperation::ReverseSubtract);
    assert_eq!(map_blend_operation(BlendOperation::Max), GpuBlendOperation::Max);
}

#[test]
fn primitive_values_keep_their_names() {
    assert_eq!(map_index_format(IndexFormat::Uint16), GpuIndexFormat::Uint16);
    assert_eq!(map_index_format(IndexFormat::Uint32), GpuIndexFormat::Uint32);
    assert_eq!(map_input_step_mode(InputStepMode::Instance), GpuInputStepMode::Instance);
    assert_eq!(map_front_face(FrontFace::Cw), GpuFrontFace::Cw);
    assert_eq!(map_primitive_topology(PrimitiveTopology::LineStrip), GpuPrimitiveTopology::LineStrip);
    assert_eq!(map_power_preference(PowerPreference::LowPower), GpuPowerPreference::LowPower);
}

#[test]
fn no_cull_mode_is_disabled_culling() {
    assert_eq!(map_cull_mode(None), GpuCullMode::Disabled);
    assert_eq!(map_cull_mode(Some(Face::Front)), GpuCullMode::Front);
    assert_eq!(map_cull_mode(Some(Face::Back)), GpuCullMode::Back);
}

#[test]
fn texture_dimensions_get_webgpu_names() {
    assert_eq!(map_texture_dimension(TextureDimension::D1), GpuTextureDimension::N1d);
    assert_eq!(map_texture_dimension(TextureDimension::D3), GpuTextureDimension::N3d);
    assert_eq!(map_texture_view_dimension(TextureViewDimension::D2Array), GpuTextureViewDimension::N2dArray);
    assert_eq!(map_texture_view_dimension(TextureViewDimension::CubeArray), GpuTextureViewDimension::CubeArray);
    assert_eq!(map_texture_aspect(TextureAspect::DepthOnly), GpuTextureAspect::DepthOnly);
    assert_eq!(map_filter_mode(FilterMode::Linear), GpuFilterMode::Linear);
}

#[test]
fn border_clamping_is_not_supported() {
    assert!(address_mode_supported(AddressMode::Repeat));
    assert!(!address_mode_supported(AddressMode::ClampToBorder));
    assert_eq!(map_address_mode(AddressMode::ClampToEdge), GpuAddressMode::ClampToEdge);
    assert_eq!(map_address_mode(AddressMode::MirrorRepeat), GpuAddressMode::MirrorRepeat);
}

#[test]
fn filterability_is_not_expressed_on_the_web() {
    assert_eq!(
        map_texture_component_type(TextureSampleType::Float { filterable: true }),
        GpuTextureComponentType::Float
    );
    assert_eq!(
        map_texture_component_type(TextureSampleType::Float { filterable: false }),
        GpuTextureComponentType::Float
    );
    assert_eq!(map_texture_component_type(TextureSampleType::Depth), GpuTextureComponentType::DepthComparison);
    assert_eq!(map_texture_component_type(TextureSampleType::Sint), GpuTextureComponentType::Sint);
}

#[test]
fn store_flag_becomes_store_or_clear() {
    assert_eq!(map_store_op(true), GpuStoreOp::Store);
    assert_eq!(map_store_op(false), GpuStoreOp::Clear);
}

#[test]
fn map_modes_are_single_bits() {
    assert_eq!(map_map_mode(MapMode::Read), 1);
    assert_eq!(map_map_mode(MapMode::Write), 2);
    assert_eq!(GPU_MAP_MODE_READ & GPU_MAP_MODE_WRITE, 0);
}
