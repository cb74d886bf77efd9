//! The small enumerations of pipeline and sampler state, and their WebGPU counterparts.
use vstd::pervasive::unreached;
use vstd::prelude::*;

verus! {

/// A comparison function as wgpu describes it: one variant for each of `wgpu_types::CompareFunction`.
#[derive(Clone, Copy, Debug, PartialEq, Eq, Structural)]
pub enum CompareFunction {
    Never,
    Less,
    Equal,
    LessEqual,
    Greater,
    NotEqual,
    GreaterEqual,
    Always,
}

/// A comparison function as WebGPU describes it: one variant for each of `web_sys::GpuCompareFunction`.
#[derive(Clone, Copy, Debug, PartialEq, Eq, Structural)]
pub enum GpuCompareFunction {
    Never,
    Less,
    Equal,
    LessEqual,
    Greater,
    NotEqual,
    GreaterEqual,
    Always,
}

/// The WebGPU counterpart of a `CompareFunction`: the value of the same name.
pub open spec fn web_compare_function(value: CompareFunction) -> GpuCompareFunction {
    match value {
        CompareFunction::Never => GpuCompareFunction::Never,
        CompareFunction::Less => GpuCompareFunction::Less,
        CompareFunction::Equal => GpuCompareFunction::Equal,
        CompareFunction::LessEqual => GpuCompareFunction::LessEqual,
        CompareFunction::Greater => GpuCompareFunction::Greater,
        CompareFunction::NotEqual => GpuCompareFunction::NotEqual,
        CompareFunction::GreaterEqual => GpuCompareFunction::GreaterEqual,
        CompareFunction::Always => GpuCompareFunction::Always,
    }
}

/// Maps a comparison function to its WebGPU counterpart.
pub fn map_compare_function(value: CompareFunction) -> (mapped: GpuCompareFunction)
    ensures
        mapped == web_compare_function(value),
{
    match value {
        CompareFunction::Never => GpuCompareFunction::Never,
        CompareFunction::Less => GpuCompareFunction::Less,
        CompareFunction::Equal => GpuCompareFunction::Equal,
        CompareFunction::LessEqual => GpuCompareFunction::LessEqual,
        CompareFunction::Greater => GpuCompareFunction::Greater,
        CompareFunction::NotEqual => GpuCompareFunction::NotEqual,
        CompareFunction::GreaterEqual => GpuCompareFunction::GreaterEqual,
        CompareFunction::Always => GpuCompareFunction::Always,
    }
}

/// Distinct values of `CompareFunction` become distinct WebGPU values.
pub proof fn web_compare_function_injective(a: CompareFunction, b: CompareFunction)
    ensures
        web_compare_function(a) == web_compare_function(b) ==> a == b,
{
}

/// A stencil operation as wgpu describes it: one variant for each of `wgpu_types::StencilOperation`.
#[derive(Clone, Copy, Debug, PartialEq, Eq, Structural)]
pub enum StencilOperation {
    Keep,
    Zero,
    Replace,
    Invert,
    IncrementClamp,
    DecrementClamp,
    IncrementWrap,
    DecrementWrap,
}

/// A stencil operation as WebGPU describes it: one variant for each of `web_sys::GpuStencilOperation`.
#[derive(Clone, Copy, Debug, PartialEq, Eq, Structural)]
pub enum GpuStencilOperation {
    Keep,
    Zero,
    Replace,
    Invert,
    IncrementClamp,
    DecrementClamp,
    IncrementWrap,
    DecrementWrap,
}

/// The WebGPU counterpart of a `StencilOperation`: the value of the same name.
pub open spec fn web_stencil_operation(value: StencilOperation) -> GpuStencilOperation {
    match value {
        StencilOperation::Keep => GpuStencilOperation::Keep,
        StencilOperation::Zero => GpuStencilOperation::Zero,
        StencilOperation::Replace => GpuStencilOperation::Replace,
        StencilOperation::Invert => GpuStencilOperation::Invert,
        StencilOperation::IncrementClamp => GpuStencilOperation::IncrementClamp,
        StencilOperation::DecrementClamp => GpuStencilOperation::DecrementClamp,
        StencilOperation::IncrementWrap => GpuStencilOperation::IncrementWrap,
        StencilOperation::DecrementWrap => GpuStencilOperation::DecrementWrap,
    }
}

/// Maps a stencil operation to its WebGPU counterpart.
pub fn map_stencil_operation(value: StencilOperation) -> (mapped: GpuStencilOperation)
    ensures
        mapped == web_stencil_operation(value),
{
    match value {
        StencilOperation::Keep => GpuStencilOperation::Keep,
        StencilOperation::Zero => GpuStencilOperation::Zero,
        StencilOperation::Replace => GpuStencilOperation::Replace,
        StencilOperation::Invert => GpuStencilOperation::Invert,
        StencilOperation::IncrementClamp => GpuStencilOperation::IncrementClamp,
        StencilOperation::DecrementClamp => GpuStencilOperation::DecrementClamp,
        StencilOperation::IncrementWrap => GpuStencilOperation::IncrementWrap,
        StencilOperation::DecrementWrap => GpuStencilOperation::DecrementWrap,
    }
}

/// Distinct values of `StencilOperation` become distinct WebGPU values.
pub proof fn web_stencil_operation_injective(a: StencilOperation, b: StencilOperation)
    ensures
        web_stencil_operation(a) == web_stencil_operation(b) ==> a == b,
{
}

/// A blend factor as wgpu describes it: one variant for each of `wgpu_types::BlendFactor`.
#[derive(Clone, Copy, Debug, PartialEq, Eq, Structural)]
pub enum BlendFactor {
    Zero,
    One,
    SrcColor,
    OneMinusSrcColor,
    SrcAlpha,
    OneMinusSrcAlpha,
    DstColor,
    OneMinusDstColor,
    DstAlpha,
    OneMinusDstAlpha,
    SrcAlphaSaturated,
    BlendColor,
    OneMinusBlendColor,
}

/// A blend factor as WebGPU describes it: one variant for each of `web_sys::GpuBlendFactor`.
#[derive(Clone, Copy, Debug, PartialEq, Eq, Structural)]
pub enum GpuBlendFactor {
    Zero,
    One,
    SrcColor,
    OneMinusSrcColor,
    SrcAlpha,
    OneMinusSrcAlpha,
    DstColor,
    OneMinusDstColor,
    DstAlpha,
    OneMinusDstAlpha,
    SrcAlphaSaturated,
    BlendColor,
    OneMinusBlendColor,
}

/// The WebGPU counterpart of a `BlendFactor`: the value of the same name.
pub open spec fn web_blend_factor(value: BlendFactor) -> GpuBlendFactor {
    match value {
        BlendFactor::Zero => GpuBlendFactor::Zero,
        BlendFactor::One => GpuBlendFactor::One,
        BlendFactor::SrcColor => GpuBlendFactor::SrcColor,
        BlendFactor::OneMinusSrcColor => GpuBlendFactor::OneMinusSrcColor,
        BlendFactor::SrcAlpha => GpuBlendFactor::SrcAlpha,
        BlendFactor::OneMinusSrcAlpha => GpuBlendFactor::OneMinusSrcAlpha,
        BlendFactor::DstColor => GpuBlendFactor::DstColor,
        BlendFactor::OneMinusDstColor => GpuBlendFactor::OneMinusDstColor,
        BlendFactor::DstAlpha => GpuBlendFactor::DstAlpha,
        BlendFactor::OneMinusDstAlpha => GpuBlendFactor::OneMinusDstAlpha,
        BlendFactor::SrcAlphaSaturated => GpuBlendFactor::SrcAlphaSaturated,
        BlendFactor::BlendColor => GpuBlendFactor::BlendColor,
        BlendFactor::OneMinusBlendColor => GpuBlendFactor::OneMinusBlendColor,
    }
}

/// Maps a blend factor to its WebGPU counterpart.
pub fn map_blend_factor(value: BlendFactor) -> (mapped: GpuBlendFactor)
    ensures
        mapped == web_blend_factor(value),
{
    match value {
        BlendFactor::Zero => GpuBlendFactor::Zero,
        BlendFactor::One => GpuBlendFactor::One,
        BlendFactor::SrcColor => GpuBlendFactor::SrcColor,
        BlendFactor::OneMinusSrcColor => GpuBlendFactor::OneMinusSrcColor,
        BlendFactor::SrcAlpha => GpuBlendFactor::SrcAlpha,
        BlendFactor::OneMinusSrcAlpha => GpuBlendFactor::OneMinusSrcAlpha,
        BlendFactor::DstColor => GpuBlendFactor::DstColor,
        BlendFactor::OneMinusDstColor => GpuBlendFactor::OneMinusDstColor,
        BlendFactor::DstAlpha => GpuBlendFactor::DstAlpha,
        BlendFactor::OneMinusDstAlpha => GpuBlendFactor::OneMinusDstAlpha,
        BlendFactor::SrcAlphaSaturated => GpuBlendFactor::SrcAlphaSaturated,
        BlendFactor::BlendColor => GpuBlendFactor::BlendColor,
        BlendFactor::OneMinusBlendColor => GpuBlendFactor::OneMinusBlendColor,
    }
}

/// Distinct values of `BlendFactor` become distinct WebGPU values.
pub proof fn web_blend_factor_injective(a: BlendFactor, b: BlendFactor)
    ensures
        web_blend_factor(a) == web_blend_factor(b) ==> a == b,
{
}

/// A blend operation as wgpu describes it: one variant for each of `wgpu_types::BlendOperation`.
#[derive(Clone, Copy, Debug, PartialEq, Eq, Structural)]
pub enum BlendOperation {
    Add,
    Subtract,
    ReverseSubtract,
    Min,
    Max,
}

/// A blend operation as WebGPU describes it: one variant for each of `web_sys::GpuBlendOperation`.
#[derive(Clone, Copy, Debug, PartialEq, Eq, Structural)]
pub enum GpuBlendOperation {
    Add,
    Subtract,
    ReverseSubtract,
    Min,
    Max,
}

/// The WebGPU counterpart of a `BlendOperation`: the value of the same name.
pub open spec fn web_blend_operation(value: BlendOperation) -> GpuBlendOperation {
    match value {
        BlendOperation::Add => GpuBlendOperation::Add,
        BlendOperation::Subtract => GpuBlendOperation::Subtract,
        BlendOperation::ReverseSubtract => GpuBlendOperation::ReverseSubtract,
        BlendOperation::Min => GpuBlendOperation::Min,
        BlendOperation::Max => GpuBlendOperation::Max,
    }
}

/// Maps a blend operation to its WebGPU counterpart.
pub fn map_blend_operation(value: BlendOperation) -> (mapped: GpuBlendOperation)
    ensures
        mapped == web_blend_operation(value),
{
    match value {
        BlendOperation::Add => GpuBlendOperation::Add,
        BlendOperation::Subtract => GpuBlendOperation::Subtract,
        BlendOperation::ReverseSubtract => GpuBlendOperation::ReverseSubtract,
        BlendOperation::Min => GpuBlendOperation::Min,
        BlendOperation::Max => GpuBlendOperation::Max,
    }
}

/// Distinct values of `BlendOperation` become distinct WebGPU values.
pub proof fn web_blend_operation_injective(a: BlendOperation, b: BlendOperation)
    ensures
        web_blend_operation(a) == web_blend_operation(b) ==> a == b,
{
}

/// An index format as wgpu describes it: one variant for each of `wgpu_types::IndexFormat`.
#[derive(Clone, Copy, Debug, PartialEq, Eq, Structural)]
pub enum IndexFormat {
    Uint16,
    Uint32,
}

/// An index format as WebGPU describes it: one variant for each of `web_sys::GpuIndexFormat`.
#[derive(Clone, Copy, Debug, PartialEq, Eq, Structural)]
pub enum GpuIndexFormat {
    Uint16,
    Uint32,
}

/// The WebGPU counterpart of a `IndexFormat`: the value of the same name.
pub open spec fn web_index_format(value: IndexFormat) -> GpuIndexFormat {
    match value {
        IndexFormat::Uint16 => GpuIndexFormat::Uint16,
        IndexFormat::Uint32 => GpuIndexFormat::Uint32,
    }
}

/// Maps an index format to its WebGPU counterpart.
pub fn map_index_format(value: IndexFormat) -> (mapped: GpuIndexFormat)
    ensures
        mapped == web_index_format(value),
{
    match value {
        IndexFormat::Uint16 => GpuIndexFormat::Uint16,
        IndexFormat::Uint32 => GpuIndexFormat::Uint32,
    }
}

/// Distinct values of `IndexFormat` become distinct WebGPU values.
pub proof fn web_index_format_injective(a: IndexFormat, b: IndexFormat)
    ensures
        web_index_format(a) == web_index_format(b) ==> a == b,
{
}

/// A vertex step mode as wgpu describes it: one variant for each of `wgpu_types::InputStepMode`.
#[derive(Clone, Copy, Debug, PartialEq, Eq, Structural)]
pub enum InputStepMode {
    Vertex,
    Instance,
}

/// A vertex step mode as WebGPU describes it: one variant for each of `web_sys::GpuInputStepMode`.
#[derive(Clone, Copy, Debug, PartialEq, Eq, Structural)]
pub enum GpuInputStepMode {
    Vertex,
    Instance,
}

/// The WebGPU counterpart of a `InputStepMode`: the value of the same name.
pub open spec fn web_input_step_mode(value: InputStepMode) -> GpuInputStepMode {
    match value {
        InputStepMode::Vertex => GpuInputStepMode::Vertex,
        InputStepMode::Instance => GpuInputStepMode::Instance,
    }
}

/// Maps a vertex step mode to its WebGPU counterpart.
pub fn map_input_step_mode(value: InputStepMode) -> (mapped: GpuInputStepMode)
    ensures
        mapped == web_input_step_mode(value),
{
    match value {
        InputStepMode::Vertex => GpuInputStepMode::Vertex,
        InputStepMode::Instance => GpuInputStepMode::Instance,
    }
}

/// Distinct values of `InputStepMode` become distinct WebGPU values.
pub proof fn web_input_step_mode_injective(a: InputStepMode, b: InputStepMode)
    ensures
        web_input_step_mode(a) == web_input_step_mode(b) ==> a == b,
{
}

/// A front-face winding as wgpu describes it: one variant for each of `wgpu_types::FrontFace`.
#[derive(Clone, Copy, Debug, PartialEq, Eq, Structural)]
pub enum FrontFace {
    Ccw,
    Cw,
}

/// A front-face winding as WebGPU describes it: one variant for each of `web_sys::GpuFrontFace`.
#[derive(Clone, Copy, Debug, PartialEq, Eq, Structural)]
pub enum GpuFrontFace {
    Ccw,
    Cw,
}

/// The WebGPU counterpart of a `FrontFace`: the value of the same name.
pub open spec fn web_front_face(value: FrontFace) -> GpuFrontFace {
    match value {
        FrontFace::Ccw => GpuFrontFace::Ccw,
        FrontFace::Cw => GpuFrontFace::Cw,
    }
}

/// Maps a front-face winding to its WebGPU counterpart.
pub fn map_front_face(value: FrontFace) -> (mapped: GpuFrontFace)
    ensures
        mapped == web_front_face(value),
{
    match value {
        FrontFace::Ccw => GpuFrontFace::Ccw,
        FrontFace::Cw => GpuFrontFace::Cw,
    }
}

/// Distinct values of `FrontFace` become distinct WebGPU values.
pub proof fn web_front_face_injective(a: FrontFace, b: FrontFace)
    ensures
        web_front_face(a) == web_front_face(b) ==> a == b,
{
}

/// A face of a primitive, as wgpu describes it: one variant for each of `wgpu_types::Face`; a
/// cull mode is an `Option<Face>`, `None` culling nothing.
#[derive(Clone, Copy, Debug, PartialEq, Eq, Structural)]
pub enum Face {
    Front,
    Back,
}

/// A cull mode as WebGPU describes it: one variant for each of `web_sys::GpuCullMode`;
/// `Disabled` is the one WebGPU calls "none".
#[derive(Clone, Copy, Debug, PartialEq, Eq, Structural)]
pub enum GpuCullMode {
    Disabled,
    Front,
    Back,
}

/// The WebGPU cull mode of a wgpu cull mode.
pub open spec fn web_cull_mode(cull_mode: Option<Face>) -> GpuCullMode {
    match cull_mode {
        None => GpuCullMode::Disabled,
        Some(Face::Front) => GpuCullMode::Front,
        Some(Face::Back) => GpuCullMode::Back,
    }
}

/// Maps a cull mode to its WebGPU counterpart.
pub fn map_cull_mode(cull_mode: Option<Face>) -> (mapped: GpuCullMode)
    ensures
        mapped == web_cull_mode(cull_mode),
{
    match cull_mode {
        None => GpuCullMode::Disabled,
        Some(Face::Front) => GpuCullMode::Front,
        Some(Face::Back) => GpuCullMode::Back,
    }
}

/// Distinct cull modes become distinct WebGPU cull modes.
pub proof fn web_cull_mode_injective(a: Option<Face>, b: Option<Face>)
    ensures
        web_cull_mode(a) == web_cull_mode(b) ==> a == b,
{
}

/// A primitive topology as wgpu describes it: one variant for each of `wgpu_types::PrimitiveTopology`.
#[derive(Clone, Copy, Debug, PartialEq, Eq, Structural)]
pub enum PrimitiveTopology {
    PointList,
    LineList,
    LineStrip,
    TriangleList,
    TriangleStrip,
}

/// A primitive topology as WebGPU describes it: one variant for each of `web_sys::GpuPrimitiveTopology`.
#[derive(Clone, Copy, Debug, PartialEq, Eq, Structural)]
pub enum GpuPrimitiveTopology {
    PointList,
    LineList,
    LineStrip,
    TriangleList,
    TriangleStrip,
}

/// The WebGPU counterpart of a `PrimitiveTopology`: the value of the same name.
pub open spec fn web_primitive_topology(value: PrimitiveTopology) -> GpuPrimitiveTopology {
    match value {
        PrimitiveTopology::PointList => GpuPrimitiveTopology::PointList,
        PrimitiveTopology::LineList => GpuPrimitiveTopology::LineList,
        PrimitiveTopology::LineStrip => GpuPrimitiveTopology::LineStrip,
        PrimitiveTopology::TriangleList => GpuPrimitiveTopology::TriangleList,
        PrimitiveTopology::TriangleStrip => GpuPrimitiveTopology::TriangleStrip,
    }
}

/// Maps a primitive topology to its WebGPU counterpart.
pub fn map_primitive_topology(value: PrimitiveTopology) -> (mapped: GpuPrimitiveTopology)
    ensures
        mapped == web_primitive_topology(value),
{
    match value {
        PrimitiveTopology::PointList => GpuPrimitiveTopology::PointList,
        PrimitiveTopology::LineList => GpuPrimitiveTopology::LineList,
        PrimitiveTopology::LineStrip => GpuPrimitiveTopology::LineStrip,
        PrimitiveTopology::TriangleList => GpuPrimitiveTopology::TriangleList,
        PrimitiveTopology::TriangleStrip => GpuPrimitiveTopology::TriangleStrip,
    }
}

/// Distinct values of `PrimitiveTopology` become distinct WebGPU values.
pub proof fn web_primitive_topology_injective(a: PrimitiveTopology, b: PrimitiveTopology)
    ensures
        web_primitive_topology(a) == web_primitive_topology(b) ==> a == b,
{
}

/// A texture dimension as wgpu describes it: one variant for each of `wgpu_types::TextureDimension`.
#[derive(Clone, Copy, Debug, PartialEq, Eq, Structural)]
pub enum TextureDimension {
    D1,
    D2,
    D3,
}

/// A texture dimension as WebGPU describes it: one variant for each of `web_sys::GpuTextureDimension`.
#[derive(Clone, Copy, Debug, PartialEq, Eq, Structural)]
pub enum GpuTextureDimension {
    N1d,
    N2d,
    N3d,
}

/// The WebGPU counterpart of a `TextureDimension`: `D1`, `D2` and `D3` are WebGPU's "1d", "2d"
/// and "3d".
pub open spec fn web_texture_dimension(value: TextureDimension) -> GpuTextureDimension {
    match value {
        TextureDimension::D1 => GpuTextureDimension::N1d,
        TextureDimension::D2 => GpuTextureDimension::N2d,
        TextureDimension::D3 => GpuTextureDimension::N3d,
    }
}

/// Maps a texture dimension to its WebGPU counterpart.
pub fn map_texture_dimension(value: TextureDimension) -> (mapped: GpuTextureDimension)
    ensures
        mapped == web_texture_dimension(value),
{
    match value {
        TextureDimension::D1 => GpuTextureDimension::N1d,
        TextureDimension::D2 => GpuTextureDimension::N2d,
        TextureDimension::D3 => GpuTextureDimension::N3d,
    }
}

/// Distinct values of `TextureDimension` become distinct WebGPU values.
pub proof fn web_texture_dimension_injective(a: TextureDimension, b: TextureDimension)
    ensures
        web_texture_dimension(a) == web_texture_dimension(b) ==> a == b,
{
}

/// A texture view dimension as wgpu describes it: one variant for each of `wgpu_types::TextureViewDimension`.
#[derive(Clone, Copy, Debug, PartialEq, Eq, Structural)]
pub enum TextureViewDimension {
    D1,
    D2,
    D2Array,
    Cube,
    CubeArray,
    D3,
}

/// A texture view dimension as WebGPU describes it: one variant for each of `web_sys::GpuTextureViewDimension`.
#[derive(Clone, Copy, Debug, PartialEq, Eq, Structural)]
pub enum GpuTextureViewDimension {
    N1d,
    N2d,
    N2dArray,
    Cube,
    CubeArray,
    N3d,
}

/// The WebGPU counterpart of a `TextureViewDimension`: the dimension of the same extent, the
/// `D`-prefixed ones becoming WebGPU's "1d", "2d", "2d-array" and "3d".
pub open spec fn web_texture_view_dimension(value: TextureViewDimension) -> GpuTextureViewDimension {
    match value {
        TextureViewDimension::D1 => GpuTextureViewDimension::N1d,
        TextureViewDimension::D2 => GpuTextureViewDimension::N2d,
        TextureViewDimension::D2Array => GpuTextureViewDimension::N2dArray,
        TextureViewDimension::Cube => GpuTextureViewDimension::Cube,
        TextureViewDimension::CubeArray => GpuTextureViewDimension::CubeArray,
        TextureViewDimension::D3 => GpuTextureViewDimension::N3d,
    }
}

/// Maps a texture view dimension to its WebGPU counterpart.
pub fn map_texture_view_dimension(value: TextureViewDimension) -> (mapped: GpuTextureViewDimension)
    ensures
        mapped == web_texture_view_dimension(value),
{
    match value {
        TextureViewDimension::D1 => GpuTextureViewDimension::N1d,
        TextureViewDimension::D2 => GpuTextureViewDimension::N2d,
        TextureViewDimension::D2Array => GpuTextureViewDimension::N2dArray,
        TextureViewDimension::Cube => GpuTextureViewDimension::Cube,
        TextureViewDimension::CubeArray => GpuTextureViewDimension::CubeArray,
        TextureViewDimension::D3 => GpuTextureViewDimension::N3d,
    }
}

/// Distinct values of `TextureViewDimension` become distinct WebGPU values.
pub proof fn web_texture_view_dimension_injective(a: TextureViewDimension, b: TextureViewDimension)
    ensures
        web_texture_view_dimension(a) == web_texture_view_dimension(b) ==> a == b,
{
}

/// A texture aspect as wgpu describes it: one variant for each of `wgpu_types::TextureAspect`.
#[derive(Clone, Copy, Debug, PartialEq, Eq, Structural)]
pub enum TextureAspect {
    All,
    StencilOnly,
    DepthOnly,
}

/// A texture aspect as WebGPU describes it: one variant for each of `web_sys::GpuTextureAspect`.
#[derive(Clone, Copy, Debug, PartialEq, Eq, Structural)]
pub enum GpuTextureAspect {
    All,
    StencilOnly,
    DepthOnly,
}

/// The WebGPU counterpart of a `TextureAspect`: the value of the same name.
pub open spec fn web_texture_aspect(value: TextureAspect) -> GpuTextureAspect {
    match value {
        TextureAspect::All => GpuTextureAspect::All,
        TextureAspect::StencilOnly => GpuTextureAspect::StencilOnly,
        TextureAspect::DepthOnly => GpuTextureAspect::DepthOnly,
    }
}

/// Maps a texture aspect to its WebGPU counterpart.
pub fn map_texture_aspect(value: TextureAspect) -> (mapped: GpuTextureAspect)
    ensures
        mapped == web_texture_aspect(value),
{
    match value {
        TextureAspect::All => GpuTextureAspect::All,
        TextureAspect::StencilOnly => GpuTextureAspect::StencilOnly,
        TextureAspect::DepthOnly => GpuTextureAspect::DepthOnly,
    }
}

/// Distinct values of `TextureAspect` become distinct WebGPU values.
pub proof fn web_texture_aspect_injective(a: TextureAspect, b: TextureAspect)
    ensures
        web_texture_aspect(a) == web_texture_aspect(b) ==> a == b,
{
}

/// A filter mode as wgpu describes it: one variant for each of `wgpu_types::FilterMode`.
#[derive(Clone, Copy, Debug, PartialEq, Eq, Structural)]
pub enum FilterMode {
    Nearest,
    Linear,
}

/// A filter mode as WebGPU describes it: one variant for each of `web_sys::GpuFilterMode`.
#[derive(Clone, Copy, Debug, PartialEq, Eq, Structural)]
pub enum GpuFilterMode {
    Nearest,
    Linear,
}

/// The WebGPU counterpart of a `FilterMode`: the value of the same name.
pub open spec fn web_filter_mode(value: FilterMode) -> GpuFilterMode {
    match value {
        FilterMode::Nearest => GpuFilterMode::Nearest,
        FilterMode::Linear => GpuFilterMode::Linear,
    }
}

/// Maps a filter mode to its WebGPU counterpart.
pub fn map_filter_mode(value: FilterMode) -> (mapped: GpuFilterMode)
    ensures
        mapped == web_filter_mode(value),
{
    match value {
        FilterMode::Nearest => GpuFilterMode::Nearest,
        FilterMode::Linear => GpuFilterMode::Linear,
    }
}

/// Distinct values of `FilterMode` become distinct WebGPU values.
pub proof fn web_filter_mode_injective(a: FilterMode, b: FilterMode)
    ensures
        web_filter_mode(a) == web_filter_mode(b) ==> a == b,
{
}

/// A power preference as wgpu describes it: one variant for each of `wgpu_types::PowerPreference`.
#[derive(Clone, Copy, Debug, PartialEq, Eq, Structural)]
pub enum PowerPreference {
    LowPower,
    HighPerformance,
}

/// A power preference as WebGPU describes it: one variant for each of `web_sys::GpuPowerPreference`.
#[derive(Clone, Copy, Debug, PartialEq, Eq, Structural)]
pub enum GpuPowerPreference {
    LowPower,
    HighPerformance,
}

/// The WebGPU counterpart of a `PowerPreference`: the value of the same name.
pub open spec fn web_power_preference(value: PowerPreference) -> GpuPowerPreference {
    match value {
        PowerPreference::LowPower => GpuPowerPreference::LowPower,
        PowerPreference::HighPerformance => GpuPowerPreference::HighPerformance,
    }
}

/// Maps a power preference to its WebGPU counterpart.
pub fn map_power_preference(value: PowerPreference) -> (mapped: GpuPowerPreference)
    ensures
        mapped == web_power_preference(value),
{
    match value {
        PowerPreference::LowPower => GpuPowerPreference::LowPower,
        PowerPreference::HighPerformance => GpuPowerPreference::HighPerformance,
    }
}

/// Distinct values of `PowerPreference` become distinct WebGPU values.
pub proof fn web_power_preference_injective(a: PowerPreference, b: PowerPreference)
    ensures
        web_power_preference(a) == web_power_preference(b) ==> a == b,
{
}

/// How a sampler addresses texels outside the texture, as wgpu describes it: one variant for each
/// of `wgpu_types::AddressMode`.
#[derive(Clone, Copy, Debug, PartialEq, Eq, Structural)]
pub enum AddressMode {
    ClampToEdge,
    Repeat,
    MirrorRepeat,
    ClampToBorder,
}

/// How a sampler addresses texels outside the texture, as WebGPU describes it: one variant for
/// each of `web_sys::GpuAddressMode`.
#[derive(Clone, Copy, Debug, PartialEq, Eq, Structural)]
pub enum GpuAddressMode {
    ClampToEdge,
    Repeat,
    MirrorRepeat,
}

/// The WebGPU address mode for `mode`; WebGPU has no border clamping.
pub open spec fn web_address_mode(mode: AddressMode) -> Option<GpuAddressMode> {
    match mode {
        AddressMode::ClampToEdge => Some(GpuAddressMode::ClampToEdge),
        AddressMode::Repeat => Some(GpuAddressMode::Repeat),
        AddressMode::MirrorRepeat => Some(GpuAddressMode::MirrorRepeat),
        AddressMode::ClampToBorder => None,
    }
}

/// Whether the web backend can express `mode`.
pub fn address_mode_supported(mode: AddressMode) -> (supported: bool)
    ensures
        supported == web_address_mode(mode) is Some,
{
    match mode {
        AddressMode::ClampToBorder => false,
        _ => true,
    }
}

/// Maps an address mode to its WebGPU counterpart.
pub fn map_address_mode(mode: AddressMode) -> (mapped: GpuAddressMode)
    requires
        web_address_mode(mode) is Some,
    ensures
        web_address_mode(mode) == Some(mapped),
{
    match mode {
        AddressMode::ClampToEdge => GpuAddressMode::ClampToEdge,
        AddressMode::Repeat => GpuAddressMode::Repeat,
        AddressMode::MirrorRepeat => GpuAddressMode::MirrorRepeat,
        AddressMode::ClampToBorder => unreached(),
    }
}

/// The kind of value a sampled texture yields, as wgpu describes it: one variant for each of
/// `wgpu_types::TextureSampleType`.
#[derive(Clone, Copy, Debug, PartialEq, Eq, Structural)]
pub enum TextureSampleType {
    Float { filterable: bool },
    Depth,
    Sint,
    Uint,
}

/// The kind of value a sampled texture yields, as WebGPU describes it: one variant for each of
/// `web_sys::GpuTextureComponentType`.
#[derive(Clone, Copy, Debug, PartialEq, Eq, Structural)]
pub enum GpuTextureComponentType {
    Float,
    Sint,
    Uint,
    DepthComparison,
}

/// The WebGPU component type of a sample type: whether a float texture is filterable is not
/// expressed on the web.
pub open spec fn web_texture_component_type(sample_type: TextureSampleType) -> GpuTextureComponentType {
    match sample_type {
        TextureSampleType::Float { .. } => GpuTextureComponentType::Float,
        TextureSampleType::Sint => GpuTextureComponentType::Sint,
        TextureSampleType::Uint => GpuTextureComponentType::Uint,
        TextureSampleType::Depth => GpuTextureComponentType::DepthComparison,
    }
}

/// Maps a sample type to its WebGPU component type.
pub fn map_texture_component_type(sample_type: TextureSampleType) -> (mapped: GpuTextureComponentType)
    ensures
        mapped == web_texture_component_type(sample_type),
{
    match sample_type {
        TextureSampleType::Float { .. } => GpuTextureComponentType::Float,
        TextureSampleType::Sint => GpuTextureComponentType::Sint,
        TextureSampleType::Uint => GpuTextureComponentType::Uint,
        TextureSampleType::Depth => GpuTextureComponentType::DepthComparison,
    }
}

/// What a pass does with an attachment's contents at its end, as WebGPU describes it: one
/// variant for each of `web_sys::GpuStoreOp`.
#[derive(Clone, Copy, Debug, PartialEq, Eq, Structural)]
pub enum GpuStoreOp {
    Store,
    Clear,
}

/// Maps wgpu's "store the results" flag to a WebGPU store operation.
pub fn map_store_op(store: bool) -> (op: GpuStoreOp)
    ensures
        (op == GpuStoreOp::Store) == store,
        (op == GpuStoreOp::Clear) == !store,
{
    if store {
        GpuStoreOp::Store
    } else {
        GpuStoreOp::Clear
    }
}

/// How a buffer is mapped for host access: one variant for each of wgpu's `MapMode`.
#[derive(Clone, Copy, Debug, PartialEq, Eq, Structural)]
pub enum MapMode {
    Read,
    Write,
}

/// The value of `GPUMapMode.READ` in the WebGPU API (`web_sys::GpuMapMode::READ`).
pub const GPU_MAP_MODE_READ: u32 = 1;

/// The value of `GPUMapMode.WRITE` in the WebGPU API (`web_sys::GpuMapMode::WRITE`).
pub const GPU_MAP_MODE_WRITE: u32 = 2;

/// The WebGPU map-mode flag of a map mode.
pub open spec fn web_map_mode(mode: MapMode) -> u32 {
    match mode {
        MapMode::Read => GPU_MAP_MODE_READ,
        MapMode::Write => GPU_MAP_MODE_WRITE,
    }
}

/// Maps a map mode to the WebGPU map-mode flag.
pub fn map_map_mode(mode: MapMode) -> (flags: u32)
    ensures
        flags == web_map_mode(mode),
{
    match mode {
        MapMode::Read => GPU_MAP_MODE_READ,
        MapMode::Write => GPU_MAP_MODE_WRITE,
    }
}

/// Distinct address modes that WebGPU expresses become distinct WebGPU address modes.
pub proof fn web_address_mode_injective(a: AddressMode, b: AddressMode)
    ensures
        web_address_mode(a) is Some && web_address_mode(a) == web_address_mode(b) ==> a == b,
{
}

/// Two sample types have the same WebGPU component type exactly when they are the same apart from
/// float filterability.
pub proof fn web_texture_component_type_identifies(a: TextureSampleType, b: TextureSampleType)
    ensures
        web_texture_component_type(a) == web_texture_component_type(b) <==> (a == b || (a is Float
            && b is Float)),
{
}

/// The two map modes are distinct single-bit flags.
pub proof fn web_map_mode_single_bits(a: MapMode, b: MapMode)
    ensures
        web_map_mode(a) == 1 || web_map_mode(a) == 2,
        web_map_mode(a) == web_map_mode(b) ==> a == b,
{
}

} // verus!
