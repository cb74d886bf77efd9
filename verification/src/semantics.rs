//! What the values of the small enumerations of pipeline and texture state mean, on wgpu's side and
//! on WebGPU's, and the laws that the maps of `state` keep that meaning: a depth test passes in the
//! same cases, a stencil operation writes the same value, a primitive topology assembles the same
//! primitives, and so on. Each meaning tells the values of its enumeration apart, so a map that
//! keeps it sends every value to the WebGPU value of the same name.
use crate::state::{
    AddressMode, BlendFactor, BlendOperation, CompareFunction, Face, FilterMode, FrontFace,
    GpuAddressMode, GpuBlendFactor, GpuBlendOperation, GpuCompareFunction, GpuCullMode,
    GpuFilterMode, GpuFrontFace, GpuIndexFormat, GpuInputStepMode, GpuPowerPreference,
    GpuPrimitiveTopology, GpuStencilOperation, GpuTextureAspect, GpuTextureComponentType,
    GpuTextureDimension, GpuTextureViewDimension, IndexFormat, InputStepMode, MapMode,
    PowerPreference, PrimitiveTopology, StencilOperation, TextureAspect, TextureDimension,
    TextureSampleType, TextureViewDimension, GPU_MAP_MODE_READ, GPU_MAP_MODE_WRITE,
    web_address_mode, web_blend_factor, web_blend_operation, web_compare_function, web_cull_mode,
    web_filter_mode, web_front_face, web_index_format, web_input_step_mode, web_map_mode,
    web_power_preference, web_primitive_topology, web_stencil_operation, web_texture_aspect,
    web_texture_component_type, web_texture_dimension, web_texture_view_dimension,
};
use vstd::prelude::*;

verus! {

// ---------------------------------------------------------------------------------------------
// Comparison functions

/// How a new value stands to the stored one in a depth or stencil test.
#[derive(Clone, Copy, Debug, PartialEq, Eq, Structural)]
pub enum Relation {
    Less,
    Equal,
    Greater,
}

/// Whether a test with the wgpu comparison function `f` passes when the new value stands in
/// relation `rel` to the stored one.
pub open spec fn compare_passes(f: CompareFunction, rel: Relation) -> bool {
    match f {
        CompareFunction::Never => false,
        CompareFunction::Less => rel == Relation::Less,
        CompareFunction::Equal => rel == Relation::Equal,
        CompareFunction::LessEqual => rel != Relation::Greater,
        CompareFunction::Greater => rel == Relation::Greater,
        CompareFunction::NotEqual => rel != Relation::Equal,
        CompareFunction::GreaterEqual => rel != Relation::Less,
        CompareFunction::Always => true,
    }
}

/// Whether a test with the WebGPU comparison function `f` ("never", "less", "equal",
/// "less-equal", "greater", "not-equal", "greater-equal", "always") passes when the new value
/// stands in relation `rel` to the stored one.
pub open spec fn gpu_compare_passes(f: GpuCompareFunction, rel: Relation) -> bool {
    match f {
        GpuCompareFunction::Never => false,
        GpuCompareFunction::Less => rel == Relation::Less,
        GpuCompareFunction::Equal => rel == Relation::Equal,
        GpuCompareFunction::LessEqual => rel != Relation::Greater,
        GpuCompareFunction::Greater => rel == Relation::Greater,
        GpuCompareFunction::NotEqual => rel != Relation::Equal,
        GpuCompareFunction::GreaterEqual => rel != Relation::Less,
        GpuCompareFunction::Always => true,
    }
}

/// A mapped comparison function passes a test exactly when the wgpu one does, whatever the
/// relation between the new and the stored value.
pub proof fn compare_function_keeps_test(f: CompareFunction, rel: Relation)
    ensures
        gpu_compare_passes(web_compare_function(f), rel) == compare_passes(f, rel),
{
}

// ---------------------------------------------------------------------------------------------
// Stencil operations

/// The 8-bit stencil value that the wgpu stencil operation `op` writes, for the stored value
/// `current` and the reference value `reference`.
pub open spec fn stencil_result(op: StencilOperation, current: int, reference: int) -> int {
    match op {
        StencilOperation::Keep => current,
        StencilOperation::Zero => 0,
        StencilOperation::Replace => reference,
        StencilOperation::Invert => 255 - current,
        StencilOperation::IncrementClamp => if current < 255 {
            current + 1
        } else {
            255
        },
        StencilOperation::DecrementClamp => if current > 0 {
            current - 1
        } else {
            0
        },
        StencilOperation::IncrementWrap => (current + 1) % 256,
        StencilOperation::DecrementWrap => (current + 255) % 256,
    }
}

/// The 8-bit stencil value that the WebGPU stencil operation `op` ("keep", "zero", "replace",
/// "invert", "increment-clamp", "decrement-clamp", "increment-wrap", "decrement-wrap") writes, for
/// the stored value `current` and the reference value `reference`.
pub open spec fn gpu_stencil_result(op: GpuStencilOperation, current: int, reference: int) -> int {
    match op {
        GpuStencilOperation::Keep => current,
        GpuStencilOperation::Zero => 0,
        GpuStencilOperation::Replace => reference,
        GpuStencilOperation::Invert => 255 - current,
        GpuStencilOperation::IncrementClamp => if current < 255 {
            current + 1
        } else {
            255
        },
        GpuStencilOperation::DecrementClamp => if current > 0 {
            current - 1
        } else {
            0
        },
        GpuStencilOperation::IncrementWrap => (current + 1) % 256,
        GpuStencilOperation::DecrementWrap => (current + 255) % 256,
    }
}

/// A mapped stencil operation writes the same stencil value as the wgpu one, for every stored
/// value and reference.
pub proof fn stencil_operation_keeps_result(
    op: StencilOperation,
    current: int,
    reference: int,
)
    requires
        0 <= current < 256,
        0 <= reference < 256,
    ensures
        gpu_stencil_result(web_stencil_operation(op), current, reference) == stencil_result(
            op,
            current,
            reference,
        ),
{
}

// ---------------------------------------------------------------------------------------------
// Blending

/// The result of the wgpu blend operation `op` on the weighted source `src` and destination
/// `dst`.
pub open spec fn blend_result(op: BlendOperation, src: int, dst: int) -> int {
    match op {
        BlendOperation::Add => src + dst,
        BlendOperation::Subtract => src - dst,
        BlendOperation::ReverseSubtract => dst - src,
        BlendOperation::Min => if src <= dst {
            src
        } else {
            dst
        },
        BlendOperation::Max => if src <= dst {
            dst
        } else {
            src
        },
    }
}

/// The result of the WebGPU blend operation `op` ("add", "subtract", "reverse-subtract", "min",
/// "max") on the weighted source `src` and destination `dst`.
pub open spec fn gpu_blend_result(op: GpuBlendOperation, src: int, dst: int) -> int {
    match op {
        GpuBlendOperation::Add => src + dst,
        GpuBlendOperation::Subtract => src - dst,
        GpuBlendOperation::ReverseSubtract => dst - src,
        GpuBlendOperation::Min => if src <= dst {
            src
        } else {
            dst
        },
        GpuBlendOperation::Max => if src <= dst {
            dst
        } else {
            src
        },
    }
}

/// A mapped blend operation combines source and destination as the wgpu one does.
pub proof fn blend_operation_keeps_result(op: BlendOperation, src: int, dst: int)
    ensures
        gpu_blend_result(web_blend_operation(op), src, dst) == blend_result(op, src, dst),
{
}

/// What a blend factor is computed from: the source and destination channel and alpha, and the
/// blend constant, on a fixed-point scale where `one` stands for 1.0.
pub struct BlendInputs {
    pub one: int,
    pub src: int,
    pub src_alpha: int,
    pub dst: int,
    pub dst_alpha: int,
    pub constant: int,
}

/// The value of the wgpu blend factor `f` for the inputs `i`.
pub open spec fn blend_factor_value(f: BlendFactor, i: BlendInputs) -> int {
    match f {
        BlendFactor::Zero => 0,
        BlendFactor::One => i.one,
        BlendFactor::SrcColor => i.src,
        BlendFactor::OneMinusSrcColor => i.one - i.src,
        BlendFactor::SrcAlpha => i.src_alpha,
        BlendFactor::OneMinusSrcAlpha => i.one - i.src_alpha,
        BlendFactor::DstColor => i.dst,
        BlendFactor::OneMinusDstColor => i.one - i.dst,
        BlendFactor::DstAlpha => i.dst_alpha,
        BlendFactor::OneMinusDstAlpha => i.one - i.dst_alpha,
        BlendFactor::SrcAlphaSaturated => if i.src_alpha <= i.one - i.dst_alpha {
            i.src_alpha
        } else {
            i.one - i.dst_alpha
        },
        BlendFactor::BlendColor => i.constant,
        BlendFactor::OneMinusBlendColor => i.one - i.constant,
    }
}

/// The value of the WebGPU blend factor `f` ("zero", "one", "src-color", "one-minus-src-color",
/// "src-alpha", "one-minus-src-alpha", "dst-color", "one-minus-dst-color", "dst-alpha",
/// "one-minus-dst-alpha", "src-alpha-saturated", "blend-color", "one-minus-blend-color") for the
/// inputs `i`.
pub open spec fn gpu_blend_factor_value(f: GpuBlendFactor, i: BlendInputs) -> int {
    match f {
        GpuBlendFactor::Zero => 0,
        GpuBlendFactor::One => i.one,
        GpuBlendFactor::SrcColor => i.src,
        GpuBlendFactor::OneMinusSrcColor => i.one - i.src,
        GpuBlendFactor::SrcAlpha => i.src_alpha,
        GpuBlendFactor::OneMinusSrcAlpha => i.one - i.src_alpha,
        GpuBlendFactor::DstColor => i.dst,
        GpuBlendFactor::OneMinusDstColor => i.one - i.dst,
        GpuBlendFactor::DstAlpha => i.dst_alpha,
        GpuBlendFactor::OneMinusDstAlpha => i.one - i.dst_alpha,
        GpuBlendFactor::SrcAlphaSaturated => if i.src_alpha <= i.one - i.dst_alpha {
            i.src_alpha
        } else {
            i.one - i.dst_alpha
        },
        GpuBlendFactor::BlendColor => i.constant,
        GpuBlendFactor::OneMinusBlendColor => i.one - i.constant,
    }
}

/// A mapped blend factor weighs a channel as the wgpu one does, for all inputs.
pub proof fn blend_factor_keeps_value(f: BlendFactor, i: BlendInputs)
    ensures
        gpu_blend_factor_value(web_blend_factor(f), i) == blend_factor_value(f, i),
{
}

// ---------------------------------------------------------------------------------------------
// Vertex input and primitive assembly

/// The size in bytes of one index of the wgpu index format `f`.
pub open spec fn index_bytes(f: IndexFormat) -> nat {
    match f {
        IndexFormat::Uint16 => 2,
        IndexFormat::Uint32 => 4,
    }
}

/// The size in bytes of one index of the WebGPU index format `f` ("uint16", "uint32").
pub open spec fn gpu_index_bytes(f: GpuIndexFormat) -> nat {
    match f {
        GpuIndexFormat::Uint16 => 2,
        GpuIndexFormat::Uint32 => 4,
    }
}

/// A mapped index format reads indices of the same size.
pub proof fn index_format_keeps_size(f: IndexFormat)
    ensures
        gpu_index_bytes(web_index_format(f)) == index_bytes(f),
{
}

/// Whether a vertex buffer with the wgpu step mode `m` advances once per instance (rather than
/// once per vertex).
pub open spec fn steps_per_instance(m: InputStepMode) -> bool {
    m == InputStepMode::Instance
}

/// Whether a vertex buffer with the WebGPU step mode `m` ("vertex", "instance") advances once per
/// instance.
pub open spec fn gpu_steps_per_instance(m: GpuInputStepMode) -> bool {
    m == GpuInputStepMode::Instance
}

/// A mapped step mode advances the buffer at the same rate.
pub proof fn input_step_mode_keeps_rate(m: InputStepMode)
    ensures
        gpu_steps_per_instance(web_input_step_mode(m)) == steps_per_instance(m),
{
}

/// The kind of primitive that a topology assembles.
#[derive(Clone, Copy, Debug, PartialEq, Eq, Structural)]
pub enum PrimitiveShape {
    Point,
    Line,
    Triangle,
}

/// The primitives that the wgpu topology `t` assembles, and whether consecutive primitives share
/// vertices (a strip) rather than each taking its own (a list).
pub open spec fn topology_assembly(t: PrimitiveTopology) -> (PrimitiveShape, bool) {
    match t {
        PrimitiveTopology::PointList => (PrimitiveShape::Point, false),
        PrimitiveTopology::LineList => (PrimitiveShape::Line, false),
        PrimitiveTopology::LineStrip => (PrimitiveShape::Line, true),
        PrimitiveTopology::TriangleList => (PrimitiveShape::Triangle, false),
        PrimitiveTopology::TriangleStrip => (PrimitiveShape::Triangle, true),
    }
}

/// The primitives that the WebGPU topology `t` ("point-list", "line-list", "line-strip",
/// "triangle-list", "triangle-strip") assembles, and whether it is a strip.
pub open spec fn gpu_topology_assembly(t: GpuPrimitiveTopology) -> (PrimitiveShape, bool) {
    match t {
        GpuPrimitiveTopology::PointList => (PrimitiveShape::Point, false),
        GpuPrimitiveTopology::LineList => (PrimitiveShape::Line, false),
        GpuPrimitiveTopology::LineStrip => (PrimitiveShape::Line, true),
        GpuPrimitiveTopology::TriangleList => (PrimitiveShape::Triangle, false),
        GpuPrimitiveTopology::TriangleStrip => (PrimitiveShape::Triangle, true),
    }
}

/// A mapped topology is the one WebGPU topology that assembles the same primitives, as a list or
/// a strip alike: triangle lists stay triangle lists, line lists stay line lists, and so on.
pub proof fn primitive_topology_keeps_assembly(t: PrimitiveTopology, g: GpuPrimitiveTopology)
    ensures
        gpu_topology_assembly(web_primitive_topology(t)) == topology_assembly(t),
        gpu_topology_assembly(g) == topology_assembly(t) <==> g == web_primitive_topology(t),
{
}

/// Whether the wgpu front face `f` makes counter-clockwise triangles the front-facing ones.
pub open spec fn front_is_counter_clockwise(f: FrontFace) -> bool {
    f == FrontFace::Ccw
}

/// Whether the WebGPU front face `f` ("ccw", "cw") makes counter-clockwise triangles the
/// front-facing ones.
pub open spec fn gpu_front_is_counter_clockwise(f: GpuFrontFace) -> bool {
    f == GpuFrontFace::Ccw
}

/// A mapped front face takes the same winding as the front.
pub proof fn front_face_keeps_winding(f: FrontFace)
    ensures
        gpu_front_is_counter_clockwise(web_front_face(f)) == front_is_counter_clockwise(f),
{
}

/// Whether the WebGPU cull mode `m` ("none", "front", "back") discards triangles that show the face
/// `face`.
pub open spec fn gpu_culls(m: GpuCullMode, face: Face) -> bool {
    match m {
        GpuCullMode::Disabled => false,
        GpuCullMode::Front => face == Face::Front,
        GpuCullMode::Back => face == Face::Back,
    }
}

/// The mapped cull mode discards exactly the triangles that show the face wgpu asks to cull, and
/// none without a face to cull.
pub proof fn cull_mode_keeps_culled_face(cull_mode: Option<Face>, face: Face)
    ensures
        gpu_culls(web_cull_mode(cull_mode), face) == (cull_mode == Some(face)),
{
}

// ---------------------------------------------------------------------------------------------
// Textures and samplers

/// The number of dimensions of a texture of the wgpu dimension `d`.
pub open spec fn dimension_count(d: TextureDimension) -> nat {
    match d {
        TextureDimension::D1 => 1,
        TextureDimension::D2 => 2,
        TextureDimension::D3 => 3,
    }
}

/// The number of dimensions of a texture of the WebGPU dimension `d` ("1d", "2d", "3d").
pub open spec fn gpu_dimension_count(d: GpuTextureDimension) -> nat {
    match d {
        GpuTextureDimension::N1d => 1,
        GpuTextureDimension::N2d => 2,
        GpuTextureDimension::N3d => 3,
    }
}

/// A mapped texture dimension has the same number of dimensions.
pub proof fn texture_dimension_keeps_count(d: TextureDimension)
    ensures
        gpu_dimension_count(web_texture_dimension(d)) == dimension_count(d),
{
}

/// How a view of the wgpu view dimension `d` sees its texture: the number of dimensions of each
/// image, whether the images are the faces of cubes, and whether there are arrays of them.
pub open spec fn view_shape(d: TextureViewDimension) -> (nat, bool, bool) {
    match d {
        TextureViewDimension::D1 => (1, false, false),
        TextureViewDimension::D2 => (2, false, false),
        TextureViewDimension::D2Array => (2, false, true),
        TextureViewDimension::Cube => (2, true, false),
        TextureViewDimension::CubeArray => (2, true, true),
        TextureViewDimension::D3 => (3, false, false),
    }
}

/// How a view of the WebGPU view dimension `d` ("1d", "2d", "2d-array", "cube", "cube-array",
/// "3d") sees its texture.
pub open spec fn gpu_view_shape(d: GpuTextureViewDimension) -> (nat, bool, bool) {
    match d {
        GpuTextureViewDimension::N1d => (1, false, false),
        GpuTextureViewDimension::N2d => (2, false, false),
        GpuTextureViewDimension::N2dArray => (2, false, true),
        GpuTextureViewDimension::Cube => (2, true, false),
        GpuTextureViewDimension::CubeArray => (2, true, true),
        GpuTextureViewDimension::N3d => (3, false, false),
    }
}

/// A mapped view dimension sees the texture in the same shape.
pub proof fn texture_view_dimension_keeps_shape(d: TextureViewDimension)
    ensures
        gpu_view_shape(web_texture_view_dimension(d)) == view_shape(d),
{
}

/// Which aspects of a texture the wgpu aspect `a` covers: the color or depth part, and the
/// stencil part.
pub open spec fn aspect_parts(a: TextureAspect) -> (bool, bool) {
    match a {
        TextureAspect::All => (true, true),
        TextureAspect::StencilOnly => (false, true),
        TextureAspect::DepthOnly => (true, false),
    }
}

/// Which aspects of a texture the WebGPU aspect `a` ("all", "stencil-only", "depth-only") covers.
pub open spec fn gpu_aspect_parts(a: GpuTextureAspect) -> (bool, bool) {
    match a {
        GpuTextureAspect::All => (true, true),
        GpuTextureAspect::StencilOnly => (false, true),
        GpuTextureAspect::DepthOnly => (true, false),
    }
}

/// A mapped aspect covers the same parts of the texture.
pub proof fn texture_aspect_keeps_parts(a: TextureAspect)
    ensures
        gpu_aspect_parts(web_texture_aspect(a)) == aspect_parts(a),
{
}

/// Whether the wgpu filter mode `m` blends neighbouring texels (rather than taking the nearest).
pub open spec fn filter_interpolates(m: FilterMode) -> bool {
    m == FilterMode::Linear
}

/// Whether the WebGPU filter mode `m` ("nearest", "linear") blends neighbouring texels.
pub open spec fn gpu_filter_interpolates(m: GpuFilterMode) -> bool {
    m == GpuFilterMode::Linear
}

/// A mapped filter mode samples in the same way.
pub proof fn filter_mode_keeps_sampling(m: FilterMode)
    ensures
        gpu_filter_interpolates(web_filter_mode(m)) == filter_interpolates(m),
{
}

/// The texel that a coordinate `x` (in texels) reaches along an axis of `size` texels under the
/// wgpu address mode `m`, where it reaches one: clamped to the edge, repeated, or repeated with
/// every other copy mirrored; with `ClampToBorder`, coordinates outside the texture reach the
/// border color instead (`None`).
pub open spec fn address_texel(m: AddressMode, x: int, size: int) -> Option<int> {
    match m {
        AddressMode::ClampToEdge => Some(
            if x < 0 {
                0
            } else if x >= size {
                size - 1
            } else {
                x
            },
        ),
        AddressMode::Repeat => Some(x % size),
        AddressMode::MirrorRepeat => Some(
            if (x / size) % 2 == 0 {
                x % size
            } else {
                size - 1 - x % size
            },
        ),
        AddressMode::ClampToBorder => if 0 <= x < size {
            Some(x)
        } else {
            None
        },
    }
}

/// The texel that a coordinate `x` reaches along an axis of `size` texels under the WebGPU
/// address mode `m` ("clamp-to-edge", "repeat", "mirror-repeat").
pub open spec fn gpu_address_texel(m: GpuAddressMode, x: int, size: int) -> int {
    match m {
        GpuAddressMode::ClampToEdge => if x < 0 {
            0
        } else if x >= size {
            size - 1
        } else {
            x
        },
        GpuAddressMode::Repeat => x % size,
        GpuAddressMode::MirrorRepeat => if (x / size) % 2 == 0 {
            x % size
        } else {
            size - 1 - x % size
        },
    }
}

/// A mapped address mode sends every coordinate to the same texel as the wgpu one.
pub proof fn address_mode_keeps_texel(m: AddressMode, x: int, size: int)
    requires
        size > 0,
    ensures
        web_address_mode(m) matches Some(g) ==> address_texel(m, x, size) == Some(
            gpu_address_texel(g, x, size),
        ),
{
}

/// The kind of value that sampling a texture yields.
#[derive(Clone, Copy, Debug, PartialEq, Eq, Structural)]
pub enum SampleKind {
    Float,
    SignedInteger,
    UnsignedInteger,
    DepthComparison,
}

/// The kind of value that a texture of the wgpu sample type `t` yields.
pub open spec fn sample_kind(t: TextureSampleType) -> SampleKind {
    match t {
        TextureSampleType::Float { .. } => SampleKind::Float,
        TextureSampleType::Depth => SampleKind::DepthComparison,
        TextureSampleType::Sint => SampleKind::SignedInteger,
        TextureSampleType::Uint => SampleKind::UnsignedInteger,
    }
}

/// The kind of value that a texture of the WebGPU component type `t` ("float", "sint", "uint",
/// "depth-comparison") yields.
pub open spec fn gpu_sample_kind(t: GpuTextureComponentType) -> SampleKind {
    match t {
        GpuTextureComponentType::Float => SampleKind::Float,
        GpuTextureComponentType::Sint => SampleKind::SignedInteger,
        GpuTextureComponentType::Uint => SampleKind::UnsignedInteger,
        GpuTextureComponentType::DepthComparison => SampleKind::DepthComparison,
    }
}

/// A mapped component type yields the same kind of value as the wgpu sample type.
pub proof fn texture_component_type_keeps_kind(t: TextureSampleType)
    ensures
        gpu_sample_kind(web_texture_component_type(t)) == sample_kind(t),
{
}

// ---------------------------------------------------------------------------------------------
// Adapters and buffer mapping

/// Whether the wgpu power preference `p` asks for the adapter that uses the least power.
pub open spec fn prefers_low_power(p: PowerPreference) -> bool {
    p == PowerPreference::LowPower
}

/// Whether the WebGPU power preference `p` ("low-power", "high-performance") asks for the adapter
/// that uses the least power.
pub open spec fn gpu_prefers_low_power(p: GpuPowerPreference) -> bool {
    p == GpuPowerPreference::LowPower
}

/// A mapped power preference asks for the same kind of adapter.
pub proof fn power_preference_keeps_request(p: PowerPreference)
    ensures
        gpu_prefers_low_power(web_power_preference(p)) == prefers_low_power(p),
{
}

/// The WebGPU map-mode flags of a map mode grant reading exactly to a read mapping, and writing
/// exactly to a write mapping.
pub proof fn map_mode_grants_access(mode: MapMode)
    ensures
        (web_map_mode(mode) & GPU_MAP_MODE_READ != 0) == (mode == MapMode::Read),
        (web_map_mode(mode) & GPU_MAP_MODE_WRITE != 0) == (mode == MapMode::Write),
{
    assert(1u32 & 1u32 != 0 && 1u32 & 2u32 == 0 && 2u32 & 1u32 == 0 && 2u32 & 2u32 != 0)
        by (bit_vector);
}

} // verus!
