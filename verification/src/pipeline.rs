//! Render and compute pipeline state: blending, depth and stencil, rasterization, vertex input,
//! and the whole render pipeline descriptor in its WebGPU form.
use crate::format::{
    GpuTextureFormat, GpuVertexFormat, TextureFormat, VertexFormat, map_texture_format,
    map_vertex_format, texture_format_supported, vertex_format_supported, web_texture_format,
    web_vertex_format,
};
use crate::state::{
    BlendFactor, BlendOperation, CompareFunction, Face, FrontFace, GpuBlendFactor,
    GpuBlendOperation, GpuCompareFunction, GpuCullMode, GpuFrontFace, GpuIndexFormat,
    GpuInputStepMode, GpuPrimitiveTopology, GpuStencilOperation, IndexFormat, InputStepMode,
    PrimitiveTopology, StencilOperation, map_blend_factor, map_blend_operation,
    map_compare_function, map_cull_mode, map_front_face, map_index_format, map_input_step_mode,
    map_primitive_topology, map_stencil_operation, web_blend_factor, web_blend_operation,
    web_compare_function, web_cull_mode, web_front_face, web_index_format, web_input_step_mode,
    web_primitive_topology, web_stencil_operation,
};
use crate::support::Unsupported;
use vstd::prelude::*;

verus! {

/// How the source and destination colors combine, as wgpu describes it (`wgpu_types::BlendState`).
#[derive(Clone, Copy, Debug, PartialEq, Eq, Structural)]
pub struct BlendState {
    pub src_factor: BlendFactor,
    pub dst_factor: BlendFactor,
    pub operation: BlendOperation,
}

/// How the source and destination colors combine, as WebGPU describes it
/// (`web_sys::GpuBlendDescriptor`).
#[derive(Clone, Copy, Debug, PartialEq, Eq, Structural)]
pub struct GpuBlendDescriptor {
    pub src_factor: GpuBlendFactor,
    pub dst_factor: GpuBlendFactor,
    pub operation: GpuBlendOperation,
}

/// The WebGPU blend descriptor of a blend state: each factor and the operation mapped.
pub open spec fn web_blend(blend: BlendState) -> GpuBlendDescriptor {
    GpuBlendDescriptor {
        src_factor: web_blend_factor(blend.src_factor),
        dst_factor: web_blend_factor(blend.dst_factor),
        operation: web_blend_operation(blend.operation),
    }
}

/// Maps a blend state to its WebGPU blend descriptor.
pub fn map_blend_descriptor(blend: &BlendState) -> (mapped: GpuBlendDescriptor)
    ensures
        mapped == web_blend(*blend),
{
    GpuBlendDescriptor {
        dst_factor: map_blend_factor(blend.dst_factor),
        operation: map_blend_operation(blend.operation),
        src_factor: map_blend_factor(blend.src_factor),
    }
}

/// One color target of a render pipeline, as wgpu describes it (`wgpu_types::ColorTargetState`);
/// `write_mask` holds the bits of `wgpu_types::ColorWrite`.
#[derive(Clone, Copy, Debug, PartialEq, Eq, Structural)]
pub struct ColorTargetState {
    pub format: TextureFormat,
    pub alpha_blend: BlendState,
    pub color_blend: BlendState,
    pub write_mask: u32,
}

/// One color target of a render pipeline, as WebGPU describes it
/// (`web_sys::GpuColorStateDescriptor`).
#[derive(Clone, Copy, Debug, PartialEq, Eq, Structural)]
pub struct GpuColorStateDescriptor {
    pub format: GpuTextureFormat,
    pub alpha_blend: GpuBlendDescriptor,
    pub color_blend: GpuBlendDescriptor,
    pub write_mask: u32,
}

/// The WebGPU color state of a color target, if its format exists on the web.
pub open spec fn web_color_state(target: ColorTargetState) -> Option<GpuColorStateDescriptor> {
    match web_texture_format(target.format) {
        Some(format) => Some(
            GpuColorStateDescriptor {
                format,
                alpha_blend: web_blend(target.alpha_blend),
                color_blend: web_blend(target.color_blend),
                write_mask: target.write_mask,
            },
        ),
        None => None,
    }
}

/// Maps a color target to its WebGPU color state.
pub fn map_color_state(target: &ColorTargetState) -> (mapped: GpuColorStateDescriptor)
    requires
        web_texture_format(target.format) is Some,
    ensures
        web_color_state(*target) == Some(mapped),
{
    GpuColorStateDescriptor {
        format: map_texture_format(target.format),
        alpha_blend: map_blend_descriptor(&target.alpha_blend),
        color_blend: map_blend_descriptor(&target.color_blend),
        write_mask: target.write_mask,
    }
}

/// The stencil test and operations of one face, as wgpu describes them
/// (`wgpu_types::StencilFaceState`).
#[derive(Clone, Copy, Debug, PartialEq, Eq, Structural)]
pub struct StencilFaceState {
    pub compare: CompareFunction,
    pub fail_op: StencilOperation,
    pub depth_fail_op: StencilOperation,
    pub pass_op: StencilOperation,
}

/// The stencil test and operations of one face, as WebGPU describes them
/// (`web_sys::GpuStencilStateFaceDescriptor`).
#[derive(Clone, Copy, Debug, PartialEq, Eq, Structural)]
pub struct GpuStencilStateFaceDescriptor {
    pub compare: GpuCompareFunction,
    pub fail_op: GpuStencilOperation,
    pub depth_fail_op: GpuStencilOperation,
    pub pass_op: GpuStencilOperation,
}

/// The WebGPU descriptor of a stencil face: the comparison and each operation mapped.
pub open spec fn web_stencil_face(face: StencilFaceState) -> GpuStencilStateFaceDescriptor {
    GpuStencilStateFaceDescriptor {
        compare: web_compare_function(face.compare),
        fail_op: web_stencil_operation(face.fail_op),
        depth_fail_op: web_stencil_operation(face.depth_fail_op),
        pass_op: web_stencil_operation(face.pass_op),
    }
}

/// Maps a stencil face to its WebGPU descriptor.
pub fn map_stencil_state_face_descriptor(face: &StencilFaceState) -> (mapped:
    GpuStencilStateFaceDescriptor)
    ensures
        mapped == web_stencil_face(*face),
{
    GpuStencilStateFaceDescriptor {
        compare: map_compare_function(face.compare),
        depth_fail_op: map_stencil_operation(face.depth_fail_op),
        fail_op: map_stencil_operation(face.fail_op),
        pass_op: map_stencil_operation(face.pass_op),
    }
}

/// The stencil state of a pipeline, as wgpu describes it (`wgpu_types::StencilState`).
#[derive(Clone, Copy, Debug, PartialEq, Eq, Structural)]
pub struct StencilState {
    pub front: StencilFaceState,
    pub back: StencilFaceState,
    pub read_mask: u32,
    pub write_mask: u32,
}

/// The depth bias of a pipeline, as wgpu describes it (`wgpu_types::DepthBiasState`); the two
/// floating-point fields are held as the bits of their `f32` values.
#[derive(Clone, Copy, Debug, PartialEq, Eq, Structural)]
pub struct DepthBiasState {
    pub constant: i32,
    pub slope_scale_bits: u32,
    pub clamp_bits: u32,
}

/// The default depth bias: no bias at all (every field zero, and the `f32` whose bits are all zero
/// is `0.0`).
pub open spec fn no_depth_bias() -> DepthBiasState {
    DepthBiasState { constant: 0, slope_scale_bits: 0, clamp_bits: 0 }
}

/// The depth and stencil state of a pipeline, as wgpu describes it
/// (`wgpu_types::DepthStencilState`).
#[derive(Clone, Copy, Debug, PartialEq, Eq, Structural)]
pub struct DepthStencilState {
    pub format: TextureFormat,
    pub depth_write_enabled: bool,
    pub depth_compare: CompareFunction,
    pub stencil: StencilState,
    pub bias: DepthBiasState,
}

/// The depth and stencil state of a pipeline, as WebGPU describes it
/// (`web_sys::GpuDepthStencilStateDescriptor`).
#[derive(Clone, Copy, Debug, PartialEq, Eq, Structural)]
pub struct GpuDepthStencilStateDescriptor {
    pub format: GpuTextureFormat,
    pub depth_compare: GpuCompareFunction,
    pub depth_write_enabled: bool,
    pub stencil_front: GpuStencilStateFaceDescriptor,
    pub stencil_back: GpuStencilStateFaceDescriptor,
    pub stencil_read_mask: u32,
    pub stencil_write_mask: u32,
}

/// The WebGPU depth-stencil descriptor of a depth-stencil state, if its format exists on the web.
pub open spec fn web_depth_stencil(state: DepthStencilState) -> Option<
    GpuDepthStencilStateDescriptor,
> {
    match web_texture_format(state.format) {
        Some(format) => Some(
            GpuDepthStencilStateDescriptor {
                format,
                depth_compare: web_compare_function(state.depth_compare),
                depth_write_enabled: state.depth_write_enabled,
                stencil_front: web_stencil_face(state.stencil.front),
                stencil_back: web_stencil_face(state.stencil.back),
                stencil_read_mask: state.stencil.read_mask,
                stencil_write_mask: state.stencil.write_mask,
            },
        ),
        None => None,
    }
}

/// Maps a depth-stencil state to its WebGPU descriptor.
pub fn map_depth_stencil_state_descriptor(state: &DepthStencilState) -> (mapped:
    GpuDepthStencilStateDescriptor)
    requires
        web_texture_format(state.format) is Some,
    ensures
        web_depth_stencil(*state) == Some(mapped),
{
    GpuDepthStencilStateDescriptor {
        format: map_texture_format(state.format),
        depth_compare: map_compare_function(state.depth_compare),
        depth_write_enabled: state.depth_write_enabled,
        stencil_back: map_stencil_state_face_descriptor(&state.stencil.back),
        stencil_front: map_stencil_state_face_descriptor(&state.stencil.front),
        stencil_read_mask: state.stencil.read_mask,
        stencil_write_mask: state.stencil.write_mask,
    }
}

/// How primitives are assembled and rasterized, as wgpu describes it
/// (`wgpu_types::PrimitiveState`).
#[derive(Clone, Copy, Debug, PartialEq, Eq, Structural)]
pub struct PrimitiveState {
    pub topology: PrimitiveTopology,
    pub strip_index_format: Option<IndexFormat>,
    pub front_face: FrontFace,
    pub cull_mode: Option<Face>,
}

/// How primitives are rasterized, as WebGPU describes it
/// (`web_sys::GpuRasterizationStateDescriptor`); the two floating-point fields are held as the
/// bits of their `f32` values.
#[derive(Clone, Copy, Debug, PartialEq, Eq, Structural)]
pub struct GpuRasterizationStateDescriptor {
    pub front_face: GpuFrontFace,
    pub cull_mode: GpuCullMode,
    pub depth_bias: i32,
    pub depth_bias_clamp_bits: u32,
    pub depth_bias_slope_scale_bits: u32,
}

/// The depth bias that rasterization uses: the depth-stencil state's, or none without one.
pub open spec fn effective_depth_bias(depth_stencil: Option<DepthStencilState>) -> DepthBiasState {
    match depth_stencil {
        Some(ds) => ds.bias,
        None => no_depth_bias(),
    }
}

/// The WebGPU rasterization state of a primitive state and an optional depth-stencil state.
pub open spec fn web_rasterization(
    primitive: PrimitiveState,
    depth_stencil: Option<DepthStencilState>,
) -> GpuRasterizationStateDescriptor {
    let bias = effective_depth_bias(depth_stencil);
    GpuRasterizationStateDescriptor {
        front_face: web_front_face(primitive.front_face),
        cull_mode: web_cull_mode(primitive.cull_mode),
        depth_bias: bias.constant,
        depth_bias_clamp_bits: bias.clamp_bits,
        depth_bias_slope_scale_bits: bias.slope_scale_bits,
    }
}

/// Maps a primitive state and an optional depth-stencil state to the WebGPU rasterization state.
pub fn map_rasterization_state_descriptor(
    primitive: &PrimitiveState,
    depth_stencil: Option<&DepthStencilState>,
) -> (mapped: GpuRasterizationStateDescriptor)
    ensures
        mapped == web_rasterization(
            *primitive,
            match depth_stencil {
                Some(ds) => Some(*ds),
                None => None,
            },
        ),
{
    let bias = match depth_stencil {
        Some(ds) => ds.bias,
        None => DepthBiasState { constant: 0, slope_scale_bits: 0, clamp_bits: 0 },
    };
    GpuRasterizationStateDescriptor {
        front_face: map_front_face(primitive.front_face),
        cull_mode: map_cull_mode(primitive.cull_mode),
        depth_bias: bias.constant,
        depth_bias_clamp_bits: bias.clamp_bits,
        depth_bias_slope_scale_bits: bias.slope_scale_bits,
    }
}

/// Without a depth-stencil state, rasterization applies no depth bias.
pub proof fn rasterization_without_depth_stencil_has_no_bias(primitive: PrimitiveState)
    ensures
        web_rasterization(primitive, None).depth_bias == 0,
        web_rasterization(primitive, None).depth_bias_clamp_bits == 0,
        web_rasterization(primitive, None).depth_bias_slope_scale_bits == 0,
{
}

/// A blend state reaches WebGPU with the source factor weighing the source, the destination
/// factor weighing the destination, and the same operation; a color target keeps its alpha
/// blending for alpha and its color blending for color, and its write mask.
pub proof fn blend_roles_kept(blend: BlendState, target: ColorTargetState)
    ensures
        web_blend(blend).src_factor == web_blend_factor(blend.src_factor),
        web_blend(blend).dst_factor == web_blend_factor(blend.dst_factor),
        web_blend(blend).operation == web_blend_operation(blend.operation),
        web_color_state(target) matches Some(state) ==> state.alpha_blend == web_blend(
            target.alpha_blend,
        ) && state.color_blend == web_blend(target.color_blend) && state.write_mask
            == target.write_mask && Some(state.format) == web_texture_format(target.format),
        web_color_state(target) is Some <==> web_texture_format(target.format) is Some,
{
}

/// The stencil test of each face keeps its comparison and runs the same operation in each case:
/// when the stencil test fails, when it passes but the depth test fails, and when both pass. The
/// front face's test stays the front face's, the back face's the back face's, and the read and
/// write masks keep their roles; the depth test keeps its comparison and write flag.
pub proof fn depth_stencil_roles_kept(face: StencilFaceState, state: DepthStencilState)
    ensures
        web_stencil_face(face).compare == web_compare_function(face.compare),
        web_stencil_face(face).fail_op == web_stencil_operation(face.fail_op),
        web_stencil_face(face).depth_fail_op == web_stencil_operation(face.depth_fail_op),
        web_stencil_face(face).pass_op == web_stencil_operation(face.pass_op),
        web_depth_stencil(state) matches Some(mapped) ==> mapped.stencil_front == web_stencil_face(
            state.stencil.front,
        ) && mapped.stencil_back == web_stencil_face(state.stencil.back)
            && mapped.stencil_read_mask == state.stencil.read_mask && mapped.stencil_write_mask
            == state.stencil.write_mask && mapped.depth_compare == web_compare_function(
            state.depth_compare,
        ) && mapped.depth_write_enabled == state.depth_write_enabled && Some(mapped.format)
            == web_texture_format(state.format),
        web_depth_stencil(state) is Some <==> web_texture_format(state.format) is Some,
{
}

/// Rasterization keeps the front face and cull mode, and takes the depth bias of the depth-stencil
/// state, each member in its own role: the constant bias, the clamp and the slope scale.
pub proof fn rasterization_roles_kept(primitive: PrimitiveState, depth_stencil: DepthStencilState)
    ensures
        web_rasterization(primitive, Some(depth_stencil)).front_face == web_front_face(
            primitive.front_face,
        ),
        web_rasterization(primitive, Some(depth_stencil)).cull_mode == web_cull_mode(
            primitive.cull_mode,
        ),
        web_rasterization(primitive, Some(depth_stencil)).depth_bias == depth_stencil.bias.constant,
        web_rasterization(primitive, Some(depth_stencil)).depth_bias_clamp_bits
            == depth_stencil.bias.clamp_bits,
        web_rasterization(primitive, Some(depth_stencil)).depth_bias_slope_scale_bits
            == depth_stencil.bias.slope_scale_bits,
{
}

/// One attribute of a vertex buffer, as wgpu describes it (`wgpu_types::VertexAttribute`).
#[derive(Clone, Copy, Debug, PartialEq, Eq, Structural)]
pub struct VertexAttribute {
    pub format: VertexFormat,
    pub offset: u64,
    pub shader_location: u32,
}

/// One attribute of a vertex buffer, as WebGPU describes it
/// (`web_sys::GpuVertexAttributeDescriptor`).
#[derive(Clone, Copy, Debug, PartialEq, Eq, Structural)]
pub struct GpuVertexAttributeDescriptor {
    pub format: GpuVertexFormat,
    pub offset: u64,
    pub shader_location: u32,
}

/// The WebGPU descriptor of a vertex attribute, if its format exists on the web.
pub open spec fn web_vertex_attribute(attribute: VertexAttribute) -> Option<
    GpuVertexAttributeDescriptor,
> {
    match web_vertex_format(attribute.format) {
        Some(format) => Some(
            GpuVertexAttributeDescriptor {
                format,
                offset: attribute.offset,
                shader_location: attribute.shader_location,
            },
        ),
        None => None,
    }
}

/// A vertex attribute keeps its offset and shader location, each in its own role, and its format
/// becomes the WebGPU format of the same layout.
pub proof fn vertex_attribute_roles_kept(attribute: VertexAttribute)
    ensures
        web_vertex_attribute(attribute) matches Some(mapped) ==> mapped.offset == attribute.offset
            && mapped.shader_location == attribute.shader_location && Some(mapped.format)
            == web_vertex_format(attribute.format),
        web_vertex_attribute(attribute) is Some <==> web_vertex_format(attribute.format) is Some,
{
}

/// The layout of one vertex buffer, as wgpu describes it (`wgpu_types::VertexBufferLayout`).
#[derive(Debug)]
pub struct VertexBufferLayout {
    pub array_stride: u64,
    pub step_mode: InputStepMode,
    pub attributes: Vec<VertexAttribute>,
}

/// The layout of one vertex buffer, as WebGPU describes it
/// (`web_sys::GpuVertexBufferLayoutDescriptor`).
#[derive(Debug)]
pub struct GpuVertexBufferLayoutDescriptor {
    pub array_stride: u64,
    pub step_mode: GpuInputStepMode,
    pub attributes: Vec<GpuVertexAttributeDescriptor>,
}

/// The first attribute format, in order, that the web backend cannot express.
pub open spec fn first_unsupported_attribute(attributes: Seq<VertexAttribute>) -> Option<
    VertexFormat,
>
    decreases attributes.len(),
{
    if attributes.len() == 0 {
        None
    } else if web_vertex_format(attributes[0].format) is None {
        Some(attributes[0].format)
    } else {
        first_unsupported_attribute(attributes.drop_first())
    }
}

/// The first attribute format, buffer by buffer and in order, that the web backend cannot
/// express.
pub open spec fn first_unsupported_vertex_format(buffers: Seq<VertexBufferLayout>) -> Option<
    VertexFormat,
>
    decreases buffers.len(),
{
    if buffers.len() == 0 {
        None
    } else {
        match first_unsupported_attribute(buffers[0].attributes@) {
            Some(format) => Some(format),
            None => first_unsupported_vertex_format(buffers.drop_first()),
        }
    }
}

/// Whether `mapped` is the WebGPU form of the vertex buffer layout `buffer`: the stride kept,
/// the step mode mapped, and each attribute mapped in order.
pub open spec fn vertex_buffer_mapped(
    buffer: VertexBufferLayout,
    mapped: GpuVertexBufferLayoutDescriptor,
) -> bool {
    &&& mapped.array_stride == buffer.array_stride
    &&& mapped.step_mode == web_input_step_mode(buffer.step_mode)
    &&& mapped.attributes@.len() == buffer.attributes@.len()
    &&& forall|i: int|
        0 <= i < buffer.attributes@.len() ==> web_vertex_attribute(buffer.attributes@[i]) == Some(
            #[trigger] mapped.attributes@[i],
        )
}

/// With no unsupported format among `attributes`, every one of them is supported.
pub proof fn lemma_attributes_supported(attributes: Seq<VertexAttribute>)
    requires
        first_unsupported_attribute(attributes) is None,
    ensures
        forall|i: int|
            0 <= i < attributes.len() ==> web_vertex_format(#[trigger] attributes[i].format) is Some,
    decreases attributes.len(),
{
    if attributes.len() > 0 {
        lemma_attributes_supported(attributes.drop_first());
        assert forall|i: int| 0 <= i < attributes.len() implies web_vertex_format(
            #[trigger] attributes[i].format,
        ) is Some by {
            if i > 0 {
                assert(attributes[i] == attributes.drop_first()[i - 1]);
            }
        }
    }
}

/// With no unsupported format among the buffers, each buffer has none either.
pub proof fn lemma_buffers_supported(buffers: Seq<VertexBufferLayout>)
    requires
        first_unsupported_vertex_format(buffers) is None,
    ensures
        forall|i: int|
            0 <= i < buffers.len() ==> first_unsupported_attribute(
                #[trigger] buffers[i].attributes@,
            ) is None,
    decreases buffers.len(),
{
    if buffers.len() > 0 {
        lemma_buffers_supported(buffers.drop_first());
        assert forall|i: int| 0 <= i < buffers.len() implies first_unsupported_attribute(
            #[trigger] buffers[i].attributes@,
        ) is None by {
            if i > 0 {
                assert(buffers[i] == buffers.drop_first()[i - 1]);
            }
        }
    }
}

/// Finds the first attribute format of `attributes` that the web backend cannot express.
pub fn find_unsupported_attribute(attributes: &Vec<VertexAttribute>) -> (found: Option<VertexFormat>)
    ensures
        found == first_unsupported_attribute(attributes@),
{
    let mut i: usize = 0;
    assert(attributes@.skip(0) =~= attributes@);
    while i < attributes.len()
        invariant
            i <= attributes@.len(),
            first_unsupported_attribute(attributes@) == first_unsupported_attribute(
                attributes@.skip(i as int),
            ),
        decreases attributes@.len() - i,
    {
        assert(attributes@.skip(i as int).drop_first() =~= attributes@.skip(i + 1));
        if !vertex_format_supported(attributes[i].format) {
            return Some(attributes[i].format);
        }
        i = i + 1;
    }
    None
}

/// Finds the first attribute format, buffer by buffer, that the web backend cannot express.
pub fn find_unsupported_vertex_format(buffers: &Vec<VertexBufferLayout>) -> (found: Option<
    VertexFormat,
>)
    ensures
        found == first_unsupported_vertex_format(buffers@),
{
    let mut i: usize = 0;
    assert(buffers@.skip(0) =~= buffers@);
    while i < buffers.len()
        invariant
            i <= buffers@.len(),
            first_unsupported_vertex_format(buffers@) == first_unsupported_vertex_format(
                buffers@.skip(i as int),
            ),
        decreases buffers@.len() - i,
    {
        assert(buffers@.skip(i as int).drop_first() =~= buffers@.skip(i + 1));
        let found = find_unsupported_attribute(&buffers[i].attributes);
        if found.is_some() {
            return found;
        }
        i = i + 1;
    }
    None
}

/// Maps a vertex buffer layout to its WebGPU descriptor.
pub fn map_vertex_buffer_layout(buffer: &VertexBufferLayout) -> (mapped:
    GpuVertexBufferLayoutDescriptor)
    requires
        first_unsupported_attribute(buffer.attributes@) is None,
    ensures
        vertex_buffer_mapped(*buffer, mapped),
{
    proof {
        lemma_attributes_supported(buffer.attributes@);
    }
    let mut attributes: Vec<GpuVertexAttributeDescriptor> = Vec::new();
    let mut i: usize = 0;
    while i < buffer.attributes.len()
        invariant
            i <= buffer.attributes@.len(),
            attributes@.len() == i,
            forall|j: int|
                0 <= j < buffer.attributes@.len() ==> web_vertex_format(
                    #[trigger] buffer.attributes@[j].format,
                ) is Some,
            forall|j: int|
                0 <= j < i ==> web_vertex_attribute(buffer.attributes@[j]) == Some(
                    #[trigger] attributes@[j],
                ),
        decreases buffer.attributes@.len() - i,
    {
        let attribute = buffer.attributes[i];
        assert(web_vertex_format(buffer.attributes@[i as int].format) is Some);
        attributes.push(
            GpuVertexAttributeDescriptor {
                format: map_vertex_format(attribute.format),
                offset: attribute.offset,
                shader_location: attribute.shader_location,
            },
        );
        i = i + 1;
    }
    GpuVertexBufferLayoutDescriptor {
        array_stride: buffer.array_stride,
        step_mode: map_input_step_mode(buffer.step_mode),
        attributes,
    }
}

/// The vertex input of a render pipeline, as WebGPU describes it
/// (`web_sys::GpuVertexStateDescriptor`).
#[derive(Debug)]
pub struct GpuVertexStateDescriptor {
    pub index_format: GpuIndexFormat,
    pub vertex_buffers: Vec<GpuVertexBufferLayoutDescriptor>,
}

/// The WebGPU index format of a strip index format; without one, 16-bit indices.
pub open spec fn web_index_format_or_default(strip_index_format: Option<IndexFormat>) -> GpuIndexFormat {
    match strip_index_format {
        Some(format) => web_index_format(format),
        None => GpuIndexFormat::Uint16,
    }
}

/// Whether `mapped` is the WebGPU vertex state of the buffers `buffers` and the strip index format
/// `strip_index_format`: the index format mapped (16-bit without one), and each buffer mapped in
/// order.
pub open spec fn vertex_state_mapped(
    buffers: Seq<VertexBufferLayout>,
    strip_index_format: Option<IndexFormat>,
    mapped: GpuVertexStateDescriptor,
) -> bool {
    &&& mapped.index_format == web_index_format_or_default(strip_index_format)
    &&& mapped.vertex_buffers@.len() == buffers.len()
    &&& forall|i: int|
        0 <= i < buffers.len() ==> vertex_buffer_mapped(
            buffers[i],
            #[trigger] mapped.vertex_buffers@[i],
        )
}

/// Maps the vertex buffers and strip index format of a render pipeline to the WebGPU vertex
/// state.
pub fn map_vertex_state(buffers: &Vec<VertexBufferLayout>, strip_index_format: Option<IndexFormat>) -> (mapped:
    GpuVertexStateDescriptor)
    requires
        first_unsupported_vertex_format(buffers@) is None,
    ensures
        vertex_state_mapped(buffers@, strip_index_format, mapped),
{
    proof {
        lemma_buffers_supported(buffers@);
    }
    let mut vertex_buffers: Vec<GpuVertexBufferLayoutDescriptor> = Vec::new();
    let mut i: usize = 0;
    while i < buffers.len()
        invariant
            i <= buffers@.len(),
            vertex_buffers@.len() == i,
            forall|j: int|
                0 <= j < buffers@.len() ==> first_unsupported_attribute(
                    #[trigger] buffers@[j].attributes@,
                ) is None,
            forall|j: int|
                0 <= j < i ==> vertex_buffer_mapped(buffers@[j], #[trigger] vertex_buffers@[j]),
        decreases buffers@.len() - i,
    {
        assert(first_unsupported_attribute(buffers@[i as int].attributes@) is None);
        let mapped_buffer = map_vertex_buffer_layout(&buffers[i]);
        vertex_buffers.push(mapped_buffer);
        i = i + 1;
    }
    let index_format = match strip_index_format {
        Some(format) => map_index_format(format),
        None => GpuIndexFormat::Uint16,
    };
    GpuVertexStateDescriptor { index_format, vertex_buffers }
}

/// Without a strip index format, the vertex state uses 16-bit indices.
pub proof fn vertex_state_index_format_default(
    buffers: Seq<VertexBufferLayout>,
    mapped: GpuVertexStateDescriptor,
)
    requires
        vertex_state_mapped(buffers, None, mapped),
    ensures
        mapped.index_format == GpuIndexFormat::Uint16,
{
}

/// The first color target, in order, whose format the web backend cannot express.
pub open spec fn first_unsupported_target(targets: Seq<ColorTargetState>) -> Option<TextureFormat>
    decreases targets.len(),
{
    if targets.len() == 0 {
        None
    } else if web_texture_format(targets[0].format) is None {
        Some(targets[0].format)
    } else {
        first_unsupported_target(targets.drop_first())
    }
}

/// With no unsupported format among `targets`, every one of them is supported.
pub proof fn lemma_targets_supported(targets: Seq<ColorTargetState>)
    requires
        first_unsupported_target(targets) is None,
    ensures
        forall|i: int|
            0 <= i < targets.len() ==> web_texture_format(#[trigger] targets[i].format) is Some,
    decreases targets.len(),
{
    if targets.len() > 0 {
        lemma_targets_supported(targets.drop_first());
        assert forall|i: int| 0 <= i < targets.len() implies web_texture_format(
            #[trigger] targets[i].format,
        ) is Some by {
            if i > 0 {
                assert(targets[i] == targets.drop_first()[i - 1]);
            }
        }
    }
}

/// Finds the first color target whose format the web backend cannot express.
pub fn find_unsupported_target(targets: &Vec<ColorTargetState>) -> (found: Option<TextureFormat>)
    ensures
        found == first_unsupported_target(targets@),
{
    let mut i: usize = 0;
    assert(targets@.skip(0) =~= targets@);
    while i < targets.len()
        invariant
            i <= targets@.len(),
            first_unsupported_target(targets@) == first_unsupported_target(targets@.skip(i as int)),
        decreases targets@.len() - i,
    {
        assert(targets@.skip(i as int).drop_first() =~= targets@.skip(i + 1));
        if !texture_format_supported(targets[i].format) {
            return Some(targets[i].format);
        }
        i = i + 1;
    }
    None
}

/// The vertex stage of a render pipeline, as wgpu describes it (`wgpu::VertexState`), with the
/// shader module handle of type `S`.
#[derive(Debug)]
pub struct VertexState<'a, S> {
    pub module: S,
    pub entry_point: &'a str,
    pub buffers: Vec<VertexBufferLayout>,
}

/// The fragment stage of a render pipeline, as wgpu describes it (`wgpu::FragmentState`), with the
/// shader module handle of type `S`.
#[derive(Debug)]
pub struct FragmentState<'a, S> {
    pub module: S,
    pub entry_point: &'a str,
    pub targets: Vec<ColorTargetState>,
}

/// How a render pipeline samples, as wgpu describes it (`wgpu_types::MultisampleState`).
#[derive(Clone, Copy, Debug, PartialEq, Eq, Structural)]
pub struct MultisampleState {
    pub count: u32,
    pub mask: u64,
    pub alpha_to_coverage_enabled: bool,
}

/// A render pipeline, as wgpu describes it (`wgpu::RenderPipelineDescriptor`), with shader module
/// handles of type `S` and a pipeline layout handle of type `L`.
#[derive(Debug)]
pub struct RenderPipelineDescriptor<'a, S, L> {
    pub label: Option<&'a str>,
    pub layout: Option<L>,
    pub vertex: VertexState<'a, S>,
    pub primitive: PrimitiveState,
    pub depth_stencil: Option<DepthStencilState>,
    pub multisample: MultisampleState,
    pub fragment: Option<FragmentState<'a, S>>,
}

/// One programmable stage of a pipeline, as WebGPU describes it
/// (`web_sys::GpuProgrammableStageDescriptor`): a shader module and its entry point.
#[derive(Clone, Copy, Debug)]
pub struct GpuProgrammableStageDescriptor<'a, S> {
    pub module: S,
    pub entry_point: &'a str,
}

/// A render pipeline, as WebGPU describes it (`web_sys::GpuRenderPipelineDescriptor`).
#[derive(Debug)]
pub struct GpuRenderPipelineDescriptor<'a, S, L> {
    pub color_states: Vec<GpuColorStateDescriptor>,
    pub primitive_topology: GpuPrimitiveTopology,
    pub vertex_stage: GpuProgrammableStageDescriptor<'a, S>,
    pub layout: Option<L>,
    pub fragment_stage: Option<GpuProgrammableStageDescriptor<'a, S>>,
    pub rasterization_state: GpuRasterizationStateDescriptor,
    pub depth_stencil_state: Option<GpuDepthStencilStateDescriptor>,
    pub vertex_state: GpuVertexStateDescriptor,
    pub sample_count: u32,
    pub sample_mask: u32,
    pub alpha_to_coverage_enabled: bool,
}

/// The color targets of a render pipeline: its fragment stage's, or none without one.
pub open spec fn pipeline_targets<S, L>(desc: RenderPipelineDescriptor<S, L>) -> Seq<
    ColorTargetState,
> {
    match desc.fragment {
        Some(fragment) => fragment.targets@,
        None => Seq::empty(),
    }
}

/// The first thing in a render pipeline that the web backend cannot express, in the order the
/// pipeline is translated: the color target formats, then the depth-stencil format, then the
/// vertex attribute formats.
pub open spec fn first_unsupported_in_render_pipeline<S, L>(
    desc: RenderPipelineDescriptor<S, L>,
) -> Option<Unsupported> {
    match first_unsupported_target(pipeline_targets(desc)) {
        Some(format) => Some(Unsupported::TextureFormat(format)),
        None => match desc.depth_stencil {
            Some(ds) if web_texture_format(ds.format) is None => Some(
                Unsupported::TextureFormat(ds.format),
            ),
            _ => match first_unsupported_vertex_format(desc.vertex.buffers@) {
                Some(format) => Some(Unsupported::VertexFormat(format)),
                None => None,
            },
        },
    }
}

/// The sample mask that WebGPU receives: the low 32 bits of wgpu's 64-bit mask.
pub open spec fn web_sample_mask(mask: u64) -> u32 {
    (mask % 0x1_0000_0000) as u32
}

/// The WebGPU form of a programmable stage.
pub open spec fn web_stage<'a, S>(module: S, entry_point: &'a str) -> GpuProgrammableStageDescriptor<
    'a,
    S,
> {
    GpuProgrammableStageDescriptor { module, entry_point }
}

/// Whether `mapped` is the WebGPU form of the render pipeline `desc`: every color target mapped
/// in order, the topology mapped, the stages and layout kept, the rasterization, depth-stencil and
/// vertex states mapped, the sample count and coverage flag kept, and the sample mask cut to 32
/// bits.
pub open spec fn render_pipeline_mapped<'a, S, L>(
    desc: RenderPipelineDescriptor<'a, S, L>,
    mapped: GpuRenderPipelineDescriptor<'a, S, L>,
) -> bool {
    let targets = pipeline_targets(desc);
    &&& mapped.color_states@.len() == targets.len()
    &&& forall|i: int|
        0 <= i < targets.len() ==> web_color_state(targets[i]) == Some(
            #[trigger] mapped.color_states@[i],
        )
    &&& mapped.primitive_topology == web_primitive_topology(desc.primitive.topology)
    &&& mapped.vertex_stage == web_stage(desc.vertex.module, desc.vertex.entry_point)
    &&& mapped.layout == desc.layout
    &&& mapped.fragment_stage == match desc.fragment {
        Some(fragment) => Some(web_stage(fragment.module, fragment.entry_point)),
        None => None,
    }
    &&& mapped.rasterization_state == web_rasterization(desc.primitive, desc.depth_stencil)
    &&& mapped.depth_stencil_state == match desc.depth_stencil {
        Some(ds) => web_depth_stencil(ds),
        None => None,
    }
    &&& vertex_state_mapped(
        desc.vertex.buffers@,
        desc.primitive.strip_index_format,
        mapped.vertex_state,
    )
    &&& mapped.sample_count == desc.multisample.count
    &&& mapped.sample_mask == web_sample_mask(desc.multisample.mask)
    &&& mapped.alpha_to_coverage_enabled == desc.multisample.alpha_to_coverage_enabled
}

/// WebGPU's sample mask keeps exactly the low 32 bits of wgpu's: sample `i` is enabled on the web
/// exactly when bit `i` of wgpu's mask is set, for every one of the 32 samples WebGPU can address.
pub proof fn sample_mask_keeps_low_bits(mask: u64)
    ensures
        web_sample_mask(mask) as u64 == mask & 0xffff_ffff,
{
    let mapped = web_sample_mask(mask);
    assert(mapped as u64 == mask & 0xffff_ffff) by (bit_vector)
        requires
            mapped == (mask % 0x1_0000_0000) as u32,
    ;
}

/// A mapped vertex state reads indices of the strip index format (16-bit ones without one) and
/// every vertex buffer with its own stride, step mode and attributes, in order.
pub proof fn vertex_state_roles_kept(
    buffers: Seq<VertexBufferLayout>,
    strip_index_format: Option<IndexFormat>,
    mapped: GpuVertexStateDescriptor,
    i: int,
    j: int,
)
    requires
        vertex_state_mapped(buffers, strip_index_format, mapped),
        0 <= i < buffers.len(),
        0 <= j < buffers[i].attributes@.len(),
    ensures
        strip_index_format matches Some(f) ==> mapped.index_format == web_index_format(f),
        strip_index_format is None ==> mapped.index_format == GpuIndexFormat::Uint16,
        mapped.vertex_buffers@.len() == buffers.len(),
        mapped.vertex_buffers@[i].array_stride == buffers[i].array_stride,
        mapped.vertex_buffers@[i].step_mode == web_input_step_mode(buffers[i].step_mode),
        mapped.vertex_buffers@[i].attributes@.len() == buffers[i].attributes@.len(),
        mapped.vertex_buffers@[i].attributes@[j].offset == buffers[i].attributes@[j].offset,
        mapped.vertex_buffers@[i].attributes@[j].shader_location
            == buffers[i].attributes@[j].shader_location,
        Some(mapped.vertex_buffers@[i].attributes@[j].format) == web_vertex_format(
            buffers[i].attributes@[j].format,
        ),
{
    assert(vertex_buffer_mapped(buffers[i], mapped.vertex_buffers@[i]));
    assert(web_vertex_attribute(buffers[i].attributes@[j]) == Some(
        mapped.vertex_buffers@[i].attributes@[j],
    ));
}

/// A mapped render pipeline draws what wgpu's describes: the same primitive topology, the same
/// shader stages and layout, each color target in order, the rasterization and depth-stencil
/// state of the pipeline, the same sample count and coverage flag, and the low 32 bits of the
/// sample mask.
pub proof fn render_pipeline_roles_kept<'a, S, L>(
    desc: RenderPipelineDescriptor<'a, S, L>,
    mapped: GpuRenderPipelineDescriptor<'a, S, L>,
    i: int,
)
    requires
        render_pipeline_mapped(desc, mapped),
        0 <= i < pipeline_targets(desc).len(),
    ensures
        mapped.primitive_topology == web_primitive_topology(desc.primitive.topology),
        mapped.vertex_stage.module == desc.vertex.module,
        mapped.vertex_stage.entry_point == desc.vertex.entry_point,
        desc.fragment matches Some(fragment) ==> mapped.fragment_stage matches Some(stage)
            && stage.module == fragment.module && stage.entry_point == fragment.entry_point,
        desc.fragment is None ==> mapped.fragment_stage is None,
        mapped.layout == desc.layout,
        mapped.color_states@.len() == pipeline_targets(desc).len(),
        web_color_state(pipeline_targets(desc)[i]) == Some(mapped.color_states@[i]),
        mapped.rasterization_state == web_rasterization(desc.primitive, desc.depth_stencil),
        desc.depth_stencil matches Some(ds) ==> mapped.depth_stencil_state == web_depth_stencil(ds),
        desc.depth_stencil is None ==> mapped.depth_stencil_state is None,
        mapped.sample_count == desc.multisample.count,
        mapped.sample_mask as u64 == desc.multisample.mask & 0xffff_ffff,
        mapped.alpha_to_coverage_enabled == desc.multisample.alpha_to_coverage_enabled,
{
    sample_mask_keeps_low_bits(desc.multisample.mask);
}

/// Checks whether the web backend can express a render pipeline, naming the first thing it
/// cannot.
pub fn check_render_pipeline<'a, S, L>(desc: &RenderPipelineDescriptor<'a, S, L>) -> (checked:
    Result<(), Unsupported>)
    ensures
        checked == match first_unsupported_in_render_pipeline(*desc) {
            Some(reason) => Err(reason),
            None => Ok::<(), Unsupported>(()),
        },
{
    let target_format = match &desc.fragment {
        Some(fragment) => find_unsupported_target(&fragment.targets),
        None => None,
    };
    if let Some(format) = target_format {
        return Err(Unsupported::TextureFormat(format));
    }
    if let Some(ds) = &desc.depth_stencil {
        if !texture_format_supported(ds.format) {
            return Err(Unsupported::TextureFormat(ds.format));
        }
    }
    match find_unsupported_vertex_format(&desc.vertex.buffers) {
        Some(format) => Err(Unsupported::VertexFormat(format)),
        None => Ok(()),
    }
}

/// Maps the color targets of a render pipeline to WebGPU color states.
fn map_color_states(targets: &Vec<ColorTargetState>) -> (mapped: Vec<GpuColorStateDescriptor>)
    requires
        first_unsupported_target(targets@) is None,
    ensures
        mapped@.len() == targets@.len(),
        forall|i: int|
            0 <= i < targets@.len() ==> web_color_state(targets@[i]) == Some(
                #[trigger] mapped@[i],
            ),
{
    proof {
        lemma_targets_supported(targets@);
    }
    let mut mapped: Vec<GpuColorStateDescriptor> = Vec::new();
    let mut i: usize = 0;
    while i < targets.len()
        invariant
            i <= targets@.len(),
            mapped@.len() == i,
            forall|j: int|
                0 <= j < targets@.len() ==> web_texture_format(#[trigger] targets@[j].format) is Some,
            forall|j: int|
                0 <= j < i ==> web_color_state(targets@[j]) == Some(#[trigger] mapped@[j]),
        decreases targets@.len() - i,
    {
        assert(web_texture_format(targets@[i as int].format) is Some);
        let state = map_color_state(&targets[i]);
        mapped.push(state);
        i = i + 1;
    }
    mapped
}

/// Cuts wgpu's 64-bit sample mask to the 32 bits that WebGPU takes.
pub fn map_sample_mask(mask: u64) -> (mapped: u32)
    ensures
        mapped == web_sample_mask(mask),
{
    let low = mask & 0xffff_ffff;
    assert(low == mask % 0x1_0000_0000) by (bit_vector)
        requires
            low == mask & 0xffff_ffff,
    ;
    low as u32
}

/// Maps a render pipeline to its WebGPU descriptor.
pub fn map_render_pipeline_descriptor<'a, S: Copy, L: Copy>(
    desc: &RenderPipelineDescriptor<'a, S, L>,
) -> (mapped: GpuRenderPipelineDescriptor<'a, S, L>)
    requires
        first_unsupported_in_render_pipeline(*desc) is None,
    ensures
        render_pipeline_mapped(*desc, mapped),
{
    let color_states = match &desc.fragment {
        Some(fragment) => map_color_states(&fragment.targets),
        None => Vec::new(),
    };
    let primitive_topology = map_primitive_topology(desc.primitive.topology);
    let vertex_stage = GpuProgrammableStageDescriptor {
        module: desc.vertex.module,
        entry_point: desc.vertex.entry_point,
    };
    let fragment_stage = match &desc.fragment {
        Some(fragment) => Some(
            GpuProgrammableStageDescriptor {
                module: fragment.module,
                entry_point: fragment.entry_point,
            },
        ),
        None => None,
    };
    let rasterization_state = map_rasterization_state_descriptor(
        &desc.primitive,
        desc.depth_stencil.as_ref(),
    );
    let depth_stencil_state = match &desc.depth_stencil {
        Some(ds) => Some(map_depth_stencil_state_descriptor(ds)),
        None => None,
    };
    let vertex_state = map_vertex_state(&desc.vertex.buffers, desc.primitive.strip_index_format);
    GpuRenderPipelineDescriptor {
        color_states,
        primitive_topology,
        vertex_stage,
        layout: desc.layout,
        fragment_stage,
        rasterization_state,
        depth_stencil_state,
        vertex_state,
        sample_count: desc.multisample.count,
        sample_mask: map_sample_mask(desc.multisample.mask),
        alpha_to_coverage_enabled: desc.multisample.alpha_to_coverage_enabled,
    }
}

/// A compute pipeline, as wgpu describes it (`wgpu::ComputePipelineDescriptor`), with a shader
/// module handle of type `S` and a pipeline layout handle of type `L`.
#[derive(Clone, Copy, Debug)]
pub struct ComputePipelineDescriptor<'a, S, L> {
    pub label: Option<&'a str>,
    pub layout: Option<L>,
    pub module: S,
    pub entry_point: &'a str,
}

/// A compute pipeline, as WebGPU describes it (`web_sys::GpuComputePipelineDescriptor`).
#[derive(Clone, Copy, Debug)]
pub struct GpuComputePipelineDescriptor<'a, S, L> {
    pub compute_stage: GpuProgrammableStageDescriptor<'a, S>,
    pub layout: Option<L>,
    pub label: Option<&'a str>,
}

/// Maps a compute pipeline to its WebGPU descriptor: the stage, layout and label kept.
pub fn map_compute_pipeline_descriptor<'a, S: Copy, L: Copy>(
    desc: &ComputePipelineDescriptor<'a, S, L>,
) -> (mapped: GpuComputePipelineDescriptor<'a, S, L>)
    ensures
        mapped.compute_stage == web_stage(desc.module, desc.entry_point),
        mapped.layout == desc.layout,
        mapped.label == desc.label,
{
    GpuComputePipelineDescriptor {
        compute_stage: GpuProgrammableStageDescriptor {
            module: desc.module,
            entry_point: desc.entry_point,
        },
        layout: desc.layout,
        label: desc.label,
    }
}

/// A pipeline layout, as wgpu describes it (`wgpu::PipelineLayoutDescriptor`), with bind group
/// layout handles of type `G`; push constant ranges play no part on the web.
#[derive(Debug)]
pub struct PipelineLayoutDescriptor<'a, G> {
    pub label: Option<&'a str>,
    pub bind_group_layouts: Vec<G>,
}

/// A pipeline layout, as WebGPU describes it (`web_sys::GpuPipelineLayoutDescriptor`).
#[derive(Debug)]
pub struct GpuPipelineLayoutDescriptor<'a, G> {
    pub bind_group_layouts: Vec<G>,
    pub label: Option<&'a str>,
}

/// Maps a pipeline layout to its WebGPU descriptor: the bind group layouts kept in order, and the
/// label.
pub fn map_pipeline_layout_descriptor<'a, G: Copy>(desc: &PipelineLayoutDescriptor<'a, G>) -> (mapped:
    GpuPipelineLayoutDescriptor<'a, G>)
    ensures
        mapped.bind_group_layouts@ == desc.bind_group_layouts@,
        mapped.label == desc.label,
{
    let mut layouts: Vec<G> = Vec::new();
    let mut i: usize = 0;
    while i < desc.bind_group_layouts.len()
        invariant
            i <= desc.bind_group_layouts@.len(),
            layouts@ == desc.bind_group_layouts@.take(i as int),
        decreases desc.bind_group_layouts@.len() - i,
    {
        layouts.push(desc.bind_group_layouts[i]);
        assert(desc.bind_group_layouts@.take(i + 1) =~= desc.bind_group_layouts@.take(
            i as int,
        ).push(desc.bind_group_layouts@[i as int]));
        i = i + 1;
    }
    assert(desc.bind_group_layouts@.take(i as int) =~= desc.bind_group_layouts@);
    GpuPipelineLayoutDescriptor { bind_group_layouts: layouts, label: desc.label }
}

} // verus!
