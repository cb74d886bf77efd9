use wgpu_web::format::{GpuTextureFormat, GpuVertexFormat, TextureFormat, VertexFormat};
use wgpu_web::pipeline::{
    check_render_pipeline, map_blend_descriptor, map_compute_pipeline_descriptor,
    map_depth_stencil_state_descriptor, map_pipeline_layout_descriptor,
    map_rasterization_state_descriptor, map_render_pipeline_descriptor, map_sample_mask,
    map_stencil_state_face_descriptor, map_vertex_state, BlendState, ColorTargetState,
    ComputePipelineDescriptor, DepthBiasState, DepthStencilState, FragmentState,
    MultisampleState, PipelineLayoutDescriptor, PrimitiveState, RenderPipelineDescriptor,
    StencilFaceState, StencilState, VertexAttribute, VertexBufferLayout, VertexState,
};
use wgpu_web::state::{
    BlendFactor, BlendOperation, CompareFunction, Face, FrontFace, GpuBlendFactor,
    GpuBlendOperation, GpuCompareFunction, GpuCullMode, GpuFrontFace, GpuIndexFormat,
    GpuInputStepMode, GpuPrimitiveTopology, GpuStencilOperation, IndexFormat, InputStepMode,
    PrimitiveTopology, StencilOperation,
};
use wgpu_web::support::Unsupported;

fn replace() -> BlendState {
    BlendState {
        src_factor: BlendFactor::One,
        dst_factor: BlendFactor::Zero,
        operation: BlendOperation::Add,
    }
}

fn alpha_blending() -> BlendState {
    BlendState {
        src_factor: BlendFactor::SrcAlpha,
        dst_factor: BlendFactor::OneMinusSrcAlpha,
        operation: BlendOperation::Add,
    }
}

fn target(format: TextureFormat) -> ColorTargetState {
    ColorTargetState { format, alpha_blend: replace(), color_blend: alpha_blending(), write_mask: 15 }
}

fn ignore_face() -> StencilFaceState {
    StencilFaceState {
        compare: CompareFunction::Always,
        fail_op: StencilOperation::Keep,
        depth_fail_op: StencilOperation::Keep,
        pass_op: StencilOperation::Keep,
    }
}

fn depth_state(format: TextureFormat) -> DepthStencilState {
    DepthStencilState {
        format,
        depth_write_enabled: true,
        depth_compare: CompareFunction::Less,
        stencil: StencilState {
            front: ignore_face(),
            back: StencilFaceState {
                compare: CompareFunction::Equal,
                fail_op: StencilOperation::Zero,
                depth_fail_op: StencilOperation::Invert,
                pass_op: StencilOperation::IncrementClamp,
            },
            read_mask: 0xff,
            write_mask: 0x0f,
        },
        bias: DepthBiasState { constant: 2, slope_scale_bits: 1.5f32.to_bits(), clamp_bits: 0.25f32.to_bits() },
    }
}

fn attribute(format: VertexFormat, offset: u64, shader_location: u32) -> VertexAttribute {
    VertexAttribute { format, offset, shader_location }
}

fn buffers() -> Vec<VertexBufferLayout> {
    vec![
        VertexBufferLayout {
            array_stride: 20,
            step_mode: InputStepMode::Vertex,
            attributes: vec![attribute(VertexFormat::Float3, 0, 0), attribute(VertexFormat::Float2, 12, 1)],
        },
        VertexBufferLayout {
            array_stride: 4,
            step_mode: InputStepMode::Instance,
            attributes: vec![attribute(VertexFormat::Uchar4Norm, 0, 2)],
        },
    ]
}

fn primitive() -> PrimitiveState {
    PrimitiveState {
        topology: PrimitiveTopology::TriangleStrip,
        strip_index_format: Some(IndexFormat::Uint32),
        front_face: FrontFace::Cw,
        cull_mode: Some(Face::Back),
    }
}

fn pipeline(
    targets: Vec<ColorTargetState>,
    depth_stencil: Option<DepthStencilState>,
    buffers: Vec<VertexBufferLayout>,
) -> RenderPipelineDescriptor<'static, u32, u32> {
    RenderPipelineDescriptor {
        label: Some("pipeline"),
        layout: Some(9),
        vertex: VertexState { module: 1, entry_point: "vs_main", buffers },
        primitive: primitive(),
        depth_stencil,
        multisample: MultisampleState { count: 4, mask: u64::MAX, alpha_to_coverage_enabled: true },
        fragment: Some(FragmentState { module: 2, entry_point: "fs_main", targets }),
    }
}

#[test]
fn blend_states_map_factor_by_factor() {
    let mapped = map_blend_descriptor(&alpha_blending());
    assert_eq!(mapped.src_factor, GpuBlendFactor::SrcAlpha);
    assert_eq!(mapped.dst_factor, GpuBlendFactor::OneMinusSrcAlpha);
    assert_eq!(mapped.operation, GpuBlendOperation::Add);
}

#[test]
fn stencil_faces_map_operation_by_operation() {
    let mapped = map_stencil_state_face_descriptor(&depth_state(TextureFormat::Depth32Float).stencil.back);
    assert_eq!(mapped.compare, GpuCompareFunction::Equal);
    assert_eq!(mapped.fail_op, GpuStencilOperation::Zero);
    assert_eq!(mapped.depth_fail_op, GpuStencilOperation::Invert);
    assert_eq!(mapped.pass_op, GpuStencilOperation::IncrementClamp);
}

#[test]
fn depth_stencil_state_keeps_masks_and_faces() {
    let state = depth_state(TextureFormat::Depth24PlusStencil8);
    let mapped = map_depth_stencil_state_descriptor(&state);
    assert_eq!(mapped.format, GpuTextureFormat::Depth24plusStencil8);
    assert_eq!(mapped.depth_compare, GpuCompareFunction::Less);
    assert!(mapped.depth_write_enabled);
    assert_eq!(mapped.stencil_front.compare, GpuCompareFunction::Always);
    assert_eq!(mapped.stencil_back.pass_op, GpuStencilOperation::IncrementClamp);
    assert_eq!(mapped.stencil_read_mask, 0xff);
    assert_eq!(mapped.stencil_write_mask, 0x0f);
}

#[test]
fn rasterization_takes_the_depth_bias_of_the_depth_stencil_state() {
    let state = depth_state(TextureFormat::Depth32Float);
    let mapped = map_rasterization_state_descriptor(&primitive(), Some(&state));
    assert_eq!(mapped.front_face, GpuFrontFace::Cw);
    assert_eq!(mapped.cull_mode, GpuCullMode::Back);
    assert_eq!(mapped.depth_bias, 2);
    assert_eq!(f32::from_bits(mapped.depth_bias_slope_scale_bits), 1.5);
    assert_eq!(f32::from_bits(mapped.depth_bias_clamp_bits), 0.25);
}

#[test]
fn rasterization_without_depth_stencil_has_no_bias() {
    let mapped = map_rasterization_state_descriptor(&primitive(), None);
    assert_eq!(mapped.depth_bias, 0);
    assert_eq!(f32::from_bits(mapped.depth_bias_slope_scale_bits), 0.0);
    assert_eq!(f32::from_bits(mapped.depth_bias_clamp_bits), 0.0);
}

#[test]
fn vertex_state_maps_buffers_and_attributes_in_order() {
    let layouts = buffers();
    let mapped = map_vertex_state(&layouts, Some(IndexFormat::Uint32));
    assert_eq!(mapped.index_format, GpuIndexFormat::Uint32);
    assert_eq!(mapped.vertex_buffers.len(), 2);
    assert_eq!(mapped.vertex_buffers[0].array_stride, 20);
    assert_eq!(mapped.vertex_buffers[0].step_mode, GpuInputStepMode::Vertex);
    assert_eq!(mapped.vertex_buffers[0].attributes.len(), 2);
    assert_eq!(mapped.vertex_buffers[0].attributes[1].format, GpuVertexFormat::Float2);
    assert_eq!(mapped.vertex_buffers[0].attributes[1].offset, 12);
    assert_eq!(mapped.vertex_buffers[0].attributes[1].shader_location, 1);
    assert_eq!(mapped.vertex_buffers[1].step_mode, GpuInputStepMode::Instance);
    assert_eq!(mapped.vertex_buffers[1].attributes[0].format, GpuVertexFormat::Uchar4norm);
}

#[test]
fn vertex_state_defaults_to_16_bit_indices() {
    let mapped = map_vertex_state(&Vec::new(), None);
    assert_eq!(mapped.index_format, GpuIndexFormat::Uint16);
    assert!(mapped.vertex_buffers.is_empty());
}

#[test]
fn sample_mask_keeps_the_low_32_bits() {
    assert_eq!(map_sample_mask(u64::MAX), 0xffff_ffff);
    assert_eq!(map_sample_mask(0x1_0000_0001), 1);
    assert_eq!(map_sample_mask(0xf), 0xf);
}

#[test]
fn render_pipeline_maps_every_part() {
    let desc = pipeline(
        vec![target(TextureFormat::Bgra8UnormSrgb), target(TextureFormat::Rgba16Float)],
        Some(depth_state(TextureFormat::Depth24Plus)),
        buffers(),
    );
    assert_eq!(check_render_pipeline(&desc), Ok(()));
    let mapped = map_render_pipeline_descriptor(&desc);
    assert_eq!(mapped.color_states.len(), 2);
    assert_eq!(mapped.color_states[0].format, GpuTextureFormat::Bgra8unormSrgb);
    assert_eq!(mapped.color_states[1].format, GpuTextureFormat::Rgba16float);
    assert_eq!(mapped.color_states[1].color_blend.dst_factor, GpuBlendFactor::OneMinusSrcAlpha);
    assert_eq!(mapped.color_states[1].alpha_blend.src_factor, GpuBlendFactor::One);
    assert_eq!(mapped.color_states[1].write_mask, 15);
    assert_eq!(mapped.primitive_topology, GpuPrimitiveTopology::TriangleStrip);
    assert_eq!(mapped.vertex_stage.module, 1);
    assert_eq!(mapped.vertex_stage.entry_point, "vs_main");
    let fragment = mapped.fragment_stage.unwrap();
    assert_eq!(fragment.module, 2);
    assert_eq!(fragment.entry_point, "fs_main");
    assert_eq!(mapped.layout, Some(9));
    assert_eq!(mapped.rasterization_state.depth_bias, 2);
    assert_eq!(mapped.depth_stencil_state.unwrap().format, GpuTextureFormat::Depth24plus);
    assert_eq!(mapped.vertex_state.index_format, GpuIndexFormat::Uint32);
    assert_eq!(mapped.vertex_state.vertex_buffers.len(), 2);
    assert_eq!(mapped.sample_count, 4);
    assert_eq!(mapped.sample_mask, 0xffff_ffff);
    assert!(mapped.alpha_to_coverage_enabled);
}

#[test]
fn render_pipeline_without_fragment_stage_has_no_color_states() {
    let mut desc = pipeline(Vec::new(), None, Vec::new());
    desc.fragment = None;
    desc.layout = None;
    let mapped = map_render_pipeline_descriptor(&desc);
    assert!(mapped.color_states.is_empty());
    assert!(mapped.fragment_stage.is_none());
    assert!(mapped.depth_stencil_state.is_none());
    assert_eq!(mapped.layout, None);
}

#[test]
fn render_pipeline_check_names_the_first_unsupported_thing() {
    let bad_buffers = vec![VertexBufferLayout {
        array_stride: 8,
        step_mode: InputStepMode::Vertex,
        attributes: vec![attribute(VertexFormat::Double, 0, 0)],
    }];
    let all_bad = pipeline(
        vec![target(TextureFormat::Rgba8Unorm), target(TextureFormat::Bc3RgbaUnorm), target(TextureFormat::Bc1RgbaUnorm)],
        Some(depth_state(TextureFormat::Bc2RgbaUnorm)),
        bad_buffers,
    );
    assert_eq!(check_render_pipeline(&all_bad), Err(Unsupported::TextureFormat(TextureFormat::Bc3RgbaUnorm)));

    let bad_depth = pipeline(
        vec![target(TextureFormat::Rgba8Unorm)],
        Some(depth_state(TextureFormat::Bc2RgbaUnorm)),
        Vec::new(),
    );
    assert_eq!(check_render_pipeline(&bad_depth), Err(Unsupported::TextureFormat(TextureFormat::Bc2RgbaUnorm)));

    let mut bad_vertex_buffers = buffers();
    bad_vertex_buffers[1].attributes.push(attribute(VertexFormat::Double3, 4, 3));
    bad_vertex_buffers.push(VertexBufferLayout {
        array_stride: 8,
        step_mode: InputStepMode::Vertex,
        attributes: vec![attribute(VertexFormat::Double, 0, 4)],
    });
    let bad_vertex = pipeline(vec![target(TextureFormat::Rgba8Unorm)], None, bad_vertex_buffers);
    assert_eq!(check_render_pipeline(&bad_vertex), Err(Unsupported::VertexFormat(VertexFormat::Double3)));
}

#[test]
fn compute_pipeline_keeps_stage_layout_and_label() {
    let desc = ComputePipelineDescriptor { label: Some("compute"), layout: Some(3u8), module: 5u8, entry_point: "main" };
    let mapped = map_compute_pipeline_descriptor(&desc);
    assert_eq!(mapped.compute_stage.module, 5);
    assert_eq!(mapped.compute_stage.entry_point, "main");
    assert_eq!(mapped.layout, Some(3));
    assert_eq!(mapped.label, Some("compute"));
}

#[test]
fn pipeline_layout_keeps_bind_group_layouts_in_order() {
    let desc = PipelineLayoutDescriptor { label: None, bind_group_layouts: vec![4u16, 1, 7] };
    let mapped = map_pipeline_layout_descriptor(&desc);
    assert_eq!(mapped.bind_group_layouts, vec![4, 1, 7]);
    assert_eq!(mapped.label, None);
}
