//! Render and compute passes: attachments and their load and store operations, and the arguments
//! that draw, bind and buffer commands hand to WebGPU.
use crate::state::{GpuStoreOp, map_store_op};
use core::ops::Range;
use vstd::prelude::*;

verus! {

/// A color, as wgpu describes it (`wgpu_types::Color`); each channel is held as the bits of its
/// `f64` value.
#[derive(Clone, Copy, Debug, PartialEq, Eq, Structural)]
pub struct Color {
    pub r_bits: u64,
    pub g_bits: u64,
    pub b_bits: u64,
    pub a_bits: u64,
}

/// A color, as WebGPU describes it (`web_sys::GpuColorDict`); each channel is held as the bits of
/// its `f64` value.
#[derive(Clone, Copy, Debug, PartialEq, Eq, Structural)]
pub struct GpuColorDict {
    pub r_bits: u64,
    pub g_bits: u64,
    pub b_bits: u64,
    pub a_bits: u64,
}

/// The WebGPU color of a color: every channel kept.
pub open spec fn web_color(color: Color) -> GpuColorDict {
    GpuColorDict {
        r_bits: color.r_bits,
        g_bits: color.g_bits,
        b_bits: color.b_bits,
        a_bits: color.a_bits,
    }
}

/// Maps a color to its WebGPU counterpart.
pub fn map_color(color: Color) -> (mapped: GpuColorDict)
    ensures
        mapped == web_color(color),
{
    GpuColorDict {
        a_bits: color.a_bits,
        b_bits: color.b_bits,
        g_bits: color.g_bits,
        r_bits: color.r_bits,
    }
}

/// What a pass does with an attachment at its start, as wgpu describes it (`wgpu::LoadOp`).
#[derive(Clone, Copy, Debug, PartialEq, Eq, Structural)]
pub enum LoadOp<V> {
    Clear(V),
    Load,
}

/// What a pass does with an attachment at its start and end, as wgpu describes it
/// (`wgpu::Operations`).
#[derive(Clone, Copy, Debug, PartialEq, Eq, Structural)]
pub struct Operations<V> {
    pub load: LoadOp<V>,
    pub store: bool,
}

/// What a pass does with an attachment at its start, as WebGPU receives it: the "load" operation,
/// or the value to clear to, a color or a depth value (the bits of an `f32`).
#[derive(Clone, Copy, Debug, PartialEq, Eq, Structural)]
pub enum GpuLoadValue {
    Load,
    Color(GpuColorDict),
    Depth(u32),
}

/// One color attachment of a render pass, as wgpu describes it
/// (`wgpu::RenderPassColorAttachmentDescriptor`), with texture view handles of type `T`.
#[derive(Clone, Copy, Debug)]
pub struct RenderPassColorAttachmentDescriptor<T> {
    pub attachment: T,
    pub resolve_target: Option<T>,
    pub ops: Operations<Color>,
}

/// The depth-stencil attachment of a render pass, as wgpu describes it
/// (`wgpu::RenderPassDepthStencilAttachmentDescriptor`); a depth clear value is held as the bits
/// of its `f32`.
#[derive(Clone, Copy, Debug)]
pub struct RenderPassDepthStencilAttachmentDescriptor<T> {
    pub attachment: T,
    pub depth_ops: Option<Operations<u32>>,
    /// Not read when the attachment is mapped: WebGPU's stencil aspect takes the depth operations
    /// (see `web_depth_stencil_attachment`).
    pub stencil_ops: Option<Operations<u32>>,
}

/// A render pass, as wgpu describes it (`wgpu::RenderPassDescriptor`).
#[derive(Debug)]
pub struct RenderPassDescriptor<'a, T> {
    pub label: Option<&'a str>,
    pub color_attachments: Vec<RenderPassColorAttachmentDescriptor<T>>,
    pub depth_stencil_attachment: Option<RenderPassDepthStencilAttachmentDescriptor<T>>,
}

/// One color attachment of a render pass, as WebGPU describes it
/// (`web_sys::GpuRenderPassColorAttachmentDescriptor`).
#[derive(Clone, Copy, Debug)]
pub struct GpuRenderPassColorAttachmentDescriptor<T> {
    pub attachment: T,
    pub load_value: GpuLoadValue,
    pub resolve_target: Option<T>,
    pub store_op: GpuStoreOp,
}

/// The depth-stencil attachment of a render pass, as WebGPU describes it
/// (`web_sys::GpuRenderPassDepthStencilAttachmentDescriptor`).
#[derive(Clone, Copy, Debug)]
pub struct GpuRenderPassDepthStencilAttachmentDescriptor<T> {
    pub attachment: T,
    pub depth_load_value: GpuLoadValue,
    pub depth_store_op: GpuStoreOp,
    pub stencil_load_value: GpuLoadValue,
    pub stencil_store_op: GpuStoreOp,
}

/// A render pass, as WebGPU describes it (`web_sys::GpuRenderPassDescriptor`).
#[derive(Debug)]
pub struct GpuRenderPassDescriptor<T> {
    pub color_attachments: Vec<GpuRenderPassColorAttachmentDescriptor<T>>,
    pub depth_stencil_attachment: Option<GpuRenderPassDepthStencilAttachmentDescriptor<T>>,
}

/// The WebGPU store operation of wgpu's "store the results" flag.
pub open spec fn web_store_op(store: bool) -> GpuStoreOp {
    if store {
        GpuStoreOp::Store
    } else {
        GpuStoreOp::Clear
    }
}

/// The WebGPU color attachment of a color attachment: the load operation becomes the clear color
/// or "load", the store flag a store operation, and the views are kept.
pub open spec fn web_color_attachment<T>(
    attachment: RenderPassColorAttachmentDescriptor<T>,
) -> GpuRenderPassColorAttachmentDescriptor<T> {
    GpuRenderPassColorAttachmentDescriptor {
        attachment: attachment.attachment,
        load_value: match attachment.ops.load {
            LoadOp::Clear(color) => GpuLoadValue::Color(web_color(color)),
            LoadOp::Load => GpuLoadValue::Load,
        },
        resolve_target: attachment.resolve_target,
        store_op: web_store_op(attachment.ops.store),
    }
}

/// The WebGPU load value and store operation of optional depth operations; without operations,
/// the attachment is loaded and stored.
pub open spec fn web_depth_ops(ops: Option<Operations<u32>>) -> (GpuLoadValue, GpuStoreOp) {
    match ops {
        Some(ops) => (
            match ops.load {
                LoadOp::Clear(value) => GpuLoadValue::Depth(value),
                LoadOp::Load => GpuLoadValue::Load,
            },
            web_store_op(ops.store),
        ),
        None => (GpuLoadValue::Load, GpuStoreOp::Store),
    }
}

/// The WebGPU depth-stencil attachment of a depth-stencil attachment. Both the depth and the
/// stencil aspect take their load value and store operation from the depth operations; the
/// stencil operations are not read.
pub open spec fn web_depth_stencil_attachment<T>(
    attachment: RenderPassDepthStencilAttachmentDescriptor<T>,
) -> GpuRenderPassDepthStencilAttachmentDescriptor<T> {
    let (depth_load_value, depth_store_op) = web_depth_ops(attachment.depth_ops);
    let (stencil_load_value, stencil_store_op) = web_depth_ops(attachment.depth_ops);
    GpuRenderPassDepthStencilAttachmentDescriptor {
        attachment: attachment.attachment,
        depth_load_value,
        depth_store_op,
        stencil_load_value,
        stencil_store_op,
    }
}

/// Maps a color attachment to its WebGPU counterpart.
pub fn map_color_attachment<T: Copy>(attachment: &RenderPassColorAttachmentDescriptor<T>) -> (mapped:
    GpuRenderPassColorAttachmentDescriptor<T>)
    ensures
        mapped == web_color_attachment(*attachment),
{
    let load_value = match attachment.ops.load {
        LoadOp::Clear(color) => GpuLoadValue::Color(map_color(color)),
        LoadOp::Load => GpuLoadValue::Load,
    };
    GpuRenderPassColorAttachmentDescriptor {
        attachment: attachment.attachment,
        load_value,
        resolve_target: attachment.resolve_target,
        store_op: map_store_op(attachment.ops.store),
    }
}

/// Maps optional depth operations to a WebGPU load value and store operation.
pub fn map_depth_ops(ops: Option<Operations<u32>>) -> (mapped: (GpuLoadValue, GpuStoreOp))
    ensures
        mapped == web_depth_ops(ops),
{
    match ops {
        Some(ops) => {
            let load_value = match ops.load {
                LoadOp::Clear(value) => GpuLoadValue::Depth(value),
                LoadOp::Load => GpuLoadValue::Load,
            };
            (load_value, map_store_op(ops.store))
        },
        None => (GpuLoadValue::Load, GpuStoreOp::Store),
    }
}

/// Maps a depth-stencil attachment to its WebGPU counterpart.
pub fn map_depth_stencil_attachment<T: Copy>(
    attachment: &RenderPassDepthStencilAttachmentDescriptor<T>,
) -> (mapped: GpuRenderPassDepthStencilAttachmentDescriptor<T>)
    ensures
        mapped == web_depth_stencil_attachment(*attachment),
{
    let (depth_load_value, depth_store_op) = map_depth_ops(attachment.depth_ops);
    let (stencil_load_value, stencil_store_op) = map_depth_ops(attachment.depth_ops);
    GpuRenderPassDepthStencilAttachmentDescriptor {
        attachment: attachment.attachment,
        depth_load_value,
        depth_store_op,
        stencil_load_value,
        stencil_store_op,
    }
}

/// Maps a render pass to its WebGPU descriptor: each color attachment mapped in order, and the
/// depth-stencil attachment mapped if there is one.
pub fn map_render_pass_descriptor<'a, T: Copy>(desc: &RenderPassDescriptor<'a, T>) -> (mapped:
    GpuRenderPassDescriptor<T>)
    ensures
        mapped.color_attachments@.len() == desc.color_attachments@.len(),
        forall|i: int|
            0 <= i < desc.color_attachments@.len() ==> #[trigger] mapped.color_attachments@[i]
                == web_color_attachment(desc.color_attachments@[i]),
        mapped.depth_stencil_attachment == match desc.depth_stencil_attachment {
            Some(attachment) => Some(web_depth_stencil_attachment(attachment)),
            None => None,
        },
{
    let mut color_attachments: Vec<GpuRenderPassColorAttachmentDescriptor<T>> = Vec::new();
    let mut i: usize = 0;
    while i < desc.color_attachments.len()
        invariant
            i <= desc.color_attachments@.len(),
            color_attachments@.len() == i,
            forall|j: int|
                0 <= j < i ==> #[trigger] color_attachments@[j] == web_color_attachment(
                    desc.color_attachments@[j],
                ),
        decreases desc.color_attachments@.len() - i,
    {
        let mapped_attachment = map_color_attachment(&desc.color_attachments[i]);
        color_attachments.push(mapped_attachment);
        i = i + 1;
    }
    let depth_stencil_attachment = match &desc.depth_stencil_attachment {
        Some(attachment) => Some(map_depth_stencil_attachment(attachment)),
        None => None,
    };
    GpuRenderPassDescriptor { color_attachments, depth_stencil_attachment }
}

/// The stencil aspect of a WebGPU depth-stencil attachment is loaded and stored exactly as its
/// depth aspect is, whatever the stencil operations say.
pub proof fn stencil_follows_depth<T>(attachment: RenderPassDepthStencilAttachmentDescriptor<T>)
    ensures
        web_depth_stencil_attachment(attachment).stencil_load_value == web_depth_stencil_attachment(
            attachment,
        ).depth_load_value,
        web_depth_stencil_attachment(attachment).stencil_store_op == web_depth_stencil_attachment(
            attachment,
        ).depth_store_op,
{
}

/// WebGPU receives a color as wgpu gave it: every channel, red, green, blue and alpha, in its
/// own place.
pub proof fn color_keeps_channels(color: Color)
    ensures
        web_color(color).r_bits == color.r_bits,
        web_color(color).g_bits == color.g_bits,
        web_color(color).b_bits == color.b_bits,
        web_color(color).a_bits == color.a_bits,
{
}

/// A color attachment that is cleared at the start of the pass is cleared to the requested color,
/// channel for channel; one that is loaded is loaded; its contents are stored at the end exactly
/// when wgpu asks to store them; and its view and resolve target are the ones given.
pub proof fn color_attachment_keeps_operations<T>(
    attachment: RenderPassColorAttachmentDescriptor<T>,
    clear: Color,
)
    ensures
        attachment.ops.load == LoadOp::Clear(clear) ==> web_color_attachment(attachment).load_value
            == GpuLoadValue::Color(
            (GpuColorDict {
                r_bits: clear.r_bits,
                g_bits: clear.g_bits,
                b_bits: clear.b_bits,
                a_bits: clear.a_bits,
            }),
        ),
        attachment.ops.load == LoadOp::<Color>::Load ==> web_color_attachment(attachment).load_value
            == GpuLoadValue::Load,
        (web_color_attachment(attachment).store_op == GpuStoreOp::Store) == attachment.ops.store,
        web_color_attachment(attachment).attachment == attachment.attachment,
        web_color_attachment(attachment).resolve_target == attachment.resolve_target,
{
}

/// The depth aspect of a depth-stencil attachment is cleared to the requested depth value when
/// wgpu asks to clear it, loaded when it asks to load it or gives no depth operations, and stored
/// exactly when it asks to store it or gives no depth operations.
pub proof fn depth_attachment_keeps_operations<T>(
    attachment: RenderPassDepthStencilAttachmentDescriptor<T>,
    clear: u32,
)
    ensures
        (attachment.depth_ops matches Some(ops) && ops.load == LoadOp::Clear(clear))
            ==> web_depth_stencil_attachment(attachment).depth_load_value == GpuLoadValue::Depth(
            clear,
        ),
        (attachment.depth_ops matches Some(ops) && ops.load == LoadOp::<u32>::Load)
            ==> web_depth_stencil_attachment(attachment).depth_load_value == GpuLoadValue::Load,
        attachment.depth_ops is None ==> web_depth_stencil_attachment(attachment).depth_load_value
            == GpuLoadValue::Load,
        (web_depth_stencil_attachment(attachment).depth_store_op == GpuStoreOp::Store) == match attachment.depth_ops {
            Some(ops) => ops.store,
            None => true,
        },
        web_depth_stencil_attachment(attachment).attachment == attachment.attachment,
{
}

/// The arguments of a WebGPU draw call (`draw(vertexCount, instanceCount, firstVertex,
/// firstInstance)`).
#[derive(Clone, Copy, Debug, PartialEq, Eq, Structural)]
pub struct GpuDraw {
    pub vertex_count: u32,
    pub instance_count: u32,
    pub first_vertex: u32,
    pub first_instance: u32,
}

/// The arguments of a WebGPU indexed draw call (`drawIndexed(indexCount, instanceCount,
/// firstIndex, baseVertex, firstInstance)`).
#[derive(Clone, Copy, Debug, PartialEq, Eq, Structural)]
pub struct GpuDrawIndexed {
    pub index_count: u32,
    pub instance_count: u32,
    pub first_index: u32,
    pub base_vertex: i32,
    pub first_instance: u32,
}

/// The draw call arguments for drawing the vertices `vertices` of the instances `instances`.
pub fn draw_args(vertices: Range<u32>, instances: Range<u32>) -> (args: GpuDraw)
    requires
        vertices.start <= vertices.end,
        instances.start <= instances.end,
    ensures
        args.vertex_count == vertices.end - vertices.start,
        args.instance_count == instances.end - instances.start,
        args.first_vertex == vertices.start,
        args.first_instance == instances.start,
        args.first_vertex + args.vertex_count == vertices.end,
        args.first_instance + args.instance_count == instances.end,
{
    GpuDraw {
        vertex_count: vertices.end - vertices.start,
        instance_count: instances.end - instances.start,
        first_vertex: vertices.start,
        first_instance: instances.start,
    }
}

/// The indexed draw call arguments for drawing the indices `indices`, offset by `base_vertex`, of
/// the instances `instances`.
pub fn draw_indexed_args(indices: Range<u32>, base_vertex: i32, instances: Range<u32>) -> (args:
    GpuDrawIndexed)
    requires
        indices.start <= indices.end,
        instances.start <= instances.end,
    ensures
        args.index_count == indices.end - indices.start,
        args.instance_count == instances.end - instances.start,
        args.first_index == indices.start,
        args.base_vertex == base_vertex,
        args.first_instance == instances.start,
        args.first_index + args.index_count == indices.end,
        args.first_instance + args.instance_count == instances.end,
{
    GpuDrawIndexed {
        index_count: indices.end - indices.start,
        instance_count: instances.end - instances.start,
        first_index: indices.start,
        base_vertex,
        first_instance: instances.start,
    }
}

/// Where the dynamic offsets of a `setBindGroup` call are taken from: the data starts at the first
/// offset and its length is the number of offsets, as the 32-bit value WebGPU takes.
pub fn dynamic_offsets_span(offsets: &[u32]) -> (span: (u64, u32))
    ensures
        span.0 == 0,
        span.1 == offsets@.len() % 0x1_0000_0000,
{
    let len = offsets.len();
    let low = (len as u64) & 0xffff_ffff;
    assert(low == (len as u64) % 0x1_0000_0000) by (bit_vector)
        requires
            low == (len as u64) & 0xffff_ffff,
    ;
    (0, low as u32)
}

/// The size that WebGPU receives when binding an index or vertex buffer: the given size, or zero
/// (the rest of the buffer) without one.
pub fn buffer_binding_size(size: Option<u64>) -> (mapped: u64)
    ensures
        mapped == match size {
            Some(s) => s,
            None => 0,
        },
{
    match size {
        Some(s) => s,
        None => 0,
    }
}

/// A byte range of a buffer as WebGPU takes it: an offset and a size.
#[derive(Clone, Copy, Debug, PartialEq, Eq, Structural)]
pub struct GpuBufferSpan {
    pub offset: u64,
    pub size: u64,
}

/// The offset and size of the byte range `range` of a buffer, as WebGPU's `mapAsync` and
/// `getMappedRange` take them.
pub fn buffer_span(range: Range<u64>) -> (span: GpuBufferSpan)
    requires
        range.start <= range.end,
    ensures
        span.offset == range.start,
        span.size == range.end - range.start,
        span.offset + span.size == range.end,
{
    GpuBufferSpan { offset: range.start, size: range.end - range.start }
}

} // verus!
