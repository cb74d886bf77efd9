use wgpu_web::pass::{
    buffer_binding_size, buffer_span, draw_args, draw_indexed_args, dynamic_offsets_span,
    map_color, map_color_attachment, map_depth_ops, map_depth_stencil_attachment,
    map_render_pass_descriptor, Color, GpuColorDict, GpuLoadValue, LoadOp, Operations,
    RenderPassColorAttachmentDescriptor, RenderPassDepthStencilAttachmentDescriptor,
    RenderPassDescriptor,
};
use wgpu_web::state::GpuStoreOp;

fn color(r: f64, g: f64, b: f64, a: f64) -> Color {
    Color { r_bits: r.to_bits(), g_bits: g.to_bits(), b_bits: b.to_bits(), a_bits: a.to_bits() }
}

#[test]
fn colors_keep_every_channel() {
    let mapped = map_color(color(0.1, 0.2, 0.3, 0.4));
    assert_eq!(f64::from_bits(mapped.r_bits), 0.1);
    assert_eq!(f64::from_bits(mapped.g_bits), 0.2);
    assert_eq!(f64::from_bits(mapped.b_bits), 0.3);
    assert_eq!(f64::from_bits(mapped.a_bits), 0.4);
}

#[test]
fn color_attachments_clear_or_load() {
    let clear = RenderPassColorAttachmentDescriptor {
        attachment: 1u32,
        resolve_target: Some(2),
        ops: Operations { load: LoadOp::Clear(color(0.0, 0.0, 0.0, 1.0)), store: true },
    };
    let mapped = map_color_attachment(&clear);
    assert_eq!(mapped.attachment, 1);
    assert_eq!(mapped.resolve_target, Some(2));
    assert_eq!(mapped.store_op, GpuStoreOp::Store);
    let expected = GpuColorDict { r_bits: 0.0f64.to_bits(), g_bits: 0.0f64.to_bits(), b_bits: 0.0f64.to_bits(), a_bits: 1.0f64.to_bits() };
    assert_eq!(mapped.load_value, GpuLoadValue::Color(expected));

    let load = RenderPassColorAttachmentDescriptor {
        attachment: 3u32,
        resolve_target: None,
        ops: Operations { load: LoadOp::Load, store: false },
    };
    let mapped = map_color_attachment(&load);
    assert_eq!(mapped.load_value, GpuLoadValue::Load);
    assert_eq!(mapped.store_op, GpuStoreOp::Clear);
    assert_eq!(mapped.resolve_target, None);
}

#[test]
fn missing_depth_operations_load_and_store() {
    assert_eq!(map_depth_ops(None), (GpuLoadValue::Load, GpuStoreOp::Store));
    assert_eq!(
        map_depth_ops(Some(Operations { load: LoadOp::Clear(1.0f32.to_bits()), store: false })),
        (GpuLoadValue::Depth(1.0f32.to_bits()), GpuStoreOp::Clear)
    );
    assert_eq!(
        map_depth_ops(Some(Operations { load: LoadOp::Load, store: true })),
        (GpuLoadValue::Load, GpuStoreOp::Store)
    );
}

#[test]
fn stencil_aspect_follows_the_depth_operations() {
    let attachment = RenderPassDepthStencilAttachmentDescriptor {
        attachment: 9u32,
        depth_ops: Some(Operations { load: LoadOp::Clear(0.5f32.to_bits()), store: false }),
        stencil_ops: Some(Operations { load: LoadOp::Load, store: true }),
    };
    let mapped = map_depth_stencil_attachment(&attachment);
    assert_eq!(mapped.attachment, 9);
    assert_eq!(mapped.depth_load_value, GpuLoadValue::Depth(0.5f32.to_bits()));
    assert_eq!(mapped.depth_store_op, GpuStoreOp::Clear);
    assert_eq!(mapped.stencil_load_value, GpuLoadValue::Depth(0.5f32.to_bits()));
    assert_eq!(mapped.stencil_store_op, GpuStoreOp::Clear);
}

#[test]
fn render_pass_maps_attachments_in_order() {
    let desc = RenderPassDescriptor {
        label: Some("pass"),
        color_attachments: vec![
            RenderPassColorAttachmentDescriptor { attachment: 1u32, resolve_target: None, ops: Operations { load: LoadOp::Load, store: true } },
            RenderPassColorAttachmentDescriptor { attachment: 2u32, resolve_target: None, ops: Operations { load: LoadOp::Load, store: false } },
        ],
        depth_stencil_attachment: Some(RenderPassDepthStencilAttachmentDescriptor { attachment: 3u32, depth_ops: None, stencil_ops: None }),
    };
    let mapped = map_render_pass_descriptor(&desc);
    assert_eq!(mapped.color_attachments.len(), 2);
    assert_eq!(mapped.color_attachments[0].attachment, 1);
    assert_eq!(mapped.color_attachments[1].attachment, 2);
    assert_eq!(mapped.color_attachments[1].store_op, GpuStoreOp::Clear);
    let ds = mapped.depth_stencil_attachment.unwrap();
    assert_eq!(ds.attachment, 3);
    assert_eq!((ds.depth_load_value, ds.depth_store_op), (GpuLoadValue::Load, GpuStoreOp::Store));
    assert_eq!((ds.stencil_load_value, ds.stencil_store_op), (GpuLoadValue::Load, GpuStoreOp::Store));
}

#[test]
fn render_pass_without_attachments() {
    let desc: RenderPassDescriptor<'static, u32> = RenderPassDescriptor { label: None, color_attachments: Vec::new(), depth_stencil_attachment: None };
    let mapped = map_render_pass_descriptor(&desc);
    assert!(mapped.color_attachments.is_empty());
    assert!(mapped.depth_stencil_attachment.is_none());
}

#[test]
fn draw_args_count_from_the_range_starts() {
    let args = draw_args(3..9, 1..3);
    assert_eq!((args.vertex_count, args.instance_count, args.first_vertex, args.first_instance), (6, 2, 3, 1));
    assert_eq!(args.first_vertex + args.vertex_count, 9);
    assert_eq!(args.first_instance + args.instance_count, 3);
    let empty = draw_args(5..5, 0..1);
    assert_eq!((empty.vertex_count, empty.first_vertex), (0, 5));
}

#[test]
fn draw_indexed_args_count_from_the_range_starts() {
    let args = draw_indexed_args(10..40, -4, 2..5);
    assert_eq!(args.index_count, 30);
    assert_eq!(args.instance_count, 3);
    assert_eq!(args.first_index, 10);
    assert_eq!(args.base_vertex, -4);
    assert_eq!(args.first_instance, 2);
}

#[test]
fn dynamic_offsets_are_taken_whole() {
    assert_eq!(dynamic_offsets_span(&[256, 512, 0]), (0, 3));
    assert_eq!(dynamic_offsets_span(&[]), (0, 0));
}

#[test]
fn missing_buffer_binding_size_is_zero() {
    assert_eq!(buffer_binding_size(Some(64)), 64);
    assert_eq!(buffer_binding_size(None), 0);
}

#[test]
fn buffer_spans_give_offset_and_size() {
    let span = buffer_span(16..48);
    assert_eq!((span.offset, span.size), (16, 32));
    let empty = buffer_span(7..7);
    assert_eq!((empty.offset, empty.size), (7, 0));
}
