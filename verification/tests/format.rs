use wgpu_web::format::{
    map_texture_format, map_vertex_format, texture_format_supported, vertex_format_supported,
    GpuTextureFormat, GpuVertexFormat, TextureFormat, VertexFormat,
};

#[test]
fn uncompressed_texture_formats_map_to_their_webgpu_names() {
    assert_eq!(map_texture_format(TextureFormat::R8Unorm), GpuTextureFormat::R8unorm);
    assert_eq!(map_texture_format(TextureFormat::Rgba8UnormSrgb), GpuTextureFormat::Rgba8unormSrgb);
    assert_eq!(map_texture_format(TextureFormat::Bgra8Unorm), GpuTextureFormat::Bgra8unorm);
    assert_eq!(map_texture_format(TextureFormat::Rg11b10Float), GpuTextureFormat::Rg11b10ufloat);
    assert_eq!(map_texture_format(TextureFormat::Rgba32Float), GpuTextureFormat::Rgba32float);
    assert_eq!(map_texture_format(TextureFormat::Depth24Plus), GpuTextureFormat::Depth24plus);
    assert_eq!(
        map_texture_format(TextureFormat::Depth24PlusStencil8),
        GpuTextureFormat::Depth24plusStencil8
    );
}

#[test]
fn compressed_texture_formats_are_not_supported() {
    assert!(texture_format_supported(TextureFormat::R8Unorm));
    assert!(texture_format_supported(TextureFormat::Depth32Float));
    assert!(!texture_format_supported(TextureFormat::Bc1RgbaUnorm));
    assert!(!texture_format_supported(TextureFormat::Bc7RgbaUnormSrgb));
    assert!(!texture_format_supported(TextureFormat::Etc2RgbA8Unorm));
    assert!(!texture_format_supported(TextureFormat::EacRSnorm));
    assert!(!texture_format_supported(TextureFormat::Astc12x12RgbaUnormSrgb));
}

#[test]
fn vertex_formats_map_to_their_webgpu_names() {
    assert_eq!(map_vertex_format(VertexFormat::Uchar2), GpuVertexFormat::Uchar2);
    assert_eq!(map_vertex_format(VertexFormat::Uchar4Norm), GpuVertexFormat::Uchar4norm);
    assert_eq!(map_vertex_format(VertexFormat::Short2Norm), GpuVertexFormat::Short2norm);
    assert_eq!(map_vertex_format(VertexFormat::Half4), GpuVertexFormat::Half4);
    assert_eq!(map_vertex_format(VertexFormat::Float3), GpuVertexFormat::Float3);
    assert_eq!(map_vertex_format(VertexFormat::Int4), GpuVertexFormat::Int4);
}

#[test]
fn double_vertex_formats_are_not_supported() {
    assert!(vertex_format_supported(VertexFormat::Float4));
    assert!(!vertex_format_supported(VertexFormat::Double));
    assert!(!vertex_format_supported(VertexFormat::Double2));
    assert!(!vertex_format_supported(VertexFormat::Double3));
    assert!(!vertex_format_supported(VertexFormat::Double4));
}

#[test]
fn distinct_supported_formats_stay_distinct() {
    let formats = [
        TextureFormat::R8Unorm,
        TextureFormat::R8Snorm,
        TextureFormat::Rgba8Unorm,
        TextureFormat::Rgba8UnormSrgb,
        TextureFormat::Bgra8Unorm,
        TextureFormat::Bgra8UnormSrgb,
        TextureFormat::Depth24Plus,
        TextureFormat::Depth24PlusStencil8,
    ];
    for (i, a) in formats.iter().enumerate() {
        for (j, b) in formats.iter().enumerate() {
            assert_eq!(i == j, map_texture_format(*a) == map_texture_format(*b));
        }
    }
}
