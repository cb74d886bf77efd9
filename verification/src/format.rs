//! Texture and vertex formats: the formats wgpu knows and the ones WebGPU knows.
use vstd::pervasive::unreached;
use vstd::prelude::*;

verus! {

/// The texture formats that wgpu knows, one variant for each of `wgpu_types::TextureFormat`.
#[derive(Clone, Copy, Debug, PartialEq, Eq, Structural)]
pub enum TextureFormat {
    R8Unorm,
    R8Snorm,
    R8Uint,
    R8Sint,
    R16Uint,
    R16Sint,
    R16Float,
    Rg8Unorm,
    Rg8Snorm,
    Rg8Uint,
    Rg8Sint,
    R32Uint,
    R32Sint,
    R32Float,
    Rg16Uint,
    Rg16Sint,
    Rg16Float,
    Rgba8Unorm,
    Rgba8UnormSrgb,
    Rgba8Snorm,
    Rgba8Uint,
    Rgba8Sint,
    Bgra8Unorm,
    Bgra8UnormSrgb,
    Rgb10a2Unorm,
    Rg11b10Float,
    Rg32Uint,
    Rg32Sint,
    Rg32Float,
    Rgba16Uint,
    Rgba16Sint,
    Rgba16Float,
    Rgba32Uint,
    Rgba32Sint,
    Rgba32Float,
    Depth32Float,
    Depth24Plus,
    Depth24PlusStencil8,
    Bc1RgbaUnorm,
    Bc1RgbaUnormSrgb,
    Bc2RgbaUnorm,
    Bc2RgbaUnormSrgb,
    Bc3RgbaUnorm,
    Bc3RgbaUnormSrgb,
    Bc4RUnorm,
    Bc4RSnorm,
    Bc5RgUnorm,
    Bc5RgSnorm,
    Bc6hRgbUfloat,
    Bc6hRgbSfloat,
    Bc7RgbaUnorm,
    Bc7RgbaUnormSrgb,
    Etc2RgbUnorm,
    Etc2RgbUnormSrgb,
    Etc2RgbA1Unorm,
    Etc2RgbA1UnormSrgb,
    Etc2RgbA8Unorm,
    Etc2RgbA8UnormSrgb,
    EacRUnorm,
    EacRSnorm,
    EtcRgUnorm,
    EtcRgSnorm,
    Astc4x4RgbaUnorm,
    Astc4x4RgbaUnormSrgb,
    Astc5x4RgbaUnorm,
    Astc5x4RgbaUnormSrgb,
    Astc5x5RgbaUnorm,
    Astc5x5RgbaUnormSrgb,
    Astc6x5RgbaUnorm,
    Astc6x5RgbaUnormSrgb,
    Astc6x6RgbaUnorm,
    Astc6x6RgbaUnormSrgb,
    Astc8x5RgbaUnorm,
    Astc8x5RgbaUnormSrgb,
    Astc8x6RgbaUnorm,
    Astc8x6RgbaUnormSrgb,
    Astc10x5RgbaUnorm,
    Astc10x5RgbaUnormSrgb,
    Astc10x6RgbaUnorm,
    Astc10x6RgbaUnormSrgb,
    Astc8x8RgbaUnorm,
    Astc8x8RgbaUnormSrgb,
    Astc10x8RgbaUnorm,
    Astc10x8RgbaUnormSrgb,
    Astc10x10RgbaUnorm,
    Astc10x10RgbaUnormSrgb,
    Astc12x10RgbaUnorm,
    Astc12x10RgbaUnormSrgb,
    Astc12x12RgbaUnorm,
    Astc12x12RgbaUnormSrgb,
}

/// The texture formats of the WebGPU API, one variant for each of `web_sys::GpuTextureFormat`.
#[derive(Clone, Copy, Debug, PartialEq, Eq, Structural)]
pub enum GpuTextureFormat {
    R8unorm,
    R8snorm,
    R8uint,
    R8sint,
    R16uint,
    R16sint,
    R16float,
    Rg8unorm,
    Rg8snorm,
    Rg8uint,
    Rg8sint,
    R32uint,
    R32sint,
    R32float,
    Rg16uint,
    Rg16sint,
    Rg16float,
    Rgba8unorm,
    Rgba8unormSrgb,
    Rgba8snorm,
    Rgba8uint,
    Rgba8sint,
    Bgra8unorm,
    Bgra8unormSrgb,
    Rgb9e5ufloat,
    Rgb10a2unorm,
    Rg11b10ufloat,
    Rg32uint,
    Rg32sint,
    Rg32float,
    Rgba16uint,
    Rgba16sint,
    Rgba16float,
    Rgba32uint,
    Rgba32sint,
    Rgba32float,
    Stencil8,
    Depth16unorm,
    Depth24plus,
    Depth24plusStencil8,
    Depth32float,
    Bc1RgbaUnorm,
    Bc1RgbaUnormSrgb,
    Bc2RgbaUnorm,
    Bc2RgbaUnormSrgb,
    Bc3RgbaUnorm,
    Bc3RgbaUnormSrgb,
    Bc4RUnorm,
    Bc4RSnorm,
    Bc5RgUnorm,
    Bc5RgSnorm,
    Bc6hRgbUfloat,
    Bc6hRgbFloat,
    Bc7RgbaUnorm,
    Bc7RgbaUnormSrgb,
    Depth24unormStencil8,
    Depth32floatStencil8,
}

/// The vertex attribute formats that wgpu knows, one variant for each of `wgpu_types::VertexFormat`.
#[derive(Clone, Copy, Debug, PartialEq, Eq, Structural)]
pub enum VertexFormat {
    Uchar2,
    Uchar4,
    Char2,
    Char4,
    Uchar2Norm,
    Uchar4Norm,
    Char2Norm,
    Char4Norm,
    Ushort2,
    Ushort4,
    Short2,
    Short4,
    Ushort2Norm,
    Ushort4Norm,
    Short2Norm,
    Short4Norm,
    Half2,
    Half4,
    Float,
    Float2,
    Float3,
    Float4,
    Uint,
    Uint2,
    Uint3,
    Uint4,
    Int,
    Int2,
    Int3,
    Int4,
    Double,
    Double2,
    Double3,
    Double4,
}

/// The vertex attribute formats of the WebGPU API, one variant for each of `web_sys::GpuVertexFormat`.
#[derive(Clone, Copy, Debug, PartialEq, Eq, Structural)]
pub enum GpuVertexFormat {
    Uchar2,
    Uchar4,
    Char2,
    Char4,
    Uchar2norm,
    Uchar4norm,
    Char2norm,
    Char4norm,
    Ushort2,
    Ushort4,
    Short2,
    Short4,
    Ushort2norm,
    Ushort4norm,
    Short2norm,
    Short4norm,
    Half2,
    Half4,
    Float,
    Float2,
    Float3,
    Float4,
    Uint,
    Uint2,
    Uint3,
    Uint4,
    Int,
    Int2,
    Int3,
    Int4,
}

/// The WebGPU texture format that a wgpu texture format becomes on the web, if the web backend
/// supports it: the uncompressed formats have one; the block-compressed formats have none.
pub open spec fn web_texture_format(format: TextureFormat) -> Option<GpuTextureFormat> {
    match format {
        TextureFormat::R8Unorm => Some(GpuTextureFormat::R8unorm),
        TextureFormat::R8Snorm => Some(GpuTextureFormat::R8snorm),
        TextureFormat::R8Uint => Some(GpuTextureFormat::R8uint),
        TextureFormat::R8Sint => Some(GpuTextureFormat::R8sint),
        TextureFormat::R16Uint => Some(GpuTextureFormat::R16uint),
        TextureFormat::R16Sint => Some(GpuTextureFormat::R16sint),
        TextureFormat::R16Float => Some(GpuTextureFormat::R16float),
        TextureFormat::Rg8Unorm => Some(GpuTextureFormat::Rg8unorm),
        TextureFormat::Rg8Snorm => Some(GpuTextureFormat::Rg8snorm),
        TextureFormat::Rg8Uint => Some(GpuTextureFormat::Rg8uint),
        TextureFormat::Rg8Sint => Some(GpuTextureFormat::Rg8sint),
        TextureFormat::R32Uint => Some(GpuTextureFormat::R32uint),
        TextureFormat::R32Sint => Some(GpuTextureFormat::R32sint),
        TextureFormat::R32Float => Some(GpuTextureFormat::R32float),
        TextureFormat::Rg16Uint => Some(GpuTextureFormat::Rg16uint),
        TextureFormat::Rg16Sint => Some(GpuTextureFormat::Rg16sint),
        TextureFormat::Rg16Float => Some(GpuTextureFormat::Rg16float),
        TextureFormat::Rgba8Unorm => Some(GpuTextureFormat::Rgba8unorm),
        TextureFormat::Rgba8UnormSrgb => Some(GpuTextureFormat::Rgba8unormSrgb),
        TextureFormat::Rgba8Snorm => Some(GpuTextureFormat::Rgba8snorm),
        TextureFormat::Rgba8Uint => Some(GpuTextureFormat::Rgba8uint),
        TextureFormat::Rgba8Sint => Some(GpuTextureFormat::Rgba8sint),
        TextureFormat::Bgra8Unorm => Some(GpuTextureFormat::Bgra8unorm),
        TextureFormat::Bgra8UnormSrgb => Some(GpuTextureFormat::Bgra8unormSrgb),
        TextureFormat::Rgb10a2Unorm => Some(GpuTextureFormat::Rgb10a2unorm),
        TextureFormat::Rg11b10Float => Some(GpuTextureFormat::Rg11b10ufloat),
        TextureFormat::Rg32Uint => Some(GpuTextureFormat::Rg32uint),
        TextureFormat::Rg32Sint => Some(GpuTextureFormat::Rg32sint),
        TextureFormat::Rg32Float => Some(GpuTextureFormat::Rg32float),
        TextureFormat::Rgba16Uint => Some(GpuTextureFormat::Rgba16uint),
        TextureFormat::Rgba16Sint => Some(GpuTextureFormat::Rgba16sint),
        TextureFormat::Rgba16Float => Some(GpuTextureFormat::Rgba16float),
        TextureFormat::Rgba32Uint => Some(GpuTextureFormat::Rgba32uint),
        TextureFormat::Rgba32Sint => Some(GpuTextureFormat::Rgba32sint),
        TextureFormat::Rgba32Float => Some(GpuTextureFormat::Rgba32float),
        TextureFormat::Depth32Float => Some(GpuTextureFormat::Depth32float),
        TextureFormat::Depth24Plus => Some(GpuTextureFormat::Depth24plus),
        TextureFormat::Depth24PlusStencil8 => Some(GpuTextureFormat::Depth24plusStencil8),
        _ => None,
    }
}

/// The WebGPU vertex format that a wgpu vertex format becomes on the web; the 64-bit formats
/// have none.
pub open spec fn web_vertex_format(format: VertexFormat) -> Option<GpuVertexFormat> {
    match format {
        VertexFormat::Uchar2 => Some(GpuVertexFormat::Uchar2),
        VertexFormat::Uchar4 => Some(GpuVertexFormat::Uchar4),
        VertexFormat::Char2 => Some(GpuVertexFormat::Char2),
        VertexFormat::Char4 => Some(GpuVertexFormat::Char4),
        VertexFormat::Uchar2Norm => Some(GpuVertexFormat::Uchar2norm),
        VertexFormat::Uchar4Norm => Some(GpuVertexFormat::Uchar4norm),
        VertexFormat::Char2Norm => Some(GpuVertexFormat::Char2norm),
        VertexFormat::Char4Norm => Some(GpuVertexFormat::Char4norm),
        VertexFormat::Ushort2 => Some(GpuVertexFormat::Ushort2),
        VertexFormat::Ushort4 => Some(GpuVertexFormat::Ushort4),
        VertexFormat::Short2 => Some(GpuVertexFormat::Short2),
        VertexFormat::Short4 => Some(GpuVertexFormat::Short4),
        VertexFormat::Ushort2Norm => Some(GpuVertexFormat::Ushort2norm),
        VertexFormat::Ushort4Norm => Some(GpuVertexFormat::Ushort4norm),
        VertexFormat::Short2Norm => Some(GpuVertexFormat::Short2norm),
        VertexFormat::Short4Norm => Some(GpuVertexFormat::Short4norm),
        VertexFormat::Half2 => Some(GpuVertexFormat::Half2),
        VertexFormat::Half4 => Some(GpuVertexFormat::Half4),
        VertexFormat::Float => Some(GpuVertexFormat::Float),
        VertexFormat::Float2 => Some(GpuVertexFormat::Float2),
        VertexFormat::Float3 => Some(GpuVertexFormat::Float3),
        VertexFormat::Float4 => Some(GpuVertexFormat::Float4),
        VertexFormat::Uint => Some(GpuVertexFormat::Uint),
        VertexFormat::Uint2 => Some(GpuVertexFormat::Uint2),
        VertexFormat::Uint3 => Some(GpuVertexFormat::Uint3),
        VertexFormat::Uint4 => Some(GpuVertexFormat::Uint4),
        VertexFormat::Int => Some(GpuVertexFormat::Int),
        VertexFormat::Int2 => Some(GpuVertexFormat::Int2),
        VertexFormat::Int3 => Some(GpuVertexFormat::Int3),
        VertexFormat::Int4 => Some(GpuVertexFormat::Int4),
        _ => None,
    }
}

/// The channels that one texel of an uncompressed texture format holds, in the order of its bytes.
#[derive(Clone, Copy, Debug, PartialEq, Eq, Structural)]
pub enum TexelChannels {
    R,
    Rg,
    Rgba,
    Bgra,
    /// Red, green and blue in 10 bits each, alpha in 2, packed in 32 bits.
    Rgb10a2,
    /// Red and green in 11 bits each, blue in 10, packed in 32 bits.
    Rg11b10,
    /// Red, green and blue in 9 bits each with a shared 5-bit exponent.
    Rgb9e5,
    Depth,
    Stencil,
    DepthStencil,
}

/// How the bits of a texel's channels are read.
#[derive(Clone, Copy, Debug, PartialEq, Eq, Structural)]
pub enum TexelNumber {
    /// Unsigned, normalized to [0, 1].
    Unorm,
    /// Unsigned, normalized to [0, 1], with sRGB encoding.
    UnormSrgb,
    /// Signed, normalized to [-1, 1].
    Snorm,
    Uint,
    Sint,
    Float,
    /// Floating point without a sign bit.
    Ufloat,
    /// A depth of at least the given number of bits, whose encoding the implementation picks.
    AtLeast,
}

/// The layout of one texel of an uncompressed texture format: its channels, its number of bits
/// (for the depth of a "plus" format, the least number), and how they are read.
#[derive(Clone, Copy, Debug, PartialEq, Eq, Structural)]
pub struct TexelLayout {
    pub channels: TexelChannels,
    pub bits: u32,
    pub number: TexelNumber,
}

/// The texel layout of a wgpu texture format; block-compressed formats have none.
pub open spec fn texel_layout(format: TextureFormat) -> Option<TexelLayout> {
    match format {
        TextureFormat::R8Unorm => Some(TexelLayout { channels: TexelChannels::R, bits: 8, number: TexelNumber::Unorm }),
        TextureFormat::R8Snorm => Some(TexelLayout { channels: TexelChannels::R, bits: 8, number: TexelNumber::Snorm }),
        TextureFormat::R8Uint => Some(TexelLayout { channels: TexelChannels::R, bits: 8, number: TexelNumber::Uint }),
        TextureFormat::R8Sint => Some(TexelLayout { channels: TexelChannels::R, bits: 8, number: TexelNumber::Sint }),
        TextureFormat::R16Uint => Some(TexelLayout { channels: TexelChannels::R, bits: 16, number: TexelNumber::Uint }),
        TextureFormat::R16Sint => Some(TexelLayout { channels: TexelChannels::R, bits: 16, number: TexelNumber::Sint }),
        TextureFormat::R16Float => Some(TexelLayout { channels: TexelChannels::R, bits: 16, number: TexelNumber::Float }),
        TextureFormat::Rg8Unorm => Some(TexelLayout { channels: TexelChannels::Rg, bits: 16, number: TexelNumber::Unorm }),
        TextureFormat::Rg8Snorm => Some(TexelLayout { channels: TexelChannels::Rg, bits: 16, number: TexelNumber::Snorm }),
        TextureFormat::Rg8Uint => Some(TexelLayout { channels: TexelChannels::Rg, bits: 16, number: TexelNumber::Uint }),
        TextureFormat::Rg8Sint => Some(TexelLayout { channels: TexelChannels::Rg, bits: 16, number: TexelNumber::Sint }),
        TextureFormat::R32Uint => Some(TexelLayout { channels: TexelChannels::R, bits: 32, number: TexelNumber::Uint }),
        TextureFormat::R32Sint => Some(TexelLayout { channels: TexelChannels::R, bits: 32, number: TexelNumber::Sint }),
        TextureFormat::R32Float => Some(TexelLayout { channels: TexelChannels::R, bits: 32, number: TexelNumber::Float }),
        TextureFormat::Rg16Uint => Some(TexelLayout { channels: TexelChannels::Rg, bits: 32, number: TexelNumber::Uint }),
        TextureFormat::Rg16Sint => Some(TexelLayout { channels: TexelChannels::Rg, bits: 32, number: TexelNumber::Sint }),
        TextureFormat::Rg16Float => Some(TexelLayout { channels: TexelChannels::Rg, bits: 32, number: TexelNumber::Float }),
        TextureFormat::Rgba8Unorm => Some(TexelLayout { channels: TexelChannels::Rgba, bits: 32, number: TexelNumber::Unorm }),
        TextureFormat::Rgba8UnormSrgb => Some(TexelLayout { channels: TexelChannels::Rgba, bits: 32, number: TexelNumber::UnormSrgb }),
        TextureFormat::Rgba8Snorm => Some(TexelLayout { channels: TexelChannels::Rgba, bits: 32, number: TexelNumber::Snorm }),
        TextureFormat::Rgba8Uint => Some(TexelLayout { channels: TexelChannels::Rgba, bits: 32, number: TexelNumber::Uint }),
        TextureFormat::Rgba8Sint => Some(TexelLayout { channels: TexelChannels::Rgba, bits: 32, number: TexelNumber::Sint }),
        TextureFormat::Bgra8Unorm => Some(TexelLayout { channels: TexelChannels::Bgra, bits: 32, number: TexelNumber::Unorm }),
        TextureFormat::Bgra8UnormSrgb => Some(TexelLayout { channels: TexelChannels::Bgra, bits: 32, number: TexelNumber::UnormSrgb }),
        TextureFormat::Rgb10a2Unorm => Some(TexelLayout { channels: TexelChannels::Rgb10a2, bits: 32, number: TexelNumber::Unorm }),
        TextureFormat::Rg11b10Float => Some(TexelLayout { channels: TexelChannels::Rg11b10, bits: 32, number: TexelNumber::Ufloat }),
        TextureFormat::Rg32Uint => Some(TexelLayout { channels: TexelChannels::Rg, bits: 64, number: TexelNumber::Uint }),
        TextureFormat::Rg32Sint => Some(TexelLayout { channels: TexelChannels::Rg, bits: 64, number: TexelNumber::Sint }),
        TextureFormat::Rg32Float => Some(TexelLayout { channels: TexelChannels::Rg, bits: 64, number: TexelNumber::Float }),
        TextureFormat::Rgba16Uint => Some(TexelLayout { channels: TexelChannels::Rgba, bits: 64, number: TexelNumber::Uint }),
        TextureFormat::Rgba16Sint => Some(TexelLayout { channels: TexelChannels::Rgba, bits: 64, number: TexelNumber::Sint }),
        TextureFormat::Rgba16Float => Some(TexelLayout { channels: TexelChannels::Rgba, bits: 64, number: TexelNumber::Float }),
        TextureFormat::Rgba32Uint => Some(TexelLayout { channels: TexelChannels::Rgba, bits: 128, number: TexelNumber::Uint }),
        TextureFormat::Rgba32Sint => Some(TexelLayout { channels: TexelChannels::Rgba, bits: 128, number: TexelNumber::Sint }),
        TextureFormat::Rgba32Float => Some(TexelLayout { channels: TexelChannels::Rgba, bits: 128, number: TexelNumber::Float }),
        TextureFormat::Depth32Float => Some(TexelLayout { channels: TexelChannels::Depth, bits: 32, number: TexelNumber::Float }),
        TextureFormat::Depth24Plus => Some(TexelLayout { channels: TexelChannels::Depth, bits: 24, number: TexelNumber::AtLeast }),
        TextureFormat::Depth24PlusStencil8 => Some(TexelLayout { channels: TexelChannels::DepthStencil, bits: 32, number: TexelNumber::AtLeast }),
        _ => None,
    }
}

/// The texel layout of a WebGPU texture format; block-compressed formats have none.
pub open spec fn gpu_texel_layout(format: GpuTextureFormat) -> Option<TexelLayout> {
    match format {
        GpuTextureFormat::R8unorm => Some(TexelLayout { channels: TexelChannels::R, bits: 8, number: TexelNumber::Unorm }),
        GpuTextureFormat::R8snorm => Some(TexelLayout { channels: TexelChannels::R, bits: 8, number: TexelNumber::Snorm }),
        GpuTextureFormat::R8uint => Some(TexelLayout { channels: TexelChannels::R, bits: 8, number: TexelNumber::Uint }),
        GpuTextureFormat::R8sint => Some(TexelLayout { channels: TexelChannels::R, bits: 8, number: TexelNumber::Sint }),
        GpuTextureFormat::R16uint => Some(TexelLayout { channels: TexelChannels::R, bits: 16, number: TexelNumber::Uint }),
        GpuTextureFormat::R16sint => Some(TexelLayout { channels: TexelChannels::R, bits: 16, number: TexelNumber::Sint }),
        GpuTextureFormat::R16float => Some(TexelLayout { channels: TexelChannels::R, bits: 16, number: TexelNumber::Float }),
        GpuTextureFormat::Rg8unorm => Some(TexelLayout { channels: TexelChannels::Rg, bits: 16, number: TexelNumber::Unorm }),
        GpuTextureFormat::Rg8snorm => Some(TexelLayout { channels: TexelChannels::Rg, bits: 16, number: TexelNumber::Snorm }),
        GpuTextureFormat::Rg8uint => Some(TexelLayout { channels: TexelChannels::Rg, bits: 16, number: TexelNumber::Uint }),
        GpuTextureFormat::Rg8sint => Some(TexelLayout { channels: TexelChannels::Rg, bits: 16, number: TexelNumber::Sint }),
        GpuTextureFormat::R32uint => Some(TexelLayout { channels: TexelChannels::R, bits: 32, number: TexelNumber::Uint }),
        GpuTextureFormat::R32sint => Some(TexelLayout { channels: TexelChannels::R, bits: 32, number: TexelNumber::Sint }),
        GpuTextureFormat::R32float => Some(TexelLayout { channels: TexelChannels::R, bits: 32, number: TexelNumber::Float }),
        GpuTextureFormat::Rg16uint => Some(TexelLayout { channels: TexelChannels::Rg, bits: 32, number: TexelNumber::Uint }),
        GpuTextureFormat::Rg16sint => Some(TexelLayout { channels: TexelChannels::Rg, bits: 32, number: TexelNumber::Sint }),
        GpuTextureFormat::Rg16float => Some(TexelLayout { channels: TexelChannels::Rg, bits: 32, number: TexelNumber::Float }),
        GpuTextureFormat::Rgba8unorm => Some(TexelLayout { channels: TexelChannels::Rgba, bits: 32, number: TexelNumber::Unorm }),
        GpuTextureFormat::Rgba8unormSrgb => Some(TexelLayout { channels: TexelChannels::Rgba, bits: 32, number: TexelNumber::UnormSrgb }),
        GpuTextureFormat::Rgba8snorm => Some(TexelLayout { channels: TexelChannels::Rgba, bits: 32, number: TexelNumber::Snorm }),
        GpuTextureFormat::Rgba8uint => Some(TexelLayout { channels: TexelChannels::Rgba, bits: 32, number: TexelNumber::Uint }),
        GpuTextureFormat::Rgba8sint => Some(TexelLayout { channels: TexelChannels::Rgba, bits: 32, number: TexelNumber::Sint }),
        GpuTextureFormat::Bgra8unorm => Some(TexelLayout { channels: TexelChannels::Bgra, bits: 32, number: TexelNumber::Unorm }),
        GpuTextureFormat::Bgra8unormSrgb => Some(TexelLayout { channels: TexelChannels::Bgra, bits: 32, number: TexelNumber::UnormSrgb }),
        GpuTextureFormat::Rgb9e5ufloat => Some(TexelLayout { channels: TexelChannels::Rgb9e5, bits: 32, number: TexelNumber::Ufloat }),
        GpuTextureFormat::Rgb10a2unorm => Some(TexelLayout { channels: TexelChannels::Rgb10a2, bits: 32, number: TexelNumber::Unorm }),
        GpuTextureFormat::Rg11b10ufloat => Some(TexelLayout { channels: TexelChannels::Rg11b10, bits: 32, number: TexelNumber::Ufloat }),
        GpuTextureFormat::Rg32uint => Some(TexelLayout { channels: TexelChannels::Rg, bits: 64, number: TexelNumber::Uint }),
        GpuTextureFormat::Rg32sint => Some(TexelLayout { channels: TexelChannels::Rg, bits: 64, number: TexelNumber::Sint }),
        GpuTextureFormat::Rg32float => Some(TexelLayout { channels: TexelChannels::Rg, bits: 64, number: TexelNumber::Float }),
        GpuTextureFormat::Rgba16uint => Some(TexelLayout { channels: TexelChannels::Rgba, bits: 64, number: TexelNumber::Uint }),
        GpuTextureFormat::Rgba16sint => Some(TexelLayout { channels: TexelChannels::Rgba, bits: 64, number: TexelNumber::Sint }),
        GpuTextureFormat::Rgba16float => Some(TexelLayout { channels: TexelChannels::Rgba, bits: 64, number: TexelNumber::Float }),
        GpuTextureFormat::Rgba32uint => Some(TexelLayout { channels: TexelChannels::Rgba, bits: 128, number: TexelNumber::Uint }),
        GpuTextureFormat::Rgba32sint => Some(TexelLayout { channels: TexelChannels::Rgba, bits: 128, number: TexelNumber::Sint }),
        GpuTextureFormat::Rgba32float => Some(TexelLayout { channels: TexelChannels::Rgba, bits: 128, number: TexelNumber::Float }),
        GpuTextureFormat::Stencil8 => Some(TexelLayout { channels: TexelChannels::Stencil, bits: 8, number: TexelNumber::Uint }),
        GpuTextureFormat::Depth16unorm => Some(TexelLayout { channels: TexelChannels::Depth, bits: 16, number: TexelNumber::Unorm }),
        GpuTextureFormat::Depth24plus => Some(TexelLayout { channels: TexelChannels::Depth, bits: 24, number: TexelNumber::AtLeast }),
        GpuTextureFormat::Depth24plusStencil8 => Some(TexelLayout { channels: TexelChannels::DepthStencil, bits: 32, number: TexelNumber::AtLeast }),
        GpuTextureFormat::Depth32float => Some(TexelLayout { channels: TexelChannels::Depth, bits: 32, number: TexelNumber::Float }),
        GpuTextureFormat::Depth24unormStencil8 => Some(TexelLayout { channels: TexelChannels::DepthStencil, bits: 32, number: TexelNumber::Unorm }),
        GpuTextureFormat::Depth32floatStencil8 => Some(TexelLayout { channels: TexelChannels::DepthStencil, bits: 40, number: TexelNumber::Float }),
        _ => None,
    }
}

/// The scalar type of each component of a vertex attribute.
#[derive(Clone, Copy, Debug, PartialEq, Eq, Structural)]
pub enum VertexScalar {
    U8,
    I8,
    U16,
    I16,
    F16,
    F32,
    U32,
    I32,
    F64,
}

/// The layout of a vertex attribute: the scalar type of its components, how many there are, and
/// whether integer components are normalized to floats.
#[derive(Clone, Copy, Debug, PartialEq, Eq, Structural)]
pub struct VertexLayout {
    pub scalar: VertexScalar,
    pub components: u32,
    pub normalized: bool,
}

/// The layout of a wgpu vertex format ("uchar" is an unsigned byte, "short" a 16-bit integer,
/// "half" a 16-bit float, "double" a 64-bit float; "norm" normalizes).
pub open spec fn vertex_layout(format: VertexFormat) -> VertexLayout {
    match format {
        VertexFormat::Uchar2 => VertexLayout { scalar: VertexScalar::U8, components: 2, normalized: false },
        VertexFormat::Uchar4 => VertexLayout { scalar: VertexScalar::U8, components: 4, normalized: false },
        VertexFormat::Char2 => VertexLayout { scalar: VertexScalar::I8, components: 2, normalized: false },
        VertexFormat::Char4 => VertexLayout { scalar: VertexScalar::I8, components: 4, normalized: false },
        VertexFormat::Uchar2Norm => VertexLayout { scalar: VertexScalar::U8, components: 2, normalized: true },
        VertexFormat::Uchar4Norm => VertexLayout { scalar: VertexScalar::U8, components: 4, normalized: true },
        VertexFormat::Char2Norm => VertexLayout { scalar: VertexScalar::I8, components: 2, normalized: true },
        VertexFormat::Char4Norm => VertexLayout { scalar: VertexScalar::I8, components: 4, normalized: true },
        VertexFormat::Ushort2 => VertexLayout { scalar: VertexScalar::U16, components: 2, normalized: false },
        VertexFormat::Ushort4 => VertexLayout { scalar: VertexScalar::U16, components: 4, normalized: false },
        VertexFormat::Short2 => VertexLayout { scalar: VertexScalar::I16, components: 2, normalized: false },
        VertexFormat::Short4 => VertexLayout { scalar: VertexScalar::I16, components: 4, normalized: false },
        VertexFormat::Ushort2Norm => VertexLayout { scalar: VertexScalar::U16, components: 2, normalized: true },
        VertexFormat::Ushort4Norm => VertexLayout { scalar: VertexScalar::U16, components: 4, normalized: true },
        VertexFormat::Short2Norm => VertexLayout { scalar: VertexScalar::I16, components: 2, normalized: true },
        VertexFormat::Short4Norm => VertexLayout { scalar: VertexScalar::I16, components: 4, normalized: true },
        VertexFormat::Half2 => VertexLayout { scalar: VertexScalar::F16, components: 2, normalized: false },
        VertexFormat::Half4 => VertexLayout { scalar: VertexScalar::F16, components: 4, normalized: false },
        VertexFormat::Float => VertexLayout { scalar: VertexScalar::F32, components: 1, normalized: false },
        VertexFormat::Float2 => VertexLayout { scalar: VertexScalar::F32, components: 2, normalized: false },
        VertexFormat::Float3 => VertexLayout { scalar: VertexScalar::F32, components: 3, normalized: false },
        VertexFormat::Float4 => VertexLayout { scalar: VertexScalar::F32, components: 4, normalized: false },
        VertexFormat::Uint => VertexLayout { scalar: VertexScalar::U32, components: 1, normalized: false },
        VertexFormat::Uint2 => VertexLayout { scalar: VertexScalar::U32, components: 2, normalized: false },
        VertexFormat::Uint3 => VertexLayout { scalar: VertexScalar::U32, components: 3, normalized: false },
        VertexFormat::Uint4 => VertexLayout { scalar: VertexScalar::U32, components: 4, normalized: false },
        VertexFormat::Int => VertexLayout { scalar: VertexScalar::I32, components: 1, normalized: false },
        VertexFormat::Int2 => VertexLayout { scalar: VertexScalar::I32, components: 2, normalized: false },
        VertexFormat::Int3 => VertexLayout { scalar: VertexScalar::I32, components: 3, normalized: false },
        VertexFormat::Int4 => VertexLayout { scalar: VertexScalar::I32, components: 4, normalized: false },
        VertexFormat::Double => VertexLayout { scalar: VertexScalar::F64, components: 1, normalized: false },
        VertexFormat::Double2 => VertexLayout { scalar: VertexScalar::F64, components: 2, normalized: false },
        VertexFormat::Double3 => VertexLayout { scalar: VertexScalar::F64, components: 3, normalized: false },
        VertexFormat::Double4 => VertexLayout { scalar: VertexScalar::F64, components: 4, normalized: false },
    }
}

/// The layout of a WebGPU vertex format.
pub open spec fn gpu_vertex_layout(format: GpuVertexFormat) -> VertexLayout {
    match format {
        GpuVertexFormat::Uchar2 => VertexLayout { scalar: VertexScalar::U8, components: 2, normalized: false },
        GpuVertexFormat::Uchar4 => VertexLayout { scalar: VertexScalar::U8, components: 4, normalized: false },
        GpuVertexFormat::Char2 => VertexLayout { scalar: VertexScalar::I8, components: 2, normalized: false },
        GpuVertexFormat::Char4 => VertexLayout { scalar: VertexScalar::I8, components: 4, normalized: false },
        GpuVertexFormat::Uchar2norm => VertexLayout { scalar: VertexScalar::U8, components: 2, normalized: true },
        GpuVertexFormat::Uchar4norm => VertexLayout { scalar: VertexScalar::U8, components: 4, normalized: true },
        GpuVertexFormat::Char2norm => VertexLayout { scalar: VertexScalar::I8, components: 2, normalized: true },
        GpuVertexFormat::Char4norm => VertexLayout { scalar: VertexScalar::I8, components: 4, normalized: true },
        GpuVertexFormat::Ushort2 => VertexLayout { scalar: VertexScalar::U16, components: 2, normalized: false },
        GpuVertexFormat::Ushort4 => VertexLayout { scalar: VertexScalar::U16, components: 4, normalized: false },
        GpuVertexFormat::Short2 => VertexLayout { scalar: VertexScalar::I16, components: 2, normalized: false },
        GpuVertexFormat::Short4 => VertexLayout { scalar: VertexScalar::I16, components: 4, normalized: false },
        GpuVertexFormat::Ushort2norm => VertexLayout { scalar: VertexScalar::U16, components: 2, normalized: true },
        GpuVertexFormat::Ushort4norm => VertexLayout { scalar: VertexScalar::U16, components: 4, normalized: true },
        GpuVertexFormat::Short2norm => VertexLayout { scalar: VertexScalar::I16, components: 2, normalized: true },
        GpuVertexFormat::Short4norm => VertexLayout { scalar: VertexScalar::I16, components: 4, normalized: true },
        GpuVertexFormat::Half2 => VertexLayout { scalar: VertexScalar::F16, components: 2, normalized: false },
        GpuVertexFormat::Half4 => VertexLayout { scalar: VertexScalar::F16, components: 4, normalized: false },
        GpuVertexFormat::Float => VertexLayout { scalar: VertexScalar::F32, components: 1, normalized: false },
        GpuVertexFormat::Float2 => VertexLayout { scalar: VertexScalar::F32, components: 2, normalized: false },
        GpuVertexFormat::Float3 => VertexLayout { scalar: VertexScalar::F32, components: 3, normalized: false },
        GpuVertexFormat::Float4 => VertexLayout { scalar: VertexScalar::F32, components: 4, normalized: false },
        GpuVertexFormat::Uint => VertexLayout { scalar: VertexScalar::U32, components: 1, normalized: false },
        GpuVertexFormat::Uint2 => VertexLayout { scalar: VertexScalar::U32, components: 2, normalized: false },
        GpuVertexFormat::Uint3 => VertexLayout { scalar: VertexScalar::U32, components: 3, normalized: false },
        GpuVertexFormat::Uint4 => VertexLayout { scalar: VertexScalar::U32, components: 4, normalized: false },
        GpuVertexFormat::Int => VertexLayout { scalar: VertexScalar::I32, components: 1, normalized: false },
        GpuVertexFormat::Int2 => VertexLayout { scalar: VertexScalar::I32, components: 2, normalized: false },
        GpuVertexFormat::Int3 => VertexLayout { scalar: VertexScalar::I32, components: 3, normalized: false },
        GpuVertexFormat::Int4 => VertexLayout { scalar: VertexScalar::I32, components: 4, normalized: false },
    }
}

/// Each texture format that the web backend supports becomes the WebGPU format with the same texel
/// layout (the same channels, bits and encoding: `Rgba8Unorm` becomes "rgba8unorm",
/// `Rgba8Snorm` "rgba8snorm", and so on), and no other WebGPU format has that layout; the formats
/// with a texel layout are exactly the supported ones.
pub proof fn texture_format_keeps_layout(f: TextureFormat, g: GpuTextureFormat)
    ensures
        web_texture_format(f) matches Some(w) ==> texel_layout(f) == gpu_texel_layout(w),
        web_texture_format(f) is Some <==> texel_layout(f) is Some,
        web_texture_format(f) is Some && gpu_texel_layout(g) == texel_layout(f) ==> web_texture_format(
            f,
        ) == Some(g),
{
}

/// Each vertex format that the web backend supports becomes the WebGPU format with the same
/// layout (the same scalar type, number of components and normalization: `Uchar4Norm` becomes
/// "uchar4norm", and so on), and no other WebGPU format has that layout; the formats without a
/// WebGPU counterpart are exactly the 64-bit ones.
pub proof fn vertex_format_keeps_layout(f: VertexFormat, g: GpuVertexFormat)
    ensures
        web_vertex_format(f) matches Some(w) ==> vertex_layout(f) == gpu_vertex_layout(w),
        web_vertex_format(f) is None <==> vertex_layout(f).scalar == VertexScalar::F64,
        web_vertex_format(f) is Some && gpu_vertex_layout(g) == vertex_layout(f) ==> web_vertex_format(
            f,
        ) == Some(g),
{
}

/// Whether the web backend can express `format`.
pub fn texture_format_supported(format: TextureFormat) -> (supported: bool)
    ensures
        supported == web_texture_format(format) is Some,
{
    match format {
        TextureFormat::R8Unorm => true,
        TextureFormat::R8Snorm => true,
        TextureFormat::R8Uint => true,
        TextureFormat::R8Sint => true,
        TextureFormat::R16Uint => true,
        TextureFormat::R16Sint => true,
        TextureFormat::R16Float => true,
        TextureFormat::Rg8Unorm => true,
        TextureFormat::Rg8Snorm => true,
        TextureFormat::Rg8Uint => true,
        TextureFormat::Rg8Sint => true,
        TextureFormat::R32Uint => true,
        TextureFormat::R32Sint => true,
        TextureFormat::R32Float => true,
        TextureFormat::Rg16Uint => true,
        TextureFormat::Rg16Sint => true,
        TextureFormat::Rg16Float => true,
        TextureFormat::Rgba8Unorm => true,
        TextureFormat::Rgba8UnormSrgb => true,
        TextureFormat::Rgba8Snorm => true,
        TextureFormat::Rgba8Uint => true,
        TextureFormat::Rgba8Sint => true,
        TextureFormat::Bgra8Unorm => true,
        TextureFormat::Bgra8UnormSrgb => true,
        TextureFormat::Rgb10a2Unorm => true,
        TextureFormat::Rg11b10Float => true,
        TextureFormat::Rg32Uint => true,
        TextureFormat::Rg32Sint => true,
        TextureFormat::Rg32Float => true,
        TextureFormat::Rgba16Uint => true,
        TextureFormat::Rgba16Sint => true,
        TextureFormat::Rgba16Float => true,
        TextureFormat::Rgba32Uint => true,
        TextureFormat::Rgba32Sint => true,
        TextureFormat::Rgba32Float => true,
        TextureFormat::Depth32Float => true,
        TextureFormat::Depth24Plus => true,
        TextureFormat::Depth24PlusStencil8 => true,
        _ => false,
    }
}

/// The WebGPU texture format for `format`.
pub fn map_texture_format(format: TextureFormat) -> (mapped: GpuTextureFormat)
    requires
        web_texture_format(format) is Some,
    ensures
        web_texture_format(format) == Some(mapped),
{
    match format {
        TextureFormat::R8Unorm => GpuTextureFormat::R8unorm,
        TextureFormat::R8Snorm => GpuTextureFormat::R8snorm,
        TextureFormat::R8Uint => GpuTextureFormat::R8uint,
        TextureFormat::R8Sint => GpuTextureFormat::R8sint,
        TextureFormat::R16Uint => GpuTextureFormat::R16uint,
        TextureFormat::R16Sint => GpuTextureFormat::R16sint,
        TextureFormat::R16Float => GpuTextureFormat::R16float,
        TextureFormat::Rg8Unorm => GpuTextureFormat::Rg8unorm,
        TextureFormat::Rg8Snorm => GpuTextureFormat::Rg8snorm,
        TextureFormat::Rg8Uint => GpuTextureFormat::Rg8uint,
        TextureFormat::Rg8Sint => GpuTextureFormat::Rg8sint,
        TextureFormat::R32Uint => GpuTextureFormat::R32uint,
        TextureFormat::R32Sint => GpuTextureFormat::R32sint,
        TextureFormat::R32Float => GpuTextureFormat::R32float,
        TextureFormat::Rg16Uint => GpuTextureFormat::Rg16uint,
        TextureFormat::Rg16Sint => GpuTextureFormat::Rg16sint,
        TextureFormat::Rg16Float => GpuTextureFormat::Rg16float,
        TextureFormat::Rgba8Unorm => GpuTextureFormat::Rgba8unorm,
        TextureFormat::Rgba8UnormSrgb => GpuTextureFormat::Rgba8unormSrgb,
        TextureFormat::Rgba8Snorm => GpuTextureFormat::Rgba8snorm,
        TextureFormat::Rgba8Uint => GpuTextureFormat::Rgba8uint,
        TextureFormat::Rgba8Sint => GpuTextureFormat::Rgba8sint,
        TextureFormat::Bgra8Unorm => GpuTextureFormat::Bgra8unorm,
        TextureFormat::Bgra8UnormSrgb => GpuTextureFormat::Bgra8unormSrgb,
        TextureFormat::Rgb10a2Unorm => GpuTextureFormat::Rgb10a2unorm,
        TextureFormat::Rg11b10Float => GpuTextureFormat::Rg11b10ufloat,
        TextureFormat::Rg32Uint => GpuTextureFormat::Rg32uint,
        TextureFormat::Rg32Sint => GpuTextureFormat::Rg32sint,
        TextureFormat::Rg32Float => GpuTextureFormat::Rg32float,
        TextureFormat::Rgba16Uint => GpuTextureFormat::Rgba16uint,
        TextureFormat::Rgba16Sint => GpuTextureFormat::Rgba16sint,
        TextureFormat::Rgba16Float => GpuTextureFormat::Rgba16float,
        TextureFormat::Rgba32Uint => GpuTextureFormat::Rgba32uint,
        TextureFormat::Rgba32Sint => GpuTextureFormat::Rgba32sint,
        TextureFormat::Rgba32Float => GpuTextureFormat::Rgba32float,
        TextureFormat::Depth32Float => GpuTextureFormat::Depth32float,
        TextureFormat::Depth24Plus => GpuTextureFormat::Depth24plus,
        TextureFormat::Depth24PlusStencil8 => GpuTextureFormat::Depth24plusStencil8,
        _ => unreached(),
    }
}

/// Whether the web backend can express `format`: the 64-bit formats need a feature that the
/// web does not have.
pub fn vertex_format_supported(format: VertexFormat) -> (supported: bool)
    ensures
        supported == web_vertex_format(format) is Some,
{
    match format {
        VertexFormat::Double | VertexFormat::Double2 | VertexFormat::Double3 | VertexFormat::Double4 => false,
        _ => true,
    }
}

/// The WebGPU vertex format for `format`.
pub fn map_vertex_format(format: VertexFormat) -> (mapped: GpuVertexFormat)
    requires
        web_vertex_format(format) is Some,
    ensures
        web_vertex_format(format) == Some(mapped),
{
    match format {
        VertexFormat::Uchar2 => GpuVertexFormat::Uchar2,
        VertexFormat::Uchar4 => GpuVertexFormat::Uchar4,
        VertexFormat::Char2 => GpuVertexFormat::Char2,
        VertexFormat::Char4 => GpuVertexFormat::Char4,
        VertexFormat::Uchar2Norm => GpuVertexFormat::Uchar2norm,
        VertexFormat::Uchar4Norm => GpuVertexFormat::Uchar4norm,
        VertexFormat::Char2Norm => GpuVertexFormat::Char2norm,
        VertexFormat::Char4Norm => GpuVertexFormat::Char4norm,
        VertexFormat::Ushort2 => GpuVertexFormat::Ushort2,
        VertexFormat::Ushort4 => GpuVertexFormat::Ushort4,
        VertexFormat::Short2 => GpuVertexFormat::Short2,
        VertexFormat::Short4 => GpuVertexFormat::Short4,
        VertexFormat::Ushort2Norm => GpuVertexFormat::Ushort2norm,
        VertexFormat::Ushort4Norm => GpuVertexFormat::Ushort4norm,
        VertexFormat::Short2Norm => GpuVertexFormat::Short2norm,
        VertexFormat::Short4Norm => GpuVertexFormat::Short4norm,
        VertexFormat::Half2 => GpuVertexFormat::Half2,
        VertexFormat::Half4 => GpuVertexFormat::Half4,
        VertexFormat::Float => GpuVertexFormat::Float,
        VertexFormat::Float2 => GpuVertexFormat::Float2,
        VertexFormat::Float3 => GpuVertexFormat::Float3,
        VertexFormat::Float4 => GpuVertexFormat::Float4,
        VertexFormat::Uint => GpuVertexFormat::Uint,
        VertexFormat::Uint2 => GpuVertexFormat::Uint2,
        VertexFormat::Uint3 => GpuVertexFormat::Uint3,
        VertexFormat::Uint4 => GpuVertexFormat::Uint4,
        VertexFormat::Int => GpuVertexFormat::Int,
        VertexFormat::Int2 => GpuVertexFormat::Int2,
        VertexFormat::Int3 => GpuVertexFormat::Int3,
        VertexFormat::Int4 => GpuVertexFormat::Int4,
        _ => unreached(),
    }
}

/// Distinct texture formats that the web backend supports become distinct WebGPU formats.
pub proof fn web_texture_format_injective(a: TextureFormat, b: TextureFormat)
    ensures
        web_texture_format(a) is Some && web_texture_format(a) == web_texture_format(b) ==> a == b,
{
}

/// Distinct vertex formats that the web backend supports become distinct WebGPU formats.
pub proof fn web_vertex_format_injective(a: VertexFormat, b: VertexFormat)
    ensures
        web_vertex_format(a) is Some && web_vertex_format(a) == web_vertex_format(b) ==> a == b,
{
}

} // verus!
