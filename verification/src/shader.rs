//! Shader modules: WebGPU takes SPIR-V here. A WGSL source is translated to SPIR-V with naga by
//! the caller before the descriptor is built: naga 0.3's WGSL parser and SPIR-V writer panic on
//! some inputs that cannot be told apart beforehand over plain values, so no contract here could
//! promise that a call into them returns. The descriptor is built from naga's words.
use vstd::prelude::*;

verus! {

/// The source of a shader module, as wgpu describes it (`wgpu::ShaderSource`).
#[derive(Debug)]
pub enum ShaderSource<'a> {
    SpirV(Vec<u32>),
    Wgsl(&'a str),
}

/// A shader module, as wgpu describes it (`wgpu::ShaderModuleDescriptor`).
#[derive(Debug)]
pub struct ShaderModuleDescriptor<'a> {
    pub label: Option<&'a str>,
    pub source: ShaderSource<'a>,
}

/// A shader module, as WebGPU describes it here (`web_sys::GpuShaderModuleDescriptor`): SPIR-V
/// words and a label.
#[derive(Debug)]
pub struct GpuShaderModuleDescriptor<'a> {
    pub code: Vec<u32>,
    pub label: Option<&'a str>,
}

/// Maps a shader module to its WebGPU descriptor; the label is kept. SPIR-V words are handed over
/// as they are. For a WGSL source, `translated` holds the SPIR-V words that naga wrote for it
/// (`naga::front::wgsl::parse_str`, then `naga::back::spv::write_vec` with no writer flags and
/// the `Shader` capability), and those words are handed over; for a SPIR-V source it is `None`.
/// A WGSL source that naga rejects or cannot write has no descriptor: the caller panics on it,
/// before this function is reached.
pub fn map_shader_module_descriptor<'a>(
    desc: ShaderModuleDescriptor<'a>,
    translated: Option<Vec<u32>>,
) -> (mapped: GpuShaderModuleDescriptor<'a>)
    requires
        desc.source is Wgsl <==> translated is Some,
    ensures
        mapped.label == desc.label,
        match desc.source {
            ShaderSource::SpirV(words) => mapped.code@ == words@,
            ShaderSource::Wgsl(_) => translated matches Some(words) && mapped.code@ == words@,
        },
{
    let label = desc.label;
    match desc.source {
        ShaderSource::SpirV(words) => GpuShaderModuleDescriptor { code: words, label },
        ShaderSource::Wgsl(_) => match translated {
            Some(words) => GpuShaderModuleDescriptor { code: words, label },
            None => GpuShaderModuleDescriptor { code: Vec::new(), label },
        },
    }
}

} // verus!
