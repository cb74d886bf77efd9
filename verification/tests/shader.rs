use wgpu_web::shader::{map_shader_module_descriptor, ShaderModuleDescriptor, ShaderSource};

fn naga_spirv(source: &str) -> Vec<u32> {
    let module = naga::front::wgsl::parse_str(source).unwrap();
    let mut capabilities = naga::FastHashSet::default();
    capabilities.insert(naga::back::spv::Capability::Shader);
    naga::back::spv::write_vec(&module, naga::back::spv::WriterFlags::NONE, capabilities).unwrap()
}

#[test]
fn spirv_words_are_handed_over_unchanged() {
    let desc = ShaderModuleDescriptor {
        label: Some("spv"),
        source: ShaderSource::SpirV(vec![0x0723_0203, 1, 2, 3]),
    };
    let mapped = map_shader_module_descriptor(desc, None);
    assert_eq!(mapped.code, vec![0x0723_0203, 1, 2, 3]);
    assert_eq!(mapped.label, Some("spv"));
}

#[test]
fn wgsl_gets_naga_spirv_words() {
    let source = "[[stage(compute), workgroup_size(1)]]\nfn main() {}\n";
    let words = naga_spirv(source);
    assert!(words.len() > 5);
    assert_eq!(words[0], 0x0723_0203);
    let desc = ShaderModuleDescriptor { label: Some("cs"), source: ShaderSource::Wgsl(source) };
    let mapped = map_shader_module_descriptor(desc, Some(words.clone()));
    assert_eq!(mapped.code, words);
    assert_eq!(mapped.label, Some("cs"));
}

#[test]
fn wgsl_words_replace_nothing_of_the_label() {
    let desc = ShaderModuleDescriptor { label: None, source: ShaderSource::Wgsl("fn main() {}") };
    let mapped = map_shader_module_descriptor(desc, Some(vec![7, 8, 9]));
    assert_eq!(mapped.code, vec![7, 8, 9]);
    assert_eq!(mapped.label, None);
}

