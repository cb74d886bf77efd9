use wgpu_web::binding::{
    check_bind_group, check_bind_group_layout, map_bind_group_descriptor,
    map_bind_group_layout_descriptor, map_binding_type, BindGroupDescriptor, BindGroupEntry,
    BindGroupLayoutDescriptor, BindGroupLayoutEntry, BindingResource, BindingType,
    BufferBindingType, GpuBindingResource, GpuBindingType, StorageTextureAccess,
};
use wgpu_web::format::{GpuTextureFormat, TextureFormat};
use wgpu_web::state::{
    GpuTextureComponentType, GpuTextureViewDimension, TextureSampleType, TextureViewDimension,
};
use wgpu_web::support::Unsupported;

fn entry(binding: u32, ty: BindingType) -> BindGroupLayoutEntry {
    BindGroupLayoutEntry { binding, visibility: 3, ty, count: None }
}

fn storage_texture(access: StorageTextureAccess, format: TextureFormat) -> BindingType {
    BindingType::StorageTexture { access, format, view_dimension: TextureViewDimension::D2 }
}

#[test]
fn binding_types_get_webgpu_names() {
    let uniform = BindingType::Buffer { ty: BufferBindingType::Uniform, has_dynamic_offset: false, min_binding_size: None };
    let storage = BindingType::Buffer { ty: BufferBindingType::Storage { read_only: false }, has_dynamic_offset: true, min_binding_size: Some(16) };
    let readonly = BindingType::Buffer { ty: BufferBindingType::Storage { read_only: true }, has_dynamic_offset: false, min_binding_size: None };
    assert_eq!(map_binding_type(uniform), GpuBindingType::UniformBuffer);
    assert_eq!(map_binding_type(storage), GpuBindingType::StorageBuffer);
    assert_eq!(map_binding_type(readonly), GpuBindingType::ReadonlyStorageBuffer);
    assert_eq!(map_binding_type(BindingType::Sampler { filtering: true, comparison: false }), GpuBindingType::Sampler);
    assert_eq!(map_binding_type(BindingType::Sampler { filtering: true, comparison: true }), GpuBindingType::ComparisonSampler);
    let texture = |multisampled| BindingType::Texture {
        sample_type: TextureSampleType::Uint,
        view_dimension: TextureViewDimension::D2,
        multisampled,
    };
    assert_eq!(map_binding_type(texture(false)), GpuBindingType::SampledTexture);
    assert_eq!(map_binding_type(texture(true)), GpuBindingType::MultisampledTexture);
    assert_eq!(
        map_binding_type(storage_texture(StorageTextureAccess::ReadOnly, TextureFormat::R32Float)),
        GpuBindingType::ReadonlyStorageTexture
    );
    assert_eq!(
        map_binding_type(storage_texture(StorageTextureAccess::WriteOnly, TextureFormat::R32Float)),
        GpuBindingType::WriteonlyStorageTexture
    );
    assert_eq!(
        map_binding_type(storage_texture(StorageTextureAccess::ReadWrite, TextureFormat::R32Float)),
        GpuBindingType::WriteonlyStorageTexture
    );
}

#[test]
fn layout_entries_set_only_the_members_of_their_kind() {
    let desc = BindGroupLayoutDescriptor {
        label: Some("layout"),
        entries: vec![
            entry(0, BindingType::Buffer { ty: BufferBindingType::Uniform, has_dynamic_offset: true, min_binding_size: None }),
            entry(1, BindingType::Sampler { filtering: false, comparison: false }),
            entry(
                2,
                BindingType::Texture {
                    sample_type: TextureSampleType::Depth,
                    view_dimension: TextureViewDimension::Cube,
                    multisampled: false,
                },
            ),
            entry(5, storage_texture(StorageTextureAccess::WriteOnly, TextureFormat::Rgba8Uint)),
        ],
    };
    assert_eq!(check_bind_group_layout(&desc), Ok(()));
    let mapped = map_bind_group_layout_descriptor(&desc);
    assert_eq!(mapped.label, Some("layout"));
    assert_eq!(mapped.entries.len(), 4);

    let buffer = mapped.entries[0];
    assert_eq!((buffer.binding, buffer.visibility, buffer.type_), (0, 3, GpuBindingType::UniformBuffer));
    assert_eq!(buffer.has_dynamic_offset, Some(true));
    assert_eq!(buffer.texture_component_type, None);
    assert_eq!(buffer.view_dimension, None);
    assert_eq!(buffer.storage_texture_format, None);

    let sampler = mapped.entries[1];
    assert_eq!(sampler.type_, GpuBindingType::Sampler);
    assert_eq!(sampler.has_dynamic_offset, None);
    assert_eq!(sampler.view_dimension, None);

    let texture = mapped.entries[2];
    assert_eq!(texture.type_, GpuBindingType::SampledTexture);
    assert_eq!(texture.texture_component_type, Some(GpuTextureComponentType::DepthComparison));
    assert_eq!(texture.view_dimension, Some(GpuTextureViewDimension::Cube));
    assert_eq!(texture.storage_texture_format, None);

    let storage = mapped.entries[3];
    assert_eq!(storage.binding, 5);
    assert_eq!(storage.type_, GpuBindingType::WriteonlyStorageTexture);
    assert_eq!(storage.texture_component_type, None);
    assert_eq!(storage.view_dimension, Some(GpuTextureViewDimension::N2d));
    assert_eq!(storage.storage_texture_format, Some(GpuTextureFormat::Rgba8uint));
}

#[test]
fn binding_arrays_are_refused() {
    let mut array = entry(1, BindingType::Sampler { filtering: true, comparison: false });
    array.count = Some(4);
    let desc = BindGroupLayoutDescriptor {
        label: None,
        entries: vec![
            entry(0, BindingType::Sampler { filtering: true, comparison: false }),
            array,
            entry(2, storage_texture(StorageTextureAccess::ReadOnly, TextureFormat::Bc1RgbaUnorm)),
        ],
    };
    assert_eq!(check_bind_group_layout(&desc), Err(Unsupported::BindingArray));
}

#[test]
fn compressed_storage_texture_formats_are_refused() {
    let desc = BindGroupLayoutDescriptor {
        label: None,
        entries: vec![entry(0, storage_texture(StorageTextureAccess::ReadOnly, TextureFormat::Bc4RUnorm))],
    };
    assert_eq!(check_bind_group_layout(&desc), Err(Unsupported::TextureFormat(TextureFormat::Bc4RUnorm)));
}

#[test]
fn bind_group_entries_hand_over_their_resources() {
    let desc: BindGroupDescriptor<'static, u8, u16, u32, u64> = BindGroupDescriptor {
        label: Some("group"),
        layout: 7,
        entries: vec![
            BindGroupEntry { binding: 0, resource: BindingResource::Buffer { buffer: 11, offset: 256, size: Some(64) } },
            BindGroupEntry { binding: 1, resource: BindingResource::Buffer { buffer: 12, offset: 0, size: None } },
            BindGroupEntry { binding: 2, resource: BindingResource::Sampler(13) },
            BindGroupEntry { binding: 3, resource: BindingResource::TextureView(14) },
        ],
    };
    assert_eq!(check_bind_group(&desc), Ok(()));
    let mapped = map_bind_group_descriptor(&desc);
    assert_eq!(mapped.label, Some("group"));
    assert_eq!(mapped.layout, 7);
    assert_eq!(mapped.entries.len(), 4);
    match mapped.entries[0].resource {
        GpuBindingResource::Buffer(b) => assert_eq!((b.buffer, b.offset, b.size), (11, 256, Some(64))),
        _ => panic!("expected a buffer binding"),
    }
    match mapped.entries[1].resource {
        GpuBindingResource::Buffer(b) => assert_eq!((b.buffer, b.offset, b.size), (12, 0, None)),
        _ => panic!("expected a buffer binding"),
    }
    match mapped.entries[2].resource {
        GpuBindingResource::Sampler(s) => assert_eq!(s, 13),
        _ => panic!("expected a sampler"),
    }
    match mapped.entries[3].resource {
        GpuBindingResource::TextureView(t) => assert_eq!(t, 14),
        _ => panic!("expected a texture view"),
    }
    assert_eq!(mapped.entries[3].binding, 3);
}

#[test]
fn texture_view_arrays_are_refused() {
    let desc: BindGroupDescriptor<'static, u8, u16, u32, u64> = BindGroupDescriptor {
        label: None,
        layout: 0,
        entries: vec![
            BindGroupEntry { binding: 0, resource: BindingResource::Sampler(1) },
            BindGroupEntry { binding: 1, resource: BindingResource::TextureViewArray },
        ],
    };
    assert_eq!(check_bind_group(&desc), Err(Unsupported::TextureViewArray));
}
