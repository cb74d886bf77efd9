//! Bind group layouts and bind groups: which resources a shader sees, and how WebGPU is told.
use crate::format::{
    GpuTextureFormat, TextureFormat, map_texture_format, texture_format_supported,
    web_texture_format,
};
use crate::state::{
    GpuTextureComponentType, GpuTextureViewDimension, TextureSampleType, TextureViewDimension,
    map_texture_component_type, map_texture_view_dimension, web_texture_component_type,
    web_texture_view_dimension,
};
use crate::support::{Unsupported, first_reason, lemma_first_reason_skip, lemma_no_first_reason};
use vstd::pervasive::unreached;
use vstd::prelude::*;

verus! {

/// How a buffer is bound, as wgpu describes it (`wgpu_types::BufferBindingType`).
#[derive(Clone, Copy, Debug, PartialEq, Eq, Structural)]
pub enum BufferBindingType {
    Uniform,
    Storage { read_only: bool },
}

/// How a storage texture may be accessed, as wgpu describes it
/// (`wgpu_types::StorageTextureAccess`).
#[derive(Clone, Copy, Debug, PartialEq, Eq, Structural)]
pub enum StorageTextureAccess {
    ReadOnly,
    WriteOnly,
    ReadWrite,
}

/// The kind of resource bound at one binding, as wgpu describes it (`wgpu_types::BindingType`);
/// `min_binding_size` is the value of a `wgpu_types::BufferSize`.
#[derive(Clone, Copy, Debug, PartialEq, Eq, Structural)]
pub enum BindingType {
    Buffer { ty: BufferBindingType, has_dynamic_offset: bool, min_binding_size: Option<u64> },
    Sampler { filtering: bool, comparison: bool },
    Texture {
        sample_type: TextureSampleType,
        view_dimension: TextureViewDimension,
        multisampled: bool,
    },
    StorageTexture {
        access: StorageTextureAccess,
        format: TextureFormat,
        view_dimension: TextureViewDimension,
    },
}

/// The kind of resource bound at one binding, as WebGPU describes it: one variant for each of
/// `web_sys::GpuBindingType`.
#[derive(Clone, Copy, Debug, PartialEq, Eq, Structural)]
pub enum GpuBindingType {
    UniformBuffer,
    StorageBuffer,
    ReadonlyStorageBuffer,
    Sampler,
    ComparisonSampler,
    SampledTexture,
    MultisampledTexture,
    ReadonlyStorageTexture,
    WriteonlyStorageTexture,
}

/// The WebGPU binding type of a wgpu binding type. WebGPU has no read-write storage textures
/// here; they are bound as write-only ones.
pub open spec fn web_binding_type(ty: BindingType) -> GpuBindingType {
    match ty {
        BindingType::Buffer { ty: BufferBindingType::Uniform, .. } => GpuBindingType::UniformBuffer,
        BindingType::Buffer { ty: BufferBindingType::Storage { read_only }, .. } => if read_only {
            GpuBindingType::ReadonlyStorageBuffer
        } else {
            GpuBindingType::StorageBuffer
        },
        BindingType::Sampler { comparison, .. } => if comparison {
            GpuBindingType::ComparisonSampler
        } else {
            GpuBindingType::Sampler
        },
        BindingType::Texture { multisampled, .. } => if multisampled {
            GpuBindingType::MultisampledTexture
        } else {
            GpuBindingType::SampledTexture
        },
        BindingType::StorageTexture { access, .. } => match access {
            StorageTextureAccess::ReadOnly => GpuBindingType::ReadonlyStorageTexture,
            _ => GpuBindingType::WriteonlyStorageTexture,
        },
    }
}

/// Maps a binding type to its WebGPU binding type.
pub fn map_binding_type(ty: BindingType) -> (mapped: GpuBindingType)
    ensures
        mapped == web_binding_type(ty),
{
    match ty {
        BindingType::Buffer { ty: BufferBindingType::Uniform, .. } => GpuBindingType::UniformBuffer,
        BindingType::Buffer { ty: BufferBindingType::Storage { read_only: false }, .. } => {
            GpuBindingType::StorageBuffer
        },
        BindingType::Buffer { ty: BufferBindingType::Storage { read_only: true }, .. } => {
            GpuBindingType::ReadonlyStorageBuffer
        },
        BindingType::Sampler { comparison: false, .. } => GpuBindingType::Sampler,
        BindingType::Sampler { .. } => GpuBindingType::ComparisonSampler,
        BindingType::Texture { multisampled: true, .. } => GpuBindingType::MultisampledTexture,
        BindingType::Texture { .. } => GpuBindingType::SampledTexture,
        BindingType::StorageTexture { access: StorageTextureAccess::ReadOnly, .. } => {
            GpuBindingType::ReadonlyStorageTexture
        },
        BindingType::StorageTexture { .. } => GpuBindingType::WriteonlyStorageTexture,
    }
}

/// One entry of a bind group layout, as wgpu describes it (`wgpu_types::BindGroupLayoutEntry`);
/// `visibility` holds the bits of `wgpu_types::ShaderStage`, and `count` the value of the
/// `NonZeroU32` that makes the entry an array.
#[derive(Clone, Copy, Debug, PartialEq, Eq, Structural)]
pub struct BindGroupLayoutEntry {
    pub binding: u32,
    pub visibility: u32,
    pub ty: BindingType,
    pub count: Option<u32>,
}

/// One entry of a bind group layout, as WebGPU describes it
/// (`web_sys::GpuBindGroupLayoutEntry`); a member that is `None` is left unset.
#[derive(Clone, Copy, Debug, PartialEq, Eq, Structural)]
pub struct GpuBindGroupLayoutEntry {
    pub binding: u32,
    pub type_: GpuBindingType,
    pub visibility: u32,
    pub has_dynamic_offset: Option<bool>,
    pub texture_component_type: Option<GpuTextureComponentType>,
    pub view_dimension: Option<GpuTextureViewDimension>,
    pub storage_texture_format: Option<GpuTextureFormat>,
}

/// Why the web backend cannot express a bind group layout entry, if it cannot: arrays of bindings
/// do not exist on the web, nor do some storage texture formats.
pub open spec fn layout_entry_unsupported(entry: BindGroupLayoutEntry) -> Option<Unsupported> {
    if entry.count is Some {
        Some(Unsupported::BindingArray)
    } else {
        match entry.ty {
            BindingType::StorageTexture { format, .. } => if web_texture_format(format) is None {
                Some(Unsupported::TextureFormat(format))
            } else {
                None
            },
            _ => None,
        }
    }
}

/// A bind group layout entry is turned down exactly when it is an array of bindings, or a storage
/// texture of a format that WebGPU lacks; an array is named as such even then.
pub proof fn layout_entry_refusals(entry: BindGroupLayoutEntry)
    ensures
        entry.count is Some ==> layout_entry_unsupported(entry) == Some(Unsupported::BindingArray),
        entry.count is None ==> (layout_entry_unsupported(entry) is Some <==> (
        entry.ty matches BindingType::StorageTexture { format, .. } && web_texture_format(format)
            is None)),
        entry.ty matches BindingType::StorageTexture { format, .. } ==> (entry.count is None
            && web_texture_format(format) is None ==> layout_entry_unsupported(entry) == Some(
            Unsupported::TextureFormat(format),
        )),
{
}

/// The WebGPU layout entry of a bind group layout entry that the web backend can express: the
/// binding number, type and visibility, then the members that only some binding types have.
pub open spec fn web_layout_entry(entry: BindGroupLayoutEntry) -> GpuBindGroupLayoutEntry {
    GpuBindGroupLayoutEntry {
        binding: entry.binding,
        type_: web_binding_type(entry.ty),
        visibility: entry.visibility,
        has_dynamic_offset: match entry.ty {
            BindingType::Buffer { has_dynamic_offset, .. } => Some(has_dynamic_offset),
            _ => None,
        },
        texture_component_type: match entry.ty {
            BindingType::Texture { sample_type, .. } => Some(
                web_texture_component_type(sample_type),
            ),
            _ => None,
        },
        view_dimension: match entry.ty {
            BindingType::Texture { view_dimension, .. } => Some(
                web_texture_view_dimension(view_dimension),
            ),
            BindingType::StorageTexture { view_dimension, .. } => Some(
                web_texture_view_dimension(view_dimension),
            ),
            _ => None,
        },
        storage_texture_format: match entry.ty {
            BindingType::StorageTexture { format, .. } => web_texture_format(format),
            _ => None,
        },
    }
}

/// Checks whether the web backend can express a bind group layout entry.
pub fn check_layout_entry(entry: &BindGroupLayoutEntry) -> (checked: Option<Unsupported>)
    ensures
        checked == layout_entry_unsupported(*entry),
{
    if entry.count.is_some() {
        return Some(Unsupported::BindingArray);
    }
    match entry.ty {
        BindingType::StorageTexture { format, .. } => if texture_format_supported(format) {
            None
        } else {
            Some(Unsupported::TextureFormat(format))
        },
        _ => None,
    }
}

/// Maps a bind group layout entry to its WebGPU layout entry.
pub fn map_layout_entry(entry: &BindGroupLayoutEntry) -> (mapped: GpuBindGroupLayoutEntry)
    requires
        layout_entry_unsupported(*entry) is None,
    ensures
        mapped == web_layout_entry(*entry),
{
    let mut mapped = GpuBindGroupLayoutEntry {
        binding: entry.binding,
        type_: map_binding_type(entry.ty),
        visibility: entry.visibility,
        has_dynamic_offset: None,
        texture_component_type: None,
        view_dimension: None,
        storage_texture_format: None,
    };
    if let BindingType::Buffer { has_dynamic_offset, .. } = entry.ty {
        mapped.has_dynamic_offset = Some(has_dynamic_offset);
    }
    if let BindingType::Texture { sample_type, .. } = entry.ty {
        mapped.texture_component_type = Some(map_texture_component_type(sample_type));
    }
    match entry.ty {
        BindingType::Texture { view_dimension, .. }
        | BindingType::StorageTexture { view_dimension, .. } => {
            mapped.view_dimension = Some(map_texture_view_dimension(view_dimension));
        },
        _ => {},
    }
    if let BindingType::StorageTexture { format, .. } = entry.ty {
        mapped.storage_texture_format = Some(map_texture_format(format));
    }
    mapped
}

/// A buffer entry of a bind group layout keeps its own dynamic-offset flag on the web, whether the
/// buffer is a uniform, a storage or a read-only storage buffer, and the binding number and
/// visibility; it has no texture members.
pub proof fn buffer_layout_entry_keeps_dynamic_offset(
    entry: BindGroupLayoutEntry,
    ty: BufferBindingType,
    has_dynamic_offset: bool,
    min_binding_size: Option<u64>,
)
    requires
        entry.ty == (BindingType::Buffer { ty, has_dynamic_offset, min_binding_size }),
    ensures
        web_layout_entry(entry).has_dynamic_offset == Some(has_dynamic_offset),
        web_layout_entry(entry).binding == entry.binding,
        web_layout_entry(entry).visibility == entry.visibility,
        web_layout_entry(entry).texture_component_type is None,
        web_layout_entry(entry).view_dimension is None,
        web_layout_entry(entry).storage_texture_format is None,
{
}

/// A texture entry of a bind group layout keeps its view dimension and the kind of value it
/// yields; a storage texture entry keeps its view dimension and its format; neither has a
/// dynamic-offset flag.
pub proof fn texture_layout_entry_keeps_view(entry: BindGroupLayoutEntry)
    ensures
        entry.ty matches BindingType::Texture { sample_type, view_dimension, .. } ==> web_layout_entry(
            entry,
        ).texture_component_type == Some(web_texture_component_type(sample_type))
            && web_layout_entry(entry).view_dimension == Some(
            web_texture_view_dimension(view_dimension),
        ) && web_layout_entry(entry).storage_texture_format is None
            && web_layout_entry(entry).has_dynamic_offset is None,
        entry.ty matches BindingType::StorageTexture { format, view_dimension, .. }
            ==> web_layout_entry(entry).storage_texture_format == web_texture_format(format)
            && web_layout_entry(entry).view_dimension == Some(
            web_texture_view_dimension(view_dimension),
        ) && web_layout_entry(entry).texture_component_type is None
            && web_layout_entry(entry).has_dynamic_offset is None,
        web_layout_entry(entry).binding == entry.binding,
        web_layout_entry(entry).visibility == entry.visibility,
        web_layout_entry(entry).type_ == web_binding_type(entry.ty),
{
}

/// A layout entry's WebGPU binding type says what wgpu's does: a buffer stays a buffer of the same
/// kind (uniform, storage, read-only storage), a sampler a sampler that compares exactly when
/// wgpu's does, a texture a sampled texture that is multisampled exactly when wgpu's is, and a
/// storage texture a storage texture that is read-only exactly when wgpu's is.
pub proof fn binding_type_keeps_kind(ty: BindingType)
    ensures
        ty matches BindingType::Buffer { ty: BufferBindingType::Uniform, .. } <==> web_binding_type(
            ty,
        ) == GpuBindingType::UniformBuffer,
        ty matches BindingType::Buffer { ty: BufferBindingType::Storage { read_only: false }, .. }
            <==> web_binding_type(ty) == GpuBindingType::StorageBuffer,
        ty matches BindingType::Buffer { ty: BufferBindingType::Storage { read_only: true }, .. }
            <==> web_binding_type(ty) == GpuBindingType::ReadonlyStorageBuffer,
        ty matches BindingType::Sampler { comparison: false, .. } <==> web_binding_type(ty)
            == GpuBindingType::Sampler,
        ty matches BindingType::Sampler { comparison: true, .. } <==> web_binding_type(ty)
            == GpuBindingType::ComparisonSampler,
        ty matches BindingType::Texture { multisampled: false, .. } <==> web_binding_type(ty)
            == GpuBindingType::SampledTexture,
        ty matches BindingType::Texture { multisampled: true, .. } <==> web_binding_type(ty)
            == GpuBindingType::MultisampledTexture,
        ty matches BindingType::StorageTexture { access: StorageTextureAccess::ReadOnly, .. }
            <==> web_binding_type(ty) == GpuBindingType::ReadonlyStorageTexture,
{
}

/// A bind group layout, as wgpu describes it (`wgpu::BindGroupLayoutDescriptor`).
#[derive(Debug)]
pub struct BindGroupLayoutDescriptor<'a> {
    pub label: Option<&'a str>,
    pub entries: Vec<BindGroupLayoutEntry>,
}

/// A bind group layout, as WebGPU describes it (`web_sys::GpuBindGroupLayoutDescriptor`).
#[derive(Debug)]
pub struct GpuBindGroupLayoutDescriptor<'a> {
    pub entries: Vec<GpuBindGroupLayoutEntry>,
    pub label: Option<&'a str>,
}

/// Why the web backend cannot express a bind group layout entry, as a function.
pub open spec fn layout_entry_reason() -> spec_fn(BindGroupLayoutEntry) -> Option<Unsupported> {
    |entry: BindGroupLayoutEntry| layout_entry_unsupported(entry)
}

/// The first entry, in order, that the web backend cannot express, and why.
pub open spec fn first_unsupported_in_layout(entries: Seq<BindGroupLayoutEntry>) -> Option<
    Unsupported,
> {
    first_reason(entries, layout_entry_reason())
}

/// Checks whether the web backend can express a bind group layout, naming the first thing it
/// cannot.
pub fn check_bind_group_layout(desc: &BindGroupLayoutDescriptor) -> (checked: Result<(), Unsupported>)
    ensures
        checked == match first_unsupported_in_layout(desc.entries@) {
            Some(reason) => Err(reason),
            None => Ok::<(), Unsupported>(()),
        },
{
    let ghost reason = layout_entry_reason();
    let mut i: usize = 0;
    assert(desc.entries@.skip(0) =~= desc.entries@);
    while i < desc.entries.len()
        invariant
            reason == layout_entry_reason(),
            i <= desc.entries@.len(),
            first_reason(desc.entries@, reason) == first_reason(
                desc.entries@.skip(i as int),
                reason,
            ),
        decreases desc.entries@.len() - i,
    {
        proof {
            lemma_first_reason_skip(desc.entries@, reason, i as int);
        }
        if let Some(why) = check_layout_entry(&desc.entries[i]) {
            return Err(why);
        }
        i = i + 1;
    }
    Ok(())
}

/// Maps a bind group layout to its WebGPU descriptor: each entry mapped in order, the label kept.
pub fn map_bind_group_layout_descriptor<'a>(desc: &BindGroupLayoutDescriptor<'a>) -> (mapped:
    GpuBindGroupLayoutDescriptor<'a>)
    requires
        first_unsupported_in_layout(desc.entries@) is None,
    ensures
        mapped.label == desc.label,
        mapped.entries@.len() == desc.entries@.len(),
        forall|i: int|
            0 <= i < desc.entries@.len() ==> #[trigger] mapped.entries@[i] == web_layout_entry(
                desc.entries@[i],
            ),
{
    let ghost reason = layout_entry_reason();
    proof {
        lemma_no_first_reason(desc.entries@, reason);
    }
    let mut entries: Vec<GpuBindGroupLayoutEntry> = Vec::new();
    let mut i: usize = 0;
    while i < desc.entries.len()
        invariant
            reason == layout_entry_reason(),
            i <= desc.entries@.len(),
            entries@.len() == i,
            forall|j: int| 0 <= j < desc.entries@.len() ==> reason(#[trigger] desc.entries@[j]) is None,
            forall|j: int|
                0 <= j < i ==> #[trigger] entries@[j] == web_layout_entry(desc.entries@[j]),
        decreases desc.entries@.len() - i,
    {
        assert(reason(desc.entries@[i as int]) is None);
        let entry = map_layout_entry(&desc.entries[i]);
        entries.push(entry);
        i = i + 1;
    }
    GpuBindGroupLayoutDescriptor { entries, label: desc.label }
}

/// The resource bound at one entry of a bind group, as wgpu describes it (`wgpu::BindingResource`),
/// with buffer, sampler and texture view handles of types `B`, `S` and `T`; `size` is the value of
/// a `wgpu_types::BufferSize`. What an array of texture views holds does not matter here: the web
/// backend cannot bind one.
#[derive(Clone, Copy, Debug)]
pub enum BindingResource<B, S, T> {
    Buffer { buffer: B, offset: u64, size: Option<u64> },
    Sampler(S),
    TextureView(T),
    TextureViewArray,
}

/// One entry of a bind group, as wgpu describes it (`wgpu::BindGroupEntry`).
#[derive(Clone, Copy, Debug)]
pub struct BindGroupEntry<B, S, T> {
    pub binding: u32,
    pub resource: BindingResource<B, S, T>,
}

/// A bind group, as wgpu describes it (`wgpu::BindGroupDescriptor`), with a layout handle of
/// type `G`.
#[derive(Debug)]
pub struct BindGroupDescriptor<'a, G, B, S, T> {
    pub label: Option<&'a str>,
    pub layout: G,
    pub entries: Vec<BindGroupEntry<B, S, T>>,
}

/// A range of a buffer bound as a resource, as WebGPU describes it (`web_sys::GpuBufferBinding`);
/// without a size, the binding runs to the end of the buffer.
#[derive(Clone, Copy, Debug)]
pub struct GpuBufferBinding<B> {
    pub buffer: B,
    pub offset: u64,
    pub size: Option<u64>,
}

/// The resource bound at one entry of a bind group, as WebGPU receives it.
#[derive(Clone, Copy, Debug)]
pub enum GpuBindingResource<B, S, T> {
    Buffer(GpuBufferBinding<B>),
    Sampler(S),
    TextureView(T),
}

/// One entry of a bind group, as WebGPU describes it (`web_sys::GpuBindGroupEntry`).
#[derive(Clone, Copy, Debug)]
pub struct GpuBindGroupEntry<B, S, T> {
    pub binding: u32,
    pub resource: GpuBindingResource<B, S, T>,
}

/// A bind group, as WebGPU describes it (`web_sys::GpuBindGroupDescriptor`).
#[derive(Debug)]
pub struct GpuBindGroupDescriptor<'a, G, B, S, T> {
    pub entries: Vec<GpuBindGroupEntry<B, S, T>>,
    pub layout: G,
    pub label: Option<&'a str>,
}

/// Why the web backend cannot express a bind group entry, if it cannot: it cannot bind an array of
/// texture views.
pub open spec fn group_entry_unsupported<B, S, T>(entry: BindGroupEntry<B, S, T>) -> Option<
    Unsupported,
> {
    match entry.resource {
        BindingResource::TextureViewArray => Some(Unsupported::TextureViewArray),
        _ => None,
    }
}

/// Why the web backend cannot express a bind group entry, as a function.
pub open spec fn group_entry_reason<B, S, T>() -> spec_fn(BindGroupEntry<B, S, T>) -> Option<
    Unsupported,
> {
    |entry: BindGroupEntry<B, S, T>| group_entry_unsupported(entry)
}

/// The first entry of a bind group, in order, that the web backend cannot express, and why.
pub open spec fn first_unsupported_in_group<B, S, T>(entries: Seq<BindGroupEntry<B, S, T>>) -> Option<
    Unsupported,
> {
    first_reason(entries, group_entry_reason())
}

/// The WebGPU entry of a bind group entry, if the web backend can express it: the binding number
/// kept, and the resource handed over as it is (a buffer with its offset and optional size).
pub open spec fn web_group_entry<B, S, T>(entry: BindGroupEntry<B, S, T>) -> Option<
    GpuBindGroupEntry<B, S, T>,
> {
    let resource = match entry.resource {
        BindingResource::Buffer { buffer, offset, size } => Some(
            GpuBindingResource::Buffer(GpuBufferBinding { buffer, offset, size }),
        ),
        BindingResource::Sampler(sampler) => Some(GpuBindingResource::Sampler(sampler)),
        BindingResource::TextureView(view) => Some(GpuBindingResource::TextureView(view)),
        BindingResource::TextureViewArray => None,
    };
    match resource {
        Some(resource) => Some(GpuBindGroupEntry { binding: entry.binding, resource }),
        None => None,
    }
}

/// Checks whether the web backend can express a bind group, naming the first thing it cannot.
pub fn check_bind_group<'a, G, B: Copy, S: Copy, T: Copy>(
    desc: &BindGroupDescriptor<'a, G, B, S, T>,
) -> (checked: Result<(), Unsupported>)
    ensures
        checked == match first_unsupported_in_group(desc.entries@) {
            Some(reason) => Err(reason),
            None => Ok::<(), Unsupported>(()),
        },
{
    let ghost reason = group_entry_reason::<B, S, T>();
    let mut i: usize = 0;
    assert(desc.entries@.skip(0) =~= desc.entries@);
    while i < desc.entries.len()
        invariant
            reason == group_entry_reason::<B, S, T>(),
            i <= desc.entries@.len(),
            first_reason(desc.entries@, reason) == first_reason(
                desc.entries@.skip(i as int),
                reason,
            ),
        decreases desc.entries@.len() - i,
    {
        proof {
            lemma_first_reason_skip(desc.entries@, reason, i as int);
        }
        if let BindingResource::TextureViewArray = desc.entries[i].resource {
            return Err(Unsupported::TextureViewArray);
        }
        i = i + 1;
    }
    Ok(())
}

/// Maps a bind group to its WebGPU descriptor: each entry mapped in order, the layout and label
/// kept.
pub fn map_bind_group_descriptor<'a, G: Copy, B: Copy, S: Copy, T: Copy>(
    desc: &BindGroupDescriptor<'a, G, B, S, T>,
) -> (mapped: GpuBindGroupDescriptor<'a, G, B, S, T>)
    requires
        first_unsupported_in_group(desc.entries@) is None,
    ensures
        mapped.label == desc.label,
        mapped.layout == desc.layout,
        mapped.entries@.len() == desc.entries@.len(),
        forall|i: int|
            0 <= i < desc.entries@.len() ==> Some(#[trigger] mapped.entries@[i]) == web_group_entry(
                desc.entries@[i],
            ),
{
    let ghost reason = group_entry_reason::<B, S, T>();
    proof {
        lemma_no_first_reason(desc.entries@, reason);
    }
    let mut entries: Vec<GpuBindGroupEntry<B, S, T>> = Vec::new();
    let mut i: usize = 0;
    while i < desc.entries.len()
        invariant
            reason == group_entry_reason::<B, S, T>(),
            i <= desc.entries@.len(),
            entries@.len() == i,
            forall|j: int| 0 <= j < desc.entries@.len() ==> reason(#[trigger] desc.entries@[j]) is None,
            forall|j: int|
                0 <= j < i ==> Some(#[trigger] entries@[j]) == web_group_entry(desc.entries@[j]),
        decreases desc.entries@.len() - i,
    {
        assert(reason(desc.entries@[i as int]) is None);
        let entry = desc.entries[i];
        let resource = match entry.resource {
            BindingResource::Buffer { buffer, offset, size } => GpuBindingResource::Buffer(
                GpuBufferBinding { buffer, offset, size },
            ),
            BindingResource::Sampler(sampler) => GpuBindingResource::Sampler(sampler),
            BindingResource::TextureView(view) => GpuBindingResource::TextureView(view),
            BindingResource::TextureViewArray => unreached(),
        };
        entries.push(GpuBindGroupEntry { binding: entry.binding, resource });
        i = i + 1;
    }
    GpuBindGroupDescriptor { entries, layout: desc.layout, label: desc.label }
}

/// A buffer bound in a bind group reaches WebGPU as given: the same buffer, the same offset
/// whether or not a size is given, the same size or none, at the same binding number.
pub proof fn buffer_group_entry_keeps_range<B, S, T>(
    entry: BindGroupEntry<B, S, T>,
    buffer: B,
    offset: u64,
    size: Option<u64>,
)
    requires
        entry.resource == (BindingResource::<B, S, T>::Buffer { buffer, offset, size }),
    ensures
        web_group_entry(entry) == Some(
            (GpuBindGroupEntry {
                binding: entry.binding,
                resource: GpuBindingResource::<B, S, T>::Buffer(
                    (GpuBufferBinding { buffer, offset, size }),
                ),
            }),
        ),
{
}

/// A sampler or a texture view bound in a bind group reaches WebGPU as the same sampler or view.
pub proof fn handle_group_entry_keeps_resource<B, S, T>(entry: BindGroupEntry<B, S, T>)
    ensures
        entry.resource matches BindingResource::Sampler(s) ==> web_group_entry(entry) == Some(
            (GpuBindGroupEntry {
                binding: entry.binding,
                resource: GpuBindingResource::<B, S, T>::Sampler(s),
            }),
        ),
        entry.resource matches BindingResource::TextureView(v) ==> web_group_entry(entry) == Some(
            (GpuBindGroupEntry {
                binding: entry.binding,
                resource: GpuBindingResource::<B, S, T>::TextureView(v),
            }),
        ),
{
}

/// A bind group entry has a WebGPU form exactly when the web backend can express it.
pub proof fn group_entry_mapped_iff_supported<B, S, T>(entry: BindGroupEntry<B, S, T>)
    ensures
        web_group_entry(entry) is Some <==> group_entry_unsupported(entry) is None,
{
}

} // verus!
