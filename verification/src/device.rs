//! Adapters and devices: what is asked of the browser when requesting them, which requests the web
//! backend turns down, and what the browser's answers become.
use crate::state::{GpuPowerPreference, PowerPreference, map_power_preference, web_power_preference};
use crate::support::Unsupported;
use vstd::prelude::*;

verus! {

/// The device features that exist only on native backends: the bits of
/// `wgpu_types::Features::ALL_NATIVE`.
pub open spec fn native_features() -> u64 {
    0xFFFF_FFFF_FFFF_0000
}

/// Reads `wgpu_types::Features::ALL_NATIVE`. Its definition in wgpu-types 0.7.0 gives it the bits
/// `0xFFFF_FFFF_FFFF_0000`, which the contract states.
#[verifier::external_body]
fn all_native_features() -> (bits: u64)
    ensures
        bits == native_features(),
{
    wgpu_types::Features::ALL_NATIVE.bits()
}

/// The options of an adapter request, as wgpu describes them (`wgpu::RequestAdapterOptions`); the
/// surface that the adapter must present to plays no part on the web.
#[derive(Clone, Copy, Debug, PartialEq, Eq, Structural)]
pub struct RequestAdapterOptions {
    pub power_preference: PowerPreference,
}

/// The options of an adapter request, as WebGPU describes them
/// (`web_sys::GpuRequestAdapterOptions`).
#[derive(Clone, Copy, Debug, PartialEq, Eq, Structural)]
pub struct GpuRequestAdapterOptions {
    pub power_preference: GpuPowerPreference,
}

/// Maps the options of an adapter request to their WebGPU counterpart.
pub fn map_request_adapter_options(options: &RequestAdapterOptions) -> (mapped:
    GpuRequestAdapterOptions)
    ensures
        mapped.power_preference == web_power_preference(options.power_preference),
{
    GpuRequestAdapterOptions { power_preference: map_power_preference(options.power_preference) }
}

/// The limits of a device, as wgpu describes them (`wgpu_types::Limits`).
#[derive(Clone, Copy, Debug, PartialEq, Eq, Structural)]
pub struct Limits {
    pub max_bind_groups: u32,
    pub max_dynamic_uniform_buffers_per_pipeline_layout: u32,
    pub max_dynamic_storage_buffers_per_pipeline_layout: u32,
    pub max_sampled_textures_per_shader_stage: u32,
    pub max_samplers_per_shader_stage: u32,
    pub max_storage_buffers_per_shader_stage: u32,
    pub max_storage_textures_per_shader_stage: u32,
    pub max_uniform_buffers_per_shader_stage: u32,
    pub max_uniform_buffer_binding_size: u32,
    pub max_push_constant_size: u32,
}

/// The limits that `wgpu_types::Limits::default()` gives in wgpu-types 0.7.0: four bind groups,
/// eight dynamic uniform and four dynamic storage buffers per pipeline layout, sixteen sampled
/// textures and sixteen samplers, four storage buffers and four storage textures, twelve uniform
/// buffers per shader stage, uniform bindings of at most 16384 bytes, and no push constants.
pub open spec fn default_limits() -> Limits {
    Limits {
        max_bind_groups: 4,
        max_dynamic_uniform_buffers_per_pipeline_layout: 8,
        max_dynamic_storage_buffers_per_pipeline_layout: 4,
        max_sampled_textures_per_shader_stage: 16,
        max_samplers_per_shader_stage: 16,
        max_storage_buffers_per_shader_stage: 4,
        max_storage_textures_per_shader_stage: 4,
        max_uniform_buffers_per_shader_stage: 12,
        max_uniform_buffer_binding_size: 16384,
        max_push_constant_size: 0,
    }
}

/// Reads `wgpu_types::Limits::default()` field by field. Its definition in wgpu-types 0.7.0 gives
/// the values that `default_limits` lists, which the contract states.
#[verifier::external_body]
fn wgpu_default_limits() -> (limits: Limits)
    ensures
        limits == default_limits(),
{
    let l = wgpu_types::Limits::default();
    Limits {
        max_bind_groups: l.max_bind_groups,
        max_dynamic_uniform_buffers_per_pipeline_layout: l.max_dynamic_uniform_buffers_per_pipeline_layout,
        max_dynamic_storage_buffers_per_pipeline_layout: l.max_dynamic_storage_buffers_per_pipeline_layout,
        max_sampled_textures_per_shader_stage: l.max_sampled_textures_per_shader_stage,
        max_samplers_per_shader_stage: l.max_samplers_per_shader_stage,
        max_storage_buffers_per_shader_stage: l.max_storage_buffers_per_shader_stage,
        max_storage_textures_per_shader_stage: l.max_storage_textures_per_shader_stage,
        max_uniform_buffers_per_shader_stage: l.max_uniform_buffers_per_shader_stage,
        max_uniform_buffer_binding_size: l.max_uniform_buffer_binding_size,
        max_push_constant_size: l.max_push_constant_size,
    }
}

/// The limits of adapters and devices on the web (`adapter_limits`, `device_limits`): the browser
/// does not tell them, so wgpu's default limits are reported.
pub fn web_limits() -> (limits: Limits)
    ensures
        limits == default_limits(),
{
    wgpu_default_limits()
}

/// A device request, as wgpu describes it (`wgpu::DeviceDescriptor`); `features` holds the bits of
/// `wgpu_types::Features`.
#[derive(Clone, Copy, Debug)]
pub struct DeviceDescriptor<'a> {
    pub label: Option<&'a str>,
    pub features: u64,
    pub limits: Limits,
}

/// The limits of a device request, as WebGPU receives them (`web_sys::GpuLimits`): only the number
/// of bind groups is passed on.
#[derive(Clone, Copy, Debug, PartialEq, Eq, Structural)]
pub struct GpuLimits {
    pub max_bind_groups: u32,
}

/// A device request, as WebGPU describes it (`web_sys::GpuDeviceDescriptor`).
#[derive(Clone, Copy, Debug, PartialEq, Eq, Structural)]
pub struct GpuDeviceDescriptor {
    pub limits: GpuLimits,
}

/// Why the web backend turns a device request down, if it does: it has none of the native-only
/// features, and names those asked for.
pub open spec fn device_unsupported(desc: DeviceDescriptor) -> Option<Unsupported> {
    let native = desc.features & native_features();
    if native != 0 {
        Some(Unsupported::NativeFeatures(native))
    } else {
        None
    }
}

/// Checks whether the web backend can grant a device request, naming the native-only features
/// asked for if it cannot.
pub fn check_device(desc: &DeviceDescriptor) -> (checked: Result<(), Unsupported>)
    ensures
        checked == match device_unsupported(*desc) {
            Some(reason) => Err(reason),
            None => Ok::<(), Unsupported>(()),
        },
{
    let native = desc.features & all_native_features();
    if native != 0 {
        Err(Unsupported::NativeFeatures(native))
    } else {
        Ok(())
    }
}

/// Maps a device request to its WebGPU descriptor.
pub fn map_device_descriptor(desc: &DeviceDescriptor) -> (mapped: GpuDeviceDescriptor)
    requires
        device_unsupported(*desc) is None,
    ensures
        mapped.limits.max_bind_groups == desc.limits.max_bind_groups,
{
    GpuDeviceDescriptor { limits: GpuLimits { max_bind_groups: desc.limits.max_bind_groups } }
}

/// A device request is granted exactly when it asks only for features of the WebGPU standard
/// (`wgpu_types::Features::ALL_WEBGPU`, the low 16 bits).
pub proof fn device_granted_iff_webgpu_features(desc: DeviceDescriptor)
    ensures
        device_unsupported(desc) is None <==> desc.features <= 0xFFFF,
{
    let features = desc.features;
    assert((features & 0xFFFF_FFFF_FFFF_0000u64 == 0) <==> features <= 0xFFFF) by (bit_vector);
}

/// The features of adapters and devices on the web (`adapter_features`, `device_features`): the
/// browser does not tell them, so none are reported.
pub fn web_features() -> (features: u64)
    ensures
        features == 0,
{
    0
}

/// A failed device request (`wgpu::RequestDeviceError`).
#[derive(Clone, Copy, Debug, PartialEq, Eq, Structural)]
pub struct RequestDeviceError;

/// A failed buffer mapping (`wgpu::BufferAsyncError`).
#[derive(Clone, Copy, Debug, PartialEq, Eq, Structural)]
pub struct BufferAsyncError;

/// What the settled promise of an adapter request becomes: the adapter if it was fulfilled, none
/// if it was rejected.
pub fn future_request_adapter<A, E>(result: Result<A, E>) -> (adapter: Option<A>)
    ensures
        adapter == match result {
            Ok(a) => Some(a),
            Err(_) => None::<A>,
        },
{
    match result {
        Ok(a) => Some(a),
        Err(_) => None,
    }
}

/// What the settled promise of a device request becomes: the device if it was fulfilled, a
/// request error if it was rejected.
pub fn future_request_device<D, E>(result: Result<D, E>) -> (device: Result<D, RequestDeviceError>)
    ensures
        device == match result {
            Ok(d) => Ok(d),
            Err(_) => Err::<D, RequestDeviceError>(RequestDeviceError),
        },
{
    match result {
        Ok(d) => Ok(d),
        Err(_) => Err(RequestDeviceError),
    }
}

/// What the settled promise of a buffer mapping becomes: success if it was fulfilled, a mapping
/// error if it was rejected.
pub fn future_map_async<V, E>(result: Result<V, E>) -> (mapped: Result<(), BufferAsyncError>)
    ensures
        mapped == match result {
            Ok(_) => Ok(()),
            Err(_) => Err::<(), BufferAsyncError>(BufferAsyncError),
        },
{
    match result {
        Ok(_) => Ok(()),
        Err(_) => Err(BufferAsyncError),
    }
}

/// A kind of physical device, as wgpu describes it (`wgpu_types::DeviceType`).
#[derive(Clone, Copy, Debug, PartialEq, Eq, Structural)]
pub enum DeviceType {
    Other,
    IntegratedGpu,
    DiscreteGpu,
    VirtualGpu,
    Cpu,
}

/// A graphics backend, as wgpu describes it (`wgpu_types::Backend`).
#[derive(Clone, Copy, Debug, PartialEq, Eq, Structural)]
pub enum Backend {
    Empty,
    Vulkan,
    Metal,
    Dx12,
    Dx11,
    Gl,
    BrowserWebGpu,
}

/// What is known of an adapter, as wgpu describes it (`wgpu_types::AdapterInfo`).
#[derive(Debug)]
pub struct AdapterInfo {
    pub name: String,
    pub vendor: usize,
    pub device: usize,
    pub device_type: DeviceType,
    pub backend: Backend,
}

/// What the web backend reports of any adapter (`adapter_get_info`): the browser tells nothing, so
/// the name is empty, the ids are zero, the device type is "other", and the backend is the
/// browser's WebGPU.
pub fn web_adapter_info() -> (info: AdapterInfo)
    ensures
        info.name@ == Seq::<char>::empty(),
        info.vendor == 0,
        info.device == 0,
        info.device_type == DeviceType::Other,
        info.backend == Backend::BrowserWebGpu,
{
    AdapterInfo {
        name: String::new(),
        vendor: 0,
        device: 0,
        device_type: DeviceType::Other,
        backend: Backend::BrowserWebGpu,
    }
}

} // verus!
