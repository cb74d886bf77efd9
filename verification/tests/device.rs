use wgpu_web::device::{
    check_device, future_map_async, future_request_adapter, future_request_device,
    map_device_descriptor, map_request_adapter_options, web_adapter_info, web_features, web_limits, Backend,
    BufferAsyncError, DeviceDescriptor, DeviceType, Limits, RequestAdapterOptions,
    RequestDeviceError,
};
use wgpu_web::state::{GpuPowerPreference, PowerPreference};
use wgpu_web::support::Unsupported;

fn default_limits() -> Limits {
    Limits {
        max_bind_groups: 4,
        max_dynamic_uniform_buffers_per_pipeline_layout: 8,
        max_dynamic_storage_buffers_per_pipeline_layout: 4,
        max_sampled_textures_per_shader_stage: 16,
        max_samplers_per_shader_stage: 16,
        max_storage_buffers_per_shader_stage: 4,
        max_storage_textures_per_shader_stage: 4,
        max_uniform_buffers_per_shader_stage: 12,
        max_uniform_buffer_binding_size: 16384,
        max_push_constant_size: 0,
    }
}

#[test]
fn adapter_options_keep_the_power_preference() {
    let mapped = map_request_adapter_options(&RequestAdapterOptions { power_preference: PowerPreference::HighPerformance });
    assert_eq!(mapped.power_preference, GpuPowerPreference::HighPerformance);
}

#[test]
fn webgpu_features_are_granted() {
    let desc = DeviceDescriptor { label: None, features: 0xFFFF, limits: default_limits() };
    assert_eq!(check_device(&desc), Ok(()));
    let mapped = map_device_descriptor(&desc);
    assert_eq!(mapped.limits.max_bind_groups, 4);
}

#[test]
fn native_features_are_refused_and_named() {
    let desc = DeviceDescriptor { label: Some("device"), features: 0x0001_0000, limits: default_limits() };
    assert_eq!(check_device(&desc), Err(Unsupported::NativeFeatures(0x0001_0000)));
    let mixed = DeviceDescriptor { label: None, features: 0x8000_0000_0000_0001, limits: default_limits() };
    assert_eq!(check_device(&mixed), Err(Unsupported::NativeFeatures(0x8000_0000_0000_0000)));
}

#[test]
fn web_reports_no_features() {
    assert_eq!(web_features(), 0);
}

#[test]
fn adapter_info_names_the_browser_backend() {
    let info = web_adapter_info();
    assert_eq!(info.name, "");
    assert_eq!((info.vendor, info.device), (0, 0));
    assert_eq!(info.device_type, DeviceType::Other);
    assert_eq!(info.backend, Backend::BrowserWebGpu);
}

#[test]
fn settled_promises_become_results() {
    assert_eq!(future_request_adapter::<u8, ()>(Ok(3)), Some(3));
    assert_eq!(future_request_adapter::<u8, ()>(Err(())), None);
    assert_eq!(future_request_device::<u8, &str>(Ok(4)), Ok(4));
    assert_eq!(future_request_device::<u8, &str>(Err("lost")), Err(RequestDeviceError));
    assert_eq!(future_map_async::<(), u8>(Ok(())), Ok(()));
    assert_eq!(future_map_async::<(), u8>(Err(1)), Err(BufferAsyncError));
}

#[test]
fn web_reports_wgpu_default_limits() {
    let limits = web_limits();
    assert_eq!(limits, default_limits());
    let wgpu = wgpu_types::Limits::default();
    assert_eq!(limits.max_bind_groups, wgpu.max_bind_groups);
    assert_eq!(limits.max_uniform_buffer_binding_size, wgpu.max_uniform_buffer_binding_size);
    assert_eq!(limits.max_push_constant_size, 0);
}
