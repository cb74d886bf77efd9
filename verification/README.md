# wgpu_web

The WebGPU backend of wgpu, as a verified library: how wgpu's descriptions of resources,
pipelines, passes and devices become the descriptions that the browser's WebGPU API takes.

- `src/` is the library, verified with Verus. Each module pairs wgpu's types (`TextureFormat`,
  `RenderPipelineDescriptor`, ...) with their WebGPU counterparts (`GpuTextureFormat`,
  `GpuRenderPipelineDescriptor`, ...) and maps one to the other; a `check_*` function names the
  first thing in a request that the web cannot express, and the `map_*` function of that request
  requires that there is none. Resource handles are type parameters, so the library never holds a
  browser object.
  - `format`, `state`: texture and vertex formats and the small enumerations of pipeline state.
  - `pipeline`, `binding`, `pass`, `resource`, `device`: the descriptors.
  - `shader`: the shader module descriptor, built from SPIR-V words (naga translates WGSL in `app/`).
  - `surface`: the CSS selector of a canvas.
  - `support`: why a request is turned down.
- `app/` hands the library's results to the browser through `web_sys` (whose WebGPU bindings need
  `--cfg=web_sys_unstable_apis`), converts wgpu's own types to the library's, and fails as wgpu's
  web backend does on what the web cannot express.
- `tests/` runs the library on concrete values.
