//! The WebGPU backend of wgpu: how wgpu's descriptions of resources, pipelines and passes become
//! the descriptions that the browser's WebGPU API takes.
use vstd::prelude::*;

pub mod format;
pub mod semantics;
pub mod state;
pub mod pipeline;
pub mod support;
pub mod binding;
pub mod pass;
pub mod resource;
pub mod device;
pub mod shader;
pub mod surface;

verus! {
} // verus!
