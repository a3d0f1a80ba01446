//! Configuration overrides for GPU capabilities

use vstd::prelude::*;
use super::{GpuCapabilities, RenderingPath};

verus! {

/// Plugin configuration for capability overrides
#[derive(Debug, Clone, Copy, PartialEq, Eq, Structural)]
pub struct CapabilityConfig {
    /// Force a specific rendering path (overrides auto-detection)
    pub force_rendering_path: Option<RenderingPath>,
    /// Disable async compute even if supported
    pub disable_async_compute: bool,
}

impl Default for CapabilityConfig {
    fn default() -> (config: Self)
        ensures
            config == (CapabilityConfig {
                force_rendering_path: None,
                disable_async_compute: false,
            }),
    {
        CapabilityConfig { force_rendering_path: None, disable_async_compute: false }
    }
}

impl CapabilityConfig {
    /// Create a new config with forced rendering path
    pub fn with_rendering_path(self, path: RenderingPath) -> (config: Self)
        ensures
            config == (CapabilityConfig { force_rendering_path: Some(path), ..self }),
    {
        let mut config = self;
        config.force_rendering_path = Some(path);
        config
    }

    /// Disable async compute
    pub fn disable_async_compute(self) -> (config: Self)
        ensures
            config == (CapabilityConfig { disable_async_compute: true, ..self }),
    {
        let mut config = self;
        config.disable_async_compute = true;
        config
    }
}

/// Apply capability overrides from config
///
/// A forced rendering path replaces the selected one, and async compute is
/// switched off where the config disables it.
pub fn apply_capability_overrides(config: &CapabilityConfig, gpu_caps: &mut GpuCapabilities)
    ensures
        final(gpu_caps).rendering_path == match config.force_rendering_path {
            Some(path) => path,
            None => old(gpu_caps).rendering_path,
        },
        final(gpu_caps).supports_async_compute == (old(gpu_caps).supports_async_compute
            && !config.disable_async_compute),
        final(gpu_caps).vulkan_version == old(gpu_caps).vulkan_version,
        final(gpu_caps).supports_task_mesh == old(gpu_caps).supports_task_mesh,
        final(gpu_caps).device_name == old(gpu_caps).device_name,
        final(gpu_caps).vram_mb == old(gpu_caps).vram_mb,
        final(gpu_caps).backend == old(gpu_caps).backend,
{
    match config.force_rendering_path {
        Some(path) => {
            gpu_caps.rendering_path = path;
        },
        None => {},
    }
    if config.disable_async_compute {
        gpu_caps.supports_async_compute = false;
    }
}

} // verus!
