//! GPU capability detection

use vstd::prelude::*;
use vstd::string::StringExecFns;

pub mod override_config;

verus! {

/// Rendering path selection based on GPU capabilities
#[derive(Debug, Clone, Copy, PartialEq, Eq, Structural)]
pub enum RenderingPath {
    /// Task/Mesh shader pipeline (optimal for modern GPUs)
    TaskMesh,
    /// Compute + `ExecuteIndirect` fallback (older GPUs)
    ComputeIndirect,
}

impl Default for RenderingPath {
    fn default() -> (path: Self)
        ensures
            path == RenderingPath::ComputeIndirect,
    {
        RenderingPath::ComputeIndirect
    }
}

/// The graphics API that an adapter is driven through.
#[derive(Debug, Clone, Copy, PartialEq, Eq, Structural)]
pub enum GpuBackend {
    /// No adapter
    Empty,
    Vulkan,
    Metal,
    Dx12,
    Gl,
    BrowserWebGpu,
}

/// What an adapter reports of itself.
#[derive(Debug, Clone)]
pub struct AdapterReport {
    /// GPU device name
    pub name: String,
    /// Backend type
    pub backend: GpuBackend,
    /// The size of the largest buffer the adapter allows, in bytes
    pub max_buffer_size: u64,
}

/// GPU capabilities detected at startup
#[derive(Debug)]
pub struct GpuCapabilities {
    /// Vulkan version (major, minor, patch)
    pub vulkan_version: (u32, u32, u32),
    /// Whether task/mesh shaders are supported (Vulkan 1.3+)
    pub supports_task_mesh: bool,
    /// Whether async compute is supported
    pub supports_async_compute: bool,
    /// GPU device name
    pub device_name: String,
    /// Estimated VRAM in MB
    pub vram_mb: Option<u64>,
    /// Selected rendering path
    pub rendering_path: RenderingPath,
    /// Backend type (Vulkan, Metal, DX12, etc.)
    pub backend: GpuBackend,
}

/// Whether a version is the given one or a later one.
pub open spec fn version_at_least(version: (u32, u32, u32), least: (u32, u32, u32)) -> bool {
    ||| version.0 > least.0
    ||| version.0 == least.0 && version.1 > least.1
    ||| version.0 == least.0 && version.1 == least.1 && version.2 >= least.2
}

fn at_least(version: (u32, u32, u32), least: (u32, u32, u32)) -> (yes: bool)
    ensures
        yes == version_at_least(version, least),
{
    version.0 > least.0 || (version.0 == least.0 && (version.1 > least.1 || (version.1 == least.1
        && version.2 >= least.2)))
}

impl Clone for GpuCapabilities {
    fn clone(&self) -> (copy: Self)
        ensures
            copy == *self,
    {
        GpuCapabilities {
            vulkan_version: (self.vulkan_version.0, self.vulkan_version.1, self.vulkan_version.2),
            supports_task_mesh: self.supports_task_mesh,
            supports_async_compute: self.supports_async_compute,
            device_name: self.device_name.clone(),
            vram_mb: self.vram_mb,
            rendering_path: self.rendering_path,
            backend: self.backend,
        }
    }
}

impl Default for GpuCapabilities {
    fn default() -> (caps: Self)
        ensures
            caps.vulkan_version == (1u32, 0u32, 0u32),
            !caps.supports_task_mesh,
            !caps.supports_async_compute,
            caps.device_name@ == "Unknown"@,
            caps.vram_mb is None,
            caps.rendering_path == RenderingPath::ComputeIndirect,
            caps.backend == GpuBackend::Empty,
    {
        GpuCapabilities {
            vulkan_version: (1, 0, 0),
            supports_task_mesh: false,
            supports_async_compute: false,
            device_name: String::from_str("Unknown"),
            vram_mb: None,
            rendering_path: RenderingPath::ComputeIndirect,
            backend: GpuBackend::Empty,
        }
    }
}

impl GpuCapabilities {
    /// The rendering path that suits the capabilities best: task and mesh
    /// shaders where they are supported on Vulkan 1.3 or later, and compute
    /// with indirect execution else.
    pub open spec fn best_rendering_path(self) -> RenderingPath {
        if self.supports_task_mesh && version_at_least(self.vulkan_version, (1, 3, 0)) {
            RenderingPath::TaskMesh
        } else {
            RenderingPath::ComputeIndirect
        }
    }

    /// Select the optimal rendering path based on capabilities
    pub fn select_rendering_path(&self) -> (path: RenderingPath)
        ensures
            path == self.best_rendering_path(),
    {
        if self.supports_task_mesh && at_least(self.vulkan_version, (1, 3, 0)) {
            RenderingPath::TaskMesh
        } else {
            RenderingPath::ComputeIndirect
        }
    }

    /// Whether there is an adapter, and one that is either not driven
    /// through Vulkan or through Vulkan 1.1 at least.
    pub open spec fn meets_minimum(self) -> bool {
        self.backend != GpuBackend::Empty && (self.backend != GpuBackend::Vulkan
            || version_at_least(self.vulkan_version, (1, 1, 0)))
    }

    /// Check if GPU meets minimum requirements
    pub fn meets_minimum_requirements(&self) -> (enough: bool)
        ensures
            enough == self.meets_minimum(),
    {
        // Require at least Vulkan 1.1 or equivalent
        self.backend != GpuBackend::Empty && (self.backend == GpuBackend::Vulkan && at_least(
            self.vulkan_version,
            (1, 1, 0),
        ) || self.backend != GpuBackend::Vulkan)
    }
}

/// Takes over what an adapter reports, where one was found.
///
/// The name and the backend are the adapter's. A Vulkan backend is taken
/// to be of version 1.2. Task and mesh shaders count as unsupported and
/// async compute as supported. The VRAM is estimated as the largest buffer
/// size, in whole MB. The rendering path is selected from all that.
/// Without an adapter nothing changes.
pub fn detect_gpu_capabilities(gpu_caps: &mut GpuCapabilities, adapter: Option<AdapterReport>)
    ensures
        match adapter {
            Some(report) => {
                &&& final(gpu_caps).device_name == report.name
                &&& final(gpu_caps).backend == report.backend
                &&& final(gpu_caps).vulkan_version == if report.backend == GpuBackend::Vulkan {
                    (1u32, 2u32, 0u32)
                } else {
                    old(gpu_caps).vulkan_version
                }
                &&& !final(gpu_caps).supports_task_mesh
                &&& final(gpu_caps).supports_async_compute
                &&& final(gpu_caps).vram_mb == Some((report.max_buffer_size / 1_048_576u64) as u64)
                &&& final(gpu_caps).rendering_path == RenderingPath::ComputeIndirect
            },
            None => *final(gpu_caps) == *old(gpu_caps),
        },
{
    match adapter {
        Some(report) => {
            gpu_caps.device_name = report.name;
            gpu_caps.backend = report.backend;

            // Check for Vulkan and its version
            if report.backend == GpuBackend::Vulkan {
                gpu_caps.vulkan_version = (1, 2, 0);
            }
            // Task/mesh shaders require Vulkan 1.3+ and specific extensions

            gpu_caps.supports_task_mesh = false;

            // Most modern GPUs support async compute with multiple queue families
            gpu_caps.supports_async_compute = true;

            // Estimate VRAM from max buffer size (rough approximation)
            gpu_caps.vram_mb = Some(report.max_buffer_size / (1024 * 1024));

            // Select rendering path based on capabilities
            gpu_caps.rendering_path = gpu_caps.select_rendering_path();
        },
        None => {},
    }
}

} // verus!
