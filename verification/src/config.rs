//! Configuration and Quality Presets

use vstd::prelude::*;
use vstd::string::StringExecFns;
use crate::ieee::{at_most_zero, is_at_most_zero, BITS_0_5, BITS_1_0, BITS_1_5, BITS_2_0};

verus! {

/// Quality Level Preset
#[derive(Debug, Clone, Copy, PartialEq, Eq, Structural)]
pub enum QualityLevel {
    Low,
    Medium,
    High,
    Ultra,
    Custom,
}

impl Default for QualityLevel {
    fn default() -> (level: Self)
        ensures
            level == QualityLevel::Medium,
    {
        QualityLevel::Medium
    }
}

#[derive(Debug, Clone, Copy, PartialEq, Eq, Structural)]
pub struct LightingConfig {
    pub max_lights: u32,
    pub cluster_depth: u32,
}

#[derive(Debug, Clone, Copy, PartialEq, Eq, Structural)]
pub struct ShadowConfig {
    pub enabled: bool,
    pub resolution: u32,
    pub cascades: u32,
}

#[derive(Debug, Clone, Copy, PartialEq, Eq, Structural)]
pub enum GiQuality {
    Low,
    High,
}

#[derive(Debug, Clone, Copy, PartialEq, Eq, Structural)]
pub struct GiConfig {
    pub enabled: bool,
    pub quality: GiQuality,
}

/// The settings of the meshing.
#[derive(Debug, Clone, Copy, PartialEq, Eq, Structural)]
pub struct MeshingConfig {
    /// The scale of the distances at which the level of detail changes: the
    /// bits of a 32-bit IEEE 754 number.
    pub lod_distance_scale: u32,
}

/// Main Configuration Structure
#[derive(Debug, Clone, Copy, PartialEq, Eq, Structural)]
pub struct HeartOnConfig {
    pub quality_level: QualityLevel,
    pub lighting: LightingConfig,
    pub shadows: ShadowConfig,
    pub gi: GiConfig,
    pub meshing: MeshingConfig,
}

impl LightingConfig {
    pub fn validate(&self) -> (r: Result<(), String>)
        ensures
            r.is_ok() == (self.max_lights <= 10000),
            r matches Err(message) ==> message@ == "Max lights cannot exceed 10000"@,
    {
        if self.max_lights > 10000 {
            return Err(String::from_str("Max lights cannot exceed 10000"));
        }
        Ok(())
    }
}

impl ShadowConfig {
    pub fn validate(&self) -> (r: Result<(), String>)
        ensures
            r.is_ok() == (self.resolution <= 8192),
            r matches Err(message) ==> message@ == "Shadow resolution too high"@,
    {
        if self.resolution > 8192 {
            return Err(String::from_str("Shadow resolution too high"));
        }
        Ok(())
    }
}

impl GiConfig {
    pub fn validate(&self) -> (r: Result<(), String>)
        ensures
            r.is_ok(),
    {
        Ok(())
    }
}

impl MeshingConfig {
    pub fn validate(&self) -> (r: Result<(), String>)
        ensures
            r.is_ok() == !is_at_most_zero(self.lod_distance_scale),
            r matches Err(message) ==> message@ == "LOD distance scale must be positive"@,
    {
        if at_most_zero(self.lod_distance_scale) {
            return Err(String::from_str("LOD distance scale must be positive"));
        }
        Ok(())
    }
}

impl Default for HeartOnConfig {
    fn default() -> (config: Self)
        ensures
            config == HeartOnConfig::preset_spec(QualityLevel::Medium),
    {
        Self::preset(QualityLevel::Medium)
    }
}

impl HeartOnConfig {
    /// The config of a preset. The custom level has no preset of its own
    /// and gets that of the medium level.
    pub open spec fn preset_spec(level: QualityLevel) -> HeartOnConfig {
        match level {
            QualityLevel::Low => HeartOnConfig {
                quality_level: QualityLevel::Low,
                lighting: LightingConfig { max_lights: 100, cluster_depth: 0 },
                shadows: ShadowConfig { enabled: false, resolution: 0, cascades: 0 },
                gi: GiConfig { enabled: false, quality: GiQuality::Low },
                meshing: MeshingConfig { lod_distance_scale: BITS_0_5 },
            },
            QualityLevel::Medium | QualityLevel::Custom => HeartOnConfig {
                quality_level: QualityLevel::Medium,
                lighting: LightingConfig { max_lights: 500, cluster_depth: 0 },
                shadows: ShadowConfig { enabled: true, resolution: 1024, cascades: 0 },
                gi: GiConfig { enabled: false, quality: GiQuality::Low },
                meshing: MeshingConfig { lod_distance_scale: BITS_1_0 },
            },
            QualityLevel::High => HeartOnConfig {
                quality_level: QualityLevel::High,
                lighting: LightingConfig { max_lights: 1000, cluster_depth: 0 },
                shadows: ShadowConfig { enabled: true, resolution: 2048, cascades: 0 },
                gi: GiConfig { enabled: true, quality: GiQuality::Low },
                meshing: MeshingConfig { lod_distance_scale: BITS_1_5 },
            },
            QualityLevel::Ultra => HeartOnConfig {
                quality_level: QualityLevel::Ultra,
                lighting: LightingConfig { max_lights: 2000, cluster_depth: 0 },
                shadows: ShadowConfig { enabled: true, resolution: 4096, cascades: 0 },
                gi: GiConfig { enabled: true, quality: GiQuality::High },
                meshing: MeshingConfig { lod_distance_scale: BITS_2_0 },
            },
        }
    }

    /// Create a config based on a preset
    pub fn preset(level: QualityLevel) -> (config: Self)
        ensures
            config == Self::preset_spec(level),
    {
        match level {
            QualityLevel::Low => HeartOnConfig {
                quality_level: QualityLevel::Low,
                lighting: LightingConfig { max_lights: 100, cluster_depth: 0 },
                shadows: ShadowConfig { enabled: false, resolution: 0, cascades: 0 },
                gi: GiConfig { enabled: false, quality: GiQuality::Low },
                meshing: MeshingConfig { lod_distance_scale: BITS_0_5 },
            },
            QualityLevel::Medium | QualityLevel::Custom => HeartOnConfig {
                quality_level: QualityLevel::Medium,
                lighting: LightingConfig { max_lights: 500, cluster_depth: 0 },
                shadows: ShadowConfig { enabled: true, resolution: 1024, cascades: 0 },
                gi: GiConfig { enabled: false, quality: GiQuality::Low },
                meshing: MeshingConfig { lod_distance_scale: BITS_1_0 },
            },
            QualityLevel::High => HeartOnConfig {
                quality_level: QualityLevel::High,
                lighting: LightingConfig { max_lights: 1000, cluster_depth: 0 },
                shadows: ShadowConfig { enabled: true, resolution: 2048, cascades: 0 },
                gi: GiConfig { enabled: true, quality: GiQuality::Low },
                meshing: MeshingConfig { lod_distance_scale: BITS_1_5 },
            },
            QualityLevel::Ultra => HeartOnConfig {
                quality_level: QualityLevel::Ultra,
                lighting: LightingConfig { max_lights: 2000, cluster_depth: 0 },
                shadows: ShadowConfig { enabled: true, resolution: 4096, cascades: 0 },
                gi: GiConfig { enabled: true, quality: GiQuality::High },
                meshing: MeshingConfig { lod_distance_scale: BITS_2_0 },
            },
        }
    }

    /// What is wrong with the config, if anything: the first complaint of
    /// lighting, shadows and meshing, in this order.
    pub open spec fn complaint(self) -> Option<Seq<char>> {
        if self.lighting.max_lights > 10000 {
            Some("Max lights cannot exceed 10000"@)
        } else if self.shadows.resolution > 8192 {
            Some("Shadow resolution too high"@)
        } else if is_at_most_zero(self.meshing.lod_distance_scale) {
            Some("LOD distance scale must be positive"@)
        } else {
            None
        }
    }

    /// Validate the configuration
    pub fn validate(&self) -> (r: Result<(), String>)
        ensures
            match r {
                Ok(_) => self.complaint() is None,
                Err(message) => self.complaint() == Some(message@),
            },
    {
        match self.lighting.validate() {
            Ok(()) => {},
            Err(e) => {
                return Err(e);
            },
        }
        match self.shadows.validate() {
            Ok(()) => {},
            Err(e) => {
                return Err(e);
            },
        }
        match self.gi.validate() {
            Ok(()) => {},
            Err(e) => {
                return Err(e);
            },
        }
        match self.meshing.validate() {
            Ok(()) => {},
            Err(e) => {
                return Err(e);
            },
        }
        Ok(())
    }
}

} // verus!
