//! The post-processing effects, and what they read and write.
//!
//! The settings of the effects and the estimates of their cost are numbers
//! that this module only keeps: it holds each as the 32 bits of its IEEE 754
//! form.

use vstd::prelude::*;
use crate::ieee::{BITS_0_1, BITS_0_2, BITS_0_3, BITS_0_5, BITS_0_8, BITS_1_0, BITS_1_5};

verus! {

/// How much work an effect may spend.
#[derive(Debug, Clone, Copy, PartialEq, Eq, Structural)]
pub enum EffectQuality {
    Low,
    Medium,
    High,
}

/// The pixel format of an effect's input.
#[derive(Debug, Clone, Copy, PartialEq, Eq, Structural)]
pub enum EffectFormat {
    RGBA8,
    RGBA16F,
    RGB10A2,
}

impl EffectFormat {
    /// The number of bytes one pixel takes.
    pub open spec fn bytes_per_pixel_spec(self) -> nat {
        match self {
            EffectFormat::RGBA8 => 4,
            EffectFormat::RGBA16F => 8,
            EffectFormat::RGB10A2 => 4,
        }
    }

    /// The number of bytes one pixel takes.
    pub fn bytes_per_pixel(self) -> (bytes: usize)
        ensures
            bytes == self.bytes_per_pixel_spec(),
    {
        match self {
            EffectFormat::RGBA8 => 4,
            EffectFormat::RGBA16F => 8,
            EffectFormat::RGB10A2 => 4,
        }
    }
}

/// The image an effect is applied to.
#[derive(Debug, Clone, Copy, PartialEq, Eq, Structural)]
pub struct EffectInput {
    pub width: u32,
    pub height: u32,
    pub format: EffectFormat,
}

impl EffectInput {
    /// The number of bytes the image takes: its pixels times the bytes of a
    /// pixel.
    pub open spec fn byte_len(self) -> nat {
        (self.width * self.height * self.format.bytes_per_pixel_spec()) as nat
    }
}

/// The bytes an effect produces.
#[derive(Debug, Clone)]
pub struct EffectOutput {
    pub data: Vec<u8>,
}

impl EffectOutput {
    /// An output without bytes, with room for `capacity` of them.
    pub fn new(capacity: usize) -> (output: Self)
        ensures
            output.data@ == Seq::<u8>::empty(),
    {
        EffectOutput { data: Vec::with_capacity(capacity) }
    }

    /// Makes the output as long as the input's image. Bytes within the new
    /// length stay as they are, and zeros fill what is added.
    ///
    /// The number of pixels must fit in 32 bits, and the number of bytes in
    /// the machine's word.
    pub fn resize_for(&mut self, input: &EffectInput)
        requires
            input.width * input.height <= u32::MAX,
            input.byte_len() <= usize::MAX,
        ensures
            is_sized_for(*old(self), *input, *final(self)),
    {
        let pixel_count = (input.width * input.height) as usize;
        let bytes_per_pixel = input.format.bytes_per_pixel();
        self.data.resize(pixel_count * bytes_per_pixel, 0);
    }
}

/// An effect of the post-processing chain.
pub trait PostEffect: Send + Sync {
    /// The name of the effect.
    fn name(&self) -> &str;

    /// Applies the effect to the input.
    ///
    /// The number of pixels of the input must fit in 32 bits, and the number
    /// of its bytes in the machine's word.
    fn apply(&self, input: &EffectInput, output: &mut EffectOutput) -> Result<(), String>
        requires
            input.width * input.height <= u32::MAX,
            input.byte_len() <= usize::MAX,
    ;

    /// The bits of the time on the GPU that the effect is expected to take,
    /// in milliseconds.
    fn gpu_time_estimate(&self) -> u32;

    /// Whether the effect is switched on.
    fn is_enabled(&self) -> bool;
}

/// What `apply` leaves in the output: as many bytes as the input's image
/// has, those that were there before as they were, and zeros after them.
pub open spec fn is_sized_for(before: EffectOutput, input: EffectInput, after: EffectOutput) -> bool {
    &&& after.data@.len() == input.byte_len()
    &&& forall|i: int|
        0 <= i < input.byte_len() ==> after.data@[i] == if i < before.data@.len() {
            before.data@[i]
        } else {
            0u8
        }
}

/// What every effect can be told.
#[derive(Debug, Clone, Copy, PartialEq, Eq, Structural)]
pub struct PostEffectParams {
    /// The bits of the intensity.
    pub intensity: u32,
    pub enabled: bool,
}

impl Default for PostEffectParams {
    /// Intensity 1.0, enabled.
    fn default() -> (params: Self)
        ensures
            params == (PostEffectParams { intensity: BITS_1_0, enabled: true }),
    {
        PostEffectParams { intensity: BITS_1_0, enabled: true }
    }
}

/// A bloom around what is brighter than a threshold.
#[derive(Debug, Clone, Copy, PartialEq, Eq, Structural)]
pub struct SimpleBloom {
    /// The bits of the threshold.
    pub threshold: u32,
    /// The bits of the intensity.
    pub intensity: u32,
    pub quality: EffectQuality,
    pub enabled: bool,
}

impl Default for SimpleBloom {
    /// Threshold 1.0, intensity 0.5, medium quality, enabled.
    fn default() -> (bloom: Self)
        ensures
            bloom == (SimpleBloom {
                threshold: BITS_1_0,
                intensity: BITS_0_5,
                quality: EffectQuality::Medium,
                enabled: true,
            }),
    {
        SimpleBloom {
            threshold: BITS_1_0,
            intensity: BITS_0_5,
            quality: EffectQuality::Medium,
            enabled: true,
        }
    }
}

impl PostEffect for SimpleBloom {
    fn name(&self) -> (name: &str)
        ensures
            name@ == "SimpleBloom"@,
    {
        "SimpleBloom"
    }

    fn apply(&self, input: &EffectInput, output: &mut EffectOutput) -> (r: Result<(), String>)
        ensures
            r.is_ok(),
            is_sized_for(*old(output), *input, *final(output)),
    {
        output.resize_for(input);
        Ok(())
    }

    /// 0.3, 0.8 or 1.5 milliseconds, by quality.
    fn gpu_time_estimate(&self) -> (bits: u32)
        ensures
            bits == match self.quality {
                EffectQuality::Low => BITS_0_3,
                EffectQuality::Medium => BITS_0_8,
                EffectQuality::High => BITS_1_5,
            },
    {
        match self.quality {
            EffectQuality::Low => BITS_0_3,
            EffectQuality::Medium => BITS_0_8,
            EffectQuality::High => BITS_1_5,
        }
    }

    fn is_enabled(&self) -> (enabled: bool)
        ensures
            enabled == self.enabled,
    {
        self.enabled
    }
}

/// The curve that maps scene brightness to display brightness.
#[derive(Debug, Clone, Copy, PartialEq, Eq, Structural)]
pub enum ToneMappingMode {
    /// Brightness is left as it is.
    Off,
    Reinhard,
    Aces,
    Uncharted2,
}

/// The mapping of scene brightness to display brightness.
#[derive(Debug, Clone, Copy, PartialEq, Eq, Structural)]
pub struct ToneMapping {
    pub mode: ToneMappingMode,
    /// The bits of the exposure.
    pub exposure: u32,
    pub enabled: bool,
}

impl Default for ToneMapping {
    /// The ACES curve with exposure 1.0, enabled.
    fn default() -> (mapping: Self)
        ensures
            mapping == (ToneMapping {
                mode: ToneMappingMode::Aces,
                exposure: BITS_1_0,
                enabled: true,
            }),
    {
        ToneMapping { mode: ToneMappingMode::Aces, exposure: BITS_1_0, enabled: true }
    }
}

impl PostEffect for ToneMapping {
    fn name(&self) -> (name: &str)
        ensures
            name@ == "ToneMapping"@,
    {
        "ToneMapping"
    }

    fn apply(&self, input: &EffectInput, output: &mut EffectOutput) -> (r: Result<(), String>)
        ensures
            r.is_ok(),
            is_sized_for(*old(output), *input, *final(output)),
    {
        output.resize_for(input);
        Ok(())
    }

    /// 0.2 milliseconds.
    fn gpu_time_estimate(&self) -> (bits: u32)
        ensures
            bits == BITS_0_2,
    {
        BITS_0_2
    }

    fn is_enabled(&self) -> (enabled: bool)
        ensures
            enabled == self.enabled,
    {
        self.enabled
    }
}

/// A darkening towards the edges of the image.
#[derive(Debug, Clone, Copy, PartialEq, Eq, Structural)]
pub struct Vignette {
    /// The bits of the intensity.
    pub intensity: u32,
    /// The bits of the smoothness.
    pub smoothness: u32,
    pub enabled: bool,
}

impl Default for Vignette {
    /// Intensity 0.3, smoothness 0.5, enabled.
    fn default() -> (vignette: Self)
        ensures
            vignette == (Vignette { intensity: BITS_0_3, smoothness: BITS_0_5, enabled: true }),
    {
        Vignette { intensity: BITS_0_3, smoothness: BITS_0_5, enabled: true }
    }
}

impl PostEffect for Vignette {
    fn name(&self) -> (name: &str)
        ensures
            name@ == "Vignette"@,
    {
        "Vignette"
    }

    fn apply(&self, input: &EffectInput, output: &mut EffectOutput) -> (r: Result<(), String>)
        ensures
            r.is_ok(),
            is_sized_for(*old(output), *input, *final(output)),
    {
        output.resize_for(input);
        Ok(())
    }

    /// 0.1 milliseconds.
    fn gpu_time_estimate(&self) -> (bits: u32)
        ensures
            bits == BITS_0_1,
    {
        BITS_0_1
    }

    fn is_enabled(&self) -> (enabled: bool)
        ensures
            enabled == self.enabled,
    {
        self.enabled
    }
}

} // verus!
