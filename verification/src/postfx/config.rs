//! The chain of post-processing effects and its presets.
//!
//! The settings of the effects are numbers that the effects compute with
//! and this module only keeps: it holds each as the 32 bits of its IEEE 754
//! form.

use vstd::prelude::*;
use vstd::string::StringExecFns;
use crate::ieee::{BITS_0_3, BITS_0_4, BITS_0_5, BITS_0_6, BITS_0_8, BITS_1_0, BITS_1_2};

verus! {

/// The effects to apply, in their order.
#[derive(Debug, Clone)]
pub struct PostFxConfig {
    pub chain: Vec<EffectConfig>,
    pub enabled: bool,
}

/// One effect of the chain with its settings.
#[derive(Debug, Clone)]
pub struct EffectConfig {
    pub effect_type: String,
    pub enabled: bool,
    /// The settings by name, no name twice.
    pub params: Vec<(String, EffectParam)>,
}

/// The value of a setting.
#[derive(Debug, Clone)]
pub enum EffectParam {
    /// The bits of a number.
    Float(u32),
    Int(i32),
    Bool(bool),
    String(String),
    /// The bits of two numbers.
    Vec2([u32; 2]),
    /// The bits of three numbers.
    Vec3([u32; 3]),
    /// The bits of four numbers.
    Vec4([u32; 4]),
}

impl EffectParam {
    pub fn as_float(&self) -> (value: Option<u32>)
        ensures
            value == match *self {
                EffectParam::Float(v) => Some(v),
                _ => None,
            },
    {
        match self {
            EffectParam::Float(v) => Some(*v),
            _ => None,
        }
    }

    pub fn as_int(&self) -> (value: Option<i32>)
        ensures
            value == match *self {
                EffectParam::Int(v) => Some(v),
                _ => None,
            },
    {
        match self {
            EffectParam::Int(v) => Some(*v),
            _ => None,
        }
    }

    pub fn as_bool(&self) -> (value: Option<bool>)
        ensures
            value == match *self {
                EffectParam::Bool(v) => Some(v),
                _ => None,
            },
    {
        match self {
            EffectParam::Bool(v) => Some(*v),
            _ => None,
        }
    }

    pub fn as_vec3(&self) -> (value: Option<[u32; 3]>)
        ensures
            value == match *self {
                EffectParam::Vec3(v) => Some(v),
                _ => None,
            },
    {
        match self {
            EffectParam::Vec3(v) => Some(*v),
            _ => None,
        }
    }
}

#[derive(Debug, Clone)]
pub struct EffectChain {
    pub effects: Vec<EffectConfig>,
}

/// Whether the effect is enabled, of the given type, and has exactly the
/// given settings, each the bits of a number.
pub open spec fn is_effect(
    config: EffectConfig,
    effect_type: Seq<char>,
    params: Seq<(Seq<char>, u32)>,
) -> bool {
    &&& config.effect_type@ == effect_type
    &&& config.enabled
    &&& config.params@.len() == params.len()
    &&& forall|i: int|
        0 <= i < params.len() ==> (#[trigger] config.params@[i]).0@ == params[i].0
            && config.params@[i].1 == EffectParam::Float(params[i].1)
}

/// An enabled bloom effect.
fn bloom(threshold: u32, intensity: u32) -> (config: EffectConfig)
    ensures
        is_effect(
            config,
            "simple_bloom"@,
            seq![("threshold"@, threshold), ("intensity"@, intensity)],
        ),
{
    let mut params: Vec<(String, EffectParam)> = Vec::new();
    params.push((String::from_str("threshold"), EffectParam::Float(threshold)));
    params.push((String::from_str("intensity"), EffectParam::Float(intensity)));
    EffectConfig { effect_type: String::from_str("simple_bloom"), enabled: true, params }
}

/// An enabled tone mapping effect.
fn tone_mapping(exposure: u32) -> (config: EffectConfig)
    ensures
        is_effect(config, "tone_mapping"@, seq![("exposure"@, exposure)]),
{
    let mut params: Vec<(String, EffectParam)> = Vec::new();
    params.push((String::from_str("exposure"), EffectParam::Float(exposure)));
    EffectConfig { effect_type: String::from_str("tone_mapping"), enabled: true, params }
}

/// An enabled vignette effect.
fn vignette(intensity: u32, smoothness: u32) -> (config: EffectConfig)
    ensures
        is_effect(
            config,
            "vignette"@,
            seq![("intensity"@, intensity), ("smoothness"@, smoothness)],
        ),
{
    let mut params: Vec<(String, EffectParam)> = Vec::new();
    params.push((String::from_str("intensity"), EffectParam::Float(intensity)));
    params.push((String::from_str("smoothness"), EffectParam::Float(smoothness)));
    EffectConfig { effect_type: String::from_str("vignette"), enabled: true, params }
}

/// Whether the config is enabled and its chain is bloom, tone mapping and
/// vignette with the given settings.
pub open spec fn is_full_chain(
    config: PostFxConfig,
    bloom_threshold: u32,
    bloom_intensity: u32,
    exposure: u32,
    vignette_intensity: u32,
    vignette_smoothness: u32,
) -> bool {
    &&& config.enabled
    &&& config.chain@.len() == 3
    &&& is_effect(
        config.chain@[0],
        "simple_bloom"@,
        seq![("threshold"@, bloom_threshold), ("intensity"@, bloom_intensity)],
    )
    &&& is_effect(config.chain@[1], "tone_mapping"@, seq![("exposure"@, exposure)])
    &&& is_effect(
        config.chain@[2],
        "vignette"@,
        seq![("intensity"@, vignette_intensity), ("smoothness"@, vignette_smoothness)],
    )
}

impl Default for PostFxConfig {
    /// Bloom from 0.8 on with intensity 0.3, tone mapping with exposure
    /// 1.0, and a vignette of intensity 0.3 and smoothness 0.5.
    fn default() -> (config: Self)
        ensures
            is_full_chain(config, BITS_0_8, BITS_0_3, BITS_1_0, BITS_0_3, BITS_0_5),
    {
        let mut chain: Vec<EffectConfig> = Vec::new();
        chain.push(bloom(BITS_0_8, BITS_0_3));
        chain.push(tone_mapping(BITS_1_0));
        chain.push(vignette(BITS_0_3, BITS_0_5));
        PostFxConfig { chain, enabled: true }
    }
}

impl PostFxConfig {
    /// Tone mapping with exposure 1.0, and nothing else.
    pub fn performance() -> (config: Self)
        ensures
            config.enabled,
            config.chain@.len() == 1,
            is_effect(config.chain@[0], "tone_mapping"@, seq![("exposure"@, BITS_1_0)]),
    {
        let mut chain: Vec<EffectConfig> = Vec::new();
        chain.push(tone_mapping(BITS_1_0));
        PostFxConfig { chain, enabled: true }
    }

    /// Bloom from 0.6 on with intensity 0.5, tone mapping with exposure
    /// 1.2, and a vignette of intensity 0.5 and smoothness 0.4.
    pub fn cinematic() -> (config: Self)
        ensures
            is_full_chain(config, BITS_0_6, BITS_0_5, BITS_1_2, BITS_0_5, BITS_0_4),
    {
        let mut chain: Vec<EffectConfig> = Vec::new();
        chain.push(bloom(BITS_0_6, BITS_0_5));
        chain.push(tone_mapping(BITS_1_2));
        chain.push(vignette(BITS_0_5, BITS_0_4));
        PostFxConfig { chain, enabled: true }
    }
}

} // verus!
