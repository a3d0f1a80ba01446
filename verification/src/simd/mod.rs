//! Lane groups, batches of boxes, and the choice of the path they run on.

use vstd::prelude::*;

pub mod geometry;
pub mod laws;
pub mod math;
pub mod soa;
pub mod types;
pub mod visibility;

verus! {

/// The instruction sets a batch can be processed with, most preferred first.
#[derive(Debug, Clone, Copy, PartialEq, Eq, Structural, Hash)]
pub enum SimdPath {
    /// AVX-512 (x86_64)
    AVX512,
    /// AVX2 (x86_64)
    AVX2,
    /// SSE4.2 (x86_64)
    SSE42,
    /// NEON (ARM64)
    NEON,
    /// WASM SIMD128
    Wasm128,
    /// Scalar fallback, present on every machine
    Scalar,
}

/// What the processor reports about its vector extensions.
#[derive(Debug, Clone, Copy, PartialEq, Eq, Structural, Hash)]
pub struct CpuFeatures {
    /// AVX-512 Foundation is available.
    pub avx512f: bool,
    /// AVX2 is available.
    pub avx2: bool,
    /// SSE4.2 is available.
    pub sse42: bool,
    /// NEON is available.
    pub neon: bool,
    /// WASM SIMD128 is available.
    pub simd128: bool,
}

impl CpuFeatures {
    /// A processor that advertises no vector extension at all.
    pub open spec fn none_spec() -> CpuFeatures {
        CpuFeatures { avx512f: false, avx2: false, sse42: false, neon: false, simd128: false }
    }

    /// A processor that advertises no vector extension at all.
    pub fn none() -> (r: CpuFeatures)
        ensures
            r == Self::none_spec(),
    {
        CpuFeatures { avx512f: false, avx2: false, sse42: false, neon: false, simd128: false }
    }

    /// Whether a processor with these features can run the path. The scalar
    /// path runs everywhere.
    pub fn supports(&self, path: SimdPath) -> (yes: bool)
        ensures
            yes == path.available(*self),
    {
        match path {
            SimdPath::AVX512 => self.avx512f,
            SimdPath::AVX2 => self.avx2,
            SimdPath::SSE42 => self.sse42,
            SimdPath::NEON => self.neon,
            SimdPath::Wasm128 => self.simd128,
            SimdPath::Scalar => true,
        }
    }
}

impl SimdPath {
    /// How much a path is preferred: the larger, the better.
    pub open spec fn rank(self) -> nat {
        match self {
            SimdPath::AVX512 => 5,
            SimdPath::AVX2 => 4,
            SimdPath::SSE42 => 3,
            SimdPath::NEON => 2,
            SimdPath::Wasm128 => 1,
            SimdPath::Scalar => 0,
        }
    }

    /// Whether a processor with these features can run the path.
    pub open spec fn available(self, features: CpuFeatures) -> bool {
        match self {
            SimdPath::AVX512 => features.avx512f,
            SimdPath::AVX2 => features.avx2,
            SimdPath::SSE42 => features.sse42,
            SimdPath::NEON => features.neon,
            SimdPath::Wasm128 => features.simd128,
            SimdPath::Scalar => true,
        }
    }

    /// The most preferred path among those the processor can run.
    pub open spec fn best(features: CpuFeatures) -> SimdPath {
        if features.avx512f {
            SimdPath::AVX512
        } else if features.avx2 {
            SimdPath::AVX2
        } else if features.sse42 {
            SimdPath::SSE42
        } else if features.neon {
            SimdPath::NEON
        } else if features.simd128 {
            SimdPath::Wasm128
        } else {
            SimdPath::Scalar
        }
    }

    /// Picks the path for a processor: the first of AVX-512, AVX2, SSE4.2,
    /// NEON and WASM SIMD128 that it reports, and the scalar path otherwise.
    pub fn detect(features: CpuFeatures) -> (path: SimdPath)
        ensures
            path == Self::best(features),
            path.available(features),
            forall|other: SimdPath| other.available(features) ==> other.rank() <= path.rank(),
    {
        if features.avx512f {
            SimdPath::AVX512
        } else if features.avx2 {
            SimdPath::AVX2
        } else if features.sse42 {
            SimdPath::SSE42
        } else if features.neon {
            SimdPath::NEON
        } else if features.simd128 {
            SimdPath::Wasm128
        } else {
            SimdPath::Scalar
        }
    }

    /// The name under which the path is reported.
    pub fn name(self) -> (s: &'static str)
        ensures
            s@ == self.name_spec(),
    {
        match self {
            SimdPath::AVX512 => "AVX-512",
            SimdPath::AVX2 => "AVX2",
            SimdPath::SSE42 => "SSE4.2",
            SimdPath::NEON => "NEON",
            SimdPath::Wasm128 => "WASM SIMD128",
            SimdPath::Scalar => "Scalar",
        }
    }

    /// The characters of the path's name.
    pub open spec fn name_spec(self) -> Seq<char> {
        match self {
            SimdPath::AVX512 => "AVX-512"@,
            SimdPath::AVX2 => "AVX2"@,
            SimdPath::SSE42 => "SSE4.2"@,
            SimdPath::NEON => "NEON"@,
            SimdPath::Wasm128 => "WASM SIMD128"@,
            SimdPath::Scalar => "Scalar"@,
        }
    }
}

/// The path that was detected for this machine.
#[derive(Debug, Clone, Copy)]
pub struct HeartOnSimdCapabilities {
    /// The active SIMD path.
    pub path: SimdPath,
}

impl HeartOnSimdCapabilities {
    /// Records the path detected from the processor's features.
    pub fn new(features: CpuFeatures) -> (caps: Self)
        ensures
            caps.path == SimdPath::best(features),
    {
        HeartOnSimdCapabilities { path: SimdPath::detect(features) }
    }
}

} // verus!
