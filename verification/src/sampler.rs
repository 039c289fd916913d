//! The parameters that a sampler is created from.

use vstd::prelude::*;

verus! {

/// How texels are combined into a sample.
#[derive(Clone, Copy, Debug, PartialEq, Eq, Structural, Hash)]
pub enum Filter {
    /// Take the nearest texel.
    Nearest,
    /// Interpolate between neighbouring texels.
    Linear,
}

/// What happens to coordinates outside of the image.
#[derive(Clone, Copy, Debug, PartialEq, Eq, Structural, Hash)]
pub enum WrapMode {
    /// Repeat the image.
    Tile,
    /// Repeat the image, mirrored.
    Mirror,
    /// Take the texel at the edge.
    Clamp,
    /// Take the border color.
    Border,
}

/// A comparison of a sampled value with a reference.
#[derive(Clone, Copy, Debug, PartialEq, Eq, Structural, Hash)]
pub enum Comparison {
    Never,
    Less,
    Equal,
    LessEqual,
    Greater,
    NotEqual,
    GreaterEqual,
    Always,
}

/// Whether a sampler compares what it samples, and how.
#[derive(Clone, Copy, Debug, PartialEq, Eq, Structural, Hash)]
pub enum Compare {
    /// No comparison.
    Off,
    /// Compare with the given function.
    On(Comparison),
}

/// Anisotropic filtering.
#[derive(Clone, Copy, Debug, PartialEq, Eq, Structural, Hash)]
pub enum Anisotropic {
    /// Disabled.
    Off,
    /// Enabled, with the given clamp.
    On(u8),
}

/// Everything a sampler is created from. Two descriptors are equal when all
/// their parameters are. Levels of detail are held as the bits of their
/// single-precision value.
#[derive(Clone, Copy, Debug, PartialEq, Eq, Structural, Hash)]
pub struct SamplerDescriptor {
    /// Minification filter.
    pub min_filter: Filter,
    /// Magnification filter.
    pub mag_filter: Filter,
    /// Filter between mip levels.
    pub mip_filter: Filter,
    /// Wrap mode along the first axis.
    pub wrap_u: WrapMode,
    /// Wrap mode along the second axis.
    pub wrap_v: WrapMode,
    /// Wrap mode along the third axis.
    pub wrap_w: WrapMode,
    /// Bias added to the computed level of detail.
    pub lod_bias: u32,
    /// Lowest level of detail to sample from.
    pub lod_min: u32,
    /// End of the range of levels of detail to sample from.
    pub lod_max: u32,
    /// Comparison, as used for shadow maps.
    pub comparison: Compare,
    /// Border color, packed with 8 bits per channel.
    pub border: u32,
    /// Whether coordinates are normalized.
    pub normalized: bool,
    /// Anisotropic filtering.
    pub anisotropic: Anisotropic,
}

} // verus!
