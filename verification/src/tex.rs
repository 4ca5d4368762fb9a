//! Plain value descriptions of textures and samplers.

use vstd::prelude::*;

verus! {

/// Anti-aliasing mode of a texture.
#[derive(Clone, Copy, PartialEq, Eq, Structural, Debug)]
pub enum AaMode {
    Single,
    Multi(u8),
}

/// Dimensionality of a texture.
#[derive(Clone, Copy, PartialEq, Eq, Structural, Debug)]
pub enum Kind {
    D1,
    D2(AaMode),
    D3,
}

/// Storage format of a texture surface.
#[derive(Clone, Copy, PartialEq, Eq, Structural, Debug)]
pub enum SurfaceFormat {
    Rgba8,
    Depth24Stencil8,
}

/// Plain value description of a texture: identity is by field values alone.
#[derive(Clone, Copy, PartialEq, Eq, Structural, Debug)]
pub struct TextureInfo {
    pub width: u16,
    pub height: u16,
    pub depth: u16,
    pub levels: u8,
    pub kind: Kind,
    pub format: SurfaceFormat,
}

/// Error reported by the backend when a texture cannot be created.
#[derive(Clone, Copy, PartialEq, Eq, Structural, Debug)]
pub enum TextureError {
    /// The backend cannot realize the requested description.
    Unsupported,
}

/// Backend handle to a created texture, with the description it was
/// created from.
#[derive(Clone, Copy, PartialEq, Eq, Structural, Debug)]
pub struct Texture {
    pub id: u64,
    pub info: TextureInfo,
}

/// Texel filtering method of a sampler.
#[derive(Clone, Copy, PartialEq, Eq, Structural, Debug)]
pub enum FilterMethod {
    Scale,
    Mipmap,
    Bilinear,
    Trilinear,
    Anisotropic(u8),
}

/// Wrapping behaviour of a sampler outside the unit range.
#[derive(Clone, Copy, PartialEq, Eq, Structural, Debug)]
pub enum WrapMode {
    Tile,
    Mirror,
    Clamp,
}

/// Plain value description of a sampler.
#[derive(Clone, Copy, PartialEq, Eq, Structural, Debug)]
pub struct SamplerInfo {
    pub filter: FilterMethod,
    pub wrap: WrapMode,
}

impl SamplerInfo {
    /// A sampler description with the given filter and the same wrap mode
    /// on every axis.
    pub fn new(filter: FilterMethod, wrap: WrapMode) -> (r: SamplerInfo)
        ensures
            r == (SamplerInfo { filter, wrap }),
    {
        SamplerInfo { filter, wrap }
    }
}

/// Backend handle to a created sampler, with the description it was
/// created from.
#[derive(Clone, Copy, PartialEq, Eq, Structural, Debug)]
pub struct Sampler {
    pub id: u64,
    pub info: SamplerInfo,
}

} // verus!
