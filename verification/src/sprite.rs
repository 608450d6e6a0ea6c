//! Texture references and sprites.
//!
//! A texture lives in GPU memory and is owned by the rendering shell; the
//! core refers to it through an opaque handle paired with its pixel size.
//! A sprite is a texture together with the region of it to draw.

use vstd::prelude::*;

use crate::geom::UVec2;

verus! {

/// An opaque reference to a GPU texture: the handle the shell assigned to
/// it, and its size in pixels.
#[derive(Clone, Copy, Debug, PartialEq, Eq, Structural)]
pub struct TextureRef {
    pub id: u64,
    pub size: UVec2,
}

/// A rectangular region of a texture, in pixels of that texture.
#[derive(Clone, Copy, Debug, PartialEq, Eq, Structural)]
pub struct TexRegion {
    pub position: UVec2,
    pub size: UVec2,
}

impl TexRegion {
    /// The region at `position` with extent `size`.
    pub fn from_pixels(position: UVec2, size: UVec2) -> (r: TexRegion)
        ensures
            r == (TexRegion { position, size }),
    {
        TexRegion { position, size }
    }

    /// The region covering all of a texture of the given size.
    pub fn full(size: UVec2) -> (r: TexRegion)
        ensures
            r == (TexRegion { position: UVec2 { x: 0, y: 0 }, size }),
    {
        TexRegion { position: UVec2 { x: 0, y: 0 }, size }
    }
}

/// A drawable image: a texture and the region of it to sample.
#[derive(Clone, Copy, Debug, PartialEq, Eq, Structural)]
pub struct Sprite {
    pub texture: TextureRef,
    pub region: TexRegion,
}

impl Sprite {
    /// A sprite showing the whole of `texture`.
    pub fn new(texture: TextureRef) -> (s: Sprite)
        ensures
            s.texture == texture,
            s.region == (TexRegion { position: UVec2 { x: 0, y: 0 }, size: texture.size }),
    {
        Sprite { texture, region: TexRegion::full(texture.size) }
    }

    /// The texture this sprite samples.
    pub fn texture(&self) -> (t: TextureRef)
        ensures
            t == self.texture,
    {
        self.texture
    }

    /// The sampled region.
    pub fn region(&self) -> (r: TexRegion)
        ensures
            r == self.region,
    {
        self.region
    }
}

} // verus!
