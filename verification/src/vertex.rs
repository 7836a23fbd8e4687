//! The vertex type fed to the rasterizer: an integer position in world units
//! and a texture coordinate that is 0 or 1 at the corners of a face.

use vstd::prelude::*;

verus! {

/// A primitive vertex with a position and a texture coordinate, used for the
/// blocky 3D geometry this engine emits. All coordinates are integers: blocks
/// are two world units wide and texture coordinates only take the corner
/// values 0 and 1.
#[derive(Debug, Clone, Copy, PartialEq, Eq, Structural)]
pub struct ModelVertex {
    pub px: i64,
    pub py: i64,
    pub pz: i64,
    pub tu: u8,
    pub tv: u8,
}

pub type ModelIndex = u16;

impl ModelVertex {
    /// The vertex translated by the given offset; texture coordinates are
    /// kept.
    pub fn add(&self, dx: i64, dy: i64, dz: i64) -> (r: ModelVertex)
        requires
            i64::MIN <= self.px + dx <= i64::MAX,
            i64::MIN <= self.py + dy <= i64::MAX,
            i64::MIN <= self.pz + dz <= i64::MAX,
        ensures
            r.px == self.px + dx,
            r.py == self.py + dy,
            r.pz == self.pz + dz,
            r.tu == self.tu,
            r.tv == self.tv,
    {
        ModelVertex { px: self.px + dx, py: self.py + dy, pz: self.pz + dz, tu: self.tu, tv: self.tv }
    }
}

} // verus!
