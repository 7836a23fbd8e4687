//! A voxel-world engine core: chunks of block occupancy, a face-culling
//! mesher that turns a chunk into vertex/index data, the mesh and material
//! records that feed a rasterizer, and the component world that schedules
//! meshing exactly once per freshly created chunk.
//!
//! Geometry is measured in whole world units: every block is two units wide
//! and every emitted coordinate is an integer, so the mesher and its callers
//! work over `i64` coordinates throughout.

use vstd::prelude::*;

pub mod block;
pub mod chunk;
pub mod cube;
pub mod events;
pub mod instance;
pub mod laws;
pub mod meshing;
pub mod model;
pub mod vertex;
pub mod systems;
pub mod world;

use crate::world::{ComponentKind, Plugin, WorldBuilder};

verus! {

/// World-space position of the entity that owns a chunk, in chunk-grid
/// steps: the chunk's geometry is offset by this position times the chunk
/// dimension times the block size. The grid is integral, so the coordinates
/// are integers.
#[derive(Debug, Clone, Copy, PartialEq, Eq, Structural)]
pub struct Position {
    pub x: i64,
    pub y: i64,
    pub z: i64,
}

impl Position {
    pub fn new(x: i64, y: i64, z: i64) -> (r: Position)
        ensures
            r == (Position { x, y, z }),
    {
        Position { x, y, z }
    }
}

/// Plugin that registers the position component.
pub struct BasicPlugin;

impl Plugin for BasicPlugin {
    fn setup(self, world: &mut WorldBuilder) {
        world.with_component(ComponentKind::Position)
    }
}

} // verus!
