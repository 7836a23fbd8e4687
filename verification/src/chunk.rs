//! Chunks: fixed-size 4x4x4 grids of block occupancy bytes. A cell value of
//! zero is empty space; any nonzero value is a solid block.

use vstd::prelude::*;
use crate::block::BlockPosition;
use crate::world::{ComponentKind, Plugin, WorldBuilder};

verus! {

pub const CHUNK_WIDTH: usize = 4;

pub const CHUNK_HEIGHT: usize = 4;

pub const CHUNK_LENGTH: usize = 4;

/// The number of occupancy cells in one chunk: width times height times
/// length.
pub const CHUNK_VOLUME: usize = 64;

/// Position of a whole chunk within the world's chunk grid.
#[derive(Debug, Clone, Copy, PartialEq, Eq, Structural)]
pub struct ChunkPosition {
    pub x: usize,
    pub y: usize,
    pub z: usize,
}

/// Index of the cell at local coordinate (x, y, z) in a chunk's flat
/// occupancy array: z varies fastest, then y, then x.
pub open spec fn block_index(x: int, y: int, z: int) -> int {
    z + y * CHUNK_WIDTH + x * CHUNK_WIDTH * CHUNK_HEIGHT
}

/// Chunk component that stores the occupancy of a chunk.
#[derive(Debug, Clone, PartialEq, Eq)]
pub struct Chunk {
    pub data: [u8; CHUNK_VOLUME],
}

impl Chunk {
    pub fn get(&self, position: &BlockPosition) -> (r: u8)
        requires
            position.in_bounds(),
        ensures
            r == self.data@[block_index(position.x as int, position.y as int, position.z as int)],
    {
        let index: usize = position.z as usize + position.y as usize * CHUNK_WIDTH
            + position.x as usize * CHUNK_WIDTH * CHUNK_HEIGHT;
        self.data[index]
    }
}

/// Plugin that registers the chunk component.
pub struct ChunkPlugin;

impl Plugin for ChunkPlugin {
    fn setup(self, world: &mut WorldBuilder) {
        world.with_component(ComponentKind::Chunk)
    }
}

} // verus!
