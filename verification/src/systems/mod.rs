//! The ordered systems that drive a frame: mesh freshly created chunks, then
//! draw every mesh. The meshing system must complete before the render
//! system runs within a tick, so the render system only ever sees meshes
//! that are fully inserted.

use vstd::prelude::*;

pub mod chunk;
pub mod render;

use crate::meshing::position_in_range;
use crate::model::MaterialId;
use crate::world::World;
use self::chunk::{ready, run_rel, ChunkRenderSystem};
use self::render::{draw_list, materials_in_range, DrawCommand, RendererSystem, RenderError};

verus! {

/// One frame tick over the world state: the meshing phase completes fully,
/// then the render phase reads the resulting meshes. The returned draw list
/// therefore always reflects every chunk meshed this tick — the render
/// system can never observe a half-applied meshing pass.
pub fn tick(world: &mut World, material_id: MaterialId, materials_len: usize) -> (r: Result<
    Vec<DrawCommand>,
    RenderError,
>)
    requires
        old(world).wf(),
        forall|e: int|
            0 <= e < old(world).num_entities() && #[trigger] ready(*old(world), e)
                ==> position_in_range(old(world).positions@[e]->Some_0),
    ensures
        run_rel(*old(world), *final(world), material_id),
        r is Ok <==> materials_in_range(final(world).meshes@, materials_len as int),
        r matches Ok(cmds) ==> cmds@ == draw_list(final(world).meshes@),
{
    let mesher = ChunkRenderSystem;
    mesher.run(world, material_id);
    let renderer = RendererSystem;
    renderer.run(world, materials_len)
}

} // verus!
