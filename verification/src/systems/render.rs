//! The render system: turns the world's meshes into the per-frame draw list,
//! one command per mesh in entity order. Each command tells the drawing
//! layer how many indices and instances to submit and which material to
//! bind. A mesh whose material id lies outside the material list is a
//! programmer invariant violation and aborts the frame with an error; a mesh
//! with zero indices is valid and simply draws nothing.

use vstd::prelude::*;
use crate::model::DynamicMesh;
use crate::world::World;

verus! {

/// One draw call: submit `num_indices` indices, instanced `num_instances`
/// times, with material `material_id` bound.
#[derive(Debug, Clone, Copy, PartialEq, Eq, Structural)]
pub struct DrawCommand {
    pub num_indices: u32,
    pub num_instances: u32,
    pub material_id: u32,
}

/// Why a frame's draw list could not be built.
#[derive(Debug, Clone, Copy, PartialEq, Eq, Structural)]
pub enum RenderError {
    /// Some mesh references a material id at or beyond the end of the
    /// material list.
    MaterialOutOfRange,
}

/// The draw command for one mesh.
pub open spec fn command_of(dm: DynamicMesh) -> DrawCommand {
    DrawCommand {
        num_indices: dm.data.num_indices,
        num_instances: dm.data.num_instances,
        material_id: dm.data.material_id.0,
    }
}

/// The draw list of a mesh table: one command per entity that has a mesh, in
/// entity order.
pub open spec fn draw_list(meshes: Seq<Option<DynamicMesh>>) -> Seq<DrawCommand>
    decreases meshes.len(),
{
    if meshes.len() == 0 {
        Seq::empty()
    } else {
        match meshes.last() {
            Some(dm) => draw_list(meshes.drop_last()) + seq![command_of(dm)],
            None => draw_list(meshes.drop_last()),
        }
    }
}

/// Every mesh's material id indexes into a material list of length `len`.
pub open spec fn materials_in_range(meshes: Seq<Option<DynamicMesh>>, len: int) -> bool {
    forall|e: int|
        0 <= e < meshes.len() ==> (#[trigger] meshes[e] matches Some(dm)
            ==> dm.data.material_id.0 < len)
}

/// Renders all the meshes.
pub struct RendererSystem;

impl RendererSystem {
    /// Builds the draw list for the current frame: succeeds exactly when
    /// every mesh's material id lies inside the material list, and then
    /// yields one command per mesh in entity order.
    #[verifier::loop_isolation(false)]
    pub fn run(&self, world: &World, materials_len: usize) -> (r: Result<
        Vec<DrawCommand>,
        RenderError,
    >)
        requires
            world.wf(),
        ensures
            r is Ok <==> materials_in_range(world.meshes@, materials_len as int),
            r matches Ok(cmds) ==> cmds@ == draw_list(world.meshes@),
            r is Err ==> r->Err_0 == RenderError::MaterialOutOfRange,
    {
        let n = world.meshes.len();
        let mut cmds: Vec<DrawCommand> = Vec::new();
        let mut e: usize = 0;
        while e < n
            invariant
                e <= n,
                cmds@ == draw_list(world.meshes@.subrange(0, e as int)),
                forall|i: int|
                    0 <= i < e ==> (#[trigger] world.meshes@[i] matches Some(dm)
                        ==> dm.data.material_id.0 < materials_len),
            decreases n - e,
        {
            match &world.meshes[e] {
                Some(dm) => {
                    if !((dm.data.material_id.0 as usize) < materials_len) {
                        return Err(RenderError::MaterialOutOfRange);
                    }
                    cmds.push(
                        DrawCommand {
                            num_indices: dm.data.num_indices,
                            num_instances: dm.data.num_instances,
                            material_id: dm.data.material_id.0,
                        },
                    );
                },
                None => {},
            }
            proof {
                assert(world.meshes@.subrange(0, e + 1).drop_last() =~= world.meshes@.subrange(
                    0,
                    e as int,
                ));
                assert(world.meshes@.subrange(0, e + 1).last() == world.meshes@[e as int]);
            }
            e += 1;
        }
        proof {
            assert(world.meshes@.subrange(0, n as int) =~= world.meshes@);
        }
        Ok(cmds)
    }
}

} // verus!
