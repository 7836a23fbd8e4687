//! The meshing system: scans for entities that hold a position, a chunk and
//! the created tag, and for each one removes the tag and inserts the mesh
//! generated from its chunk. The transition fires exactly once per entity:
//! the tag never reappears on its own, so a second run leaves meshed
//! entities untouched.

use vstd::prelude::*;
use crate::meshing::{
    face_count, mesh_index, mesh_vertices, position_in_range, ChunkModel,
};
use crate::model::{DynamicMesh, MaterialId};
use crate::world::World;
use crate::Position;

verus! {

/// Entity `e` is awaiting its first meshing pass: it holds a position, a
/// chunk and the created tag.
pub open spec fn ready(w: World, e: int) -> bool {
    &&& w.created@[e]
    &&& w.chunks@[e] is Some
    &&& w.positions@[e] is Some
}

/// The mesh component is exactly what the mesher emits for occupancy `c` at
/// position `p`, bound to the given material.
pub open spec fn meshed_from(dm: DynamicMesh, c: Seq<u8>, p: Position, material_id: MaterialId) -> bool {
    &&& dm.model.vertices@ == mesh_vertices(c, p)
    &&& dm.model.vertices@.len() == 4 * face_count(c)
    &&& dm.model.indices@.len() == 6 * face_count(c)
    &&& (forall|j: int| 0 <= j < dm.model.indices@.len() ==> dm.model.indices@[j] == mesh_index(j))
    &&& dm.data.num_indices == 6 * face_count(c)
    &&& dm.data.num_instances == 1
    &&& dm.data.material_id == material_id
}

/// What one run of the meshing system does to the world: positions and
/// chunks are untouched; every ready entity loses its created tag and gains
/// the mesh of its chunk; every other entity keeps its tag state and mesh;
/// and no entity ever gains a created tag.
pub open spec fn run_rel(w0: World, w1: World, material_id: MaterialId) -> bool {
    &&& w1.wf()
    &&& w1.num_entities() == w0.num_entities()
    &&& w1.positions@ == w0.positions@
    &&& w1.chunks@ == w0.chunks@
    &&& (forall|e: int|
        0 <= e < w0.num_entities() && #[trigger] ready(w0, e) ==> !w1.created@[e]
            && (w1.meshes@[e] matches Some(dm) && meshed_from(
            dm,
            w0.chunks@[e]->Some_0.data@,
            w0.positions@[e]->Some_0,
            material_id,
        )))
    &&& (forall|e: int|
        0 <= e < w0.num_entities() && !(#[trigger] ready(w0, e)) ==> w1.created@[e]
            == w0.created@[e] && w1.meshes@[e] == w0.meshes@[e])
}

/// Receives freshly created chunk entities and generates their meshes.
pub struct ChunkRenderSystem;

impl ChunkRenderSystem {
    /// One run of the meshing system over the whole world.
    #[verifier::loop_isolation(false)]
    pub fn run(&self, world: &mut World, material_id: MaterialId)
        requires
            old(world).wf(),
            forall|e: int|
                0 <= e < old(world).num_entities() && #[trigger] ready(*old(world), e)
                    ==> position_in_range(old(world).positions@[e]->Some_0),
        ensures
            run_rel(*old(world), *final(world), material_id),
    {
        let n = world.positions.len();
        let mut e: usize = 0;
        while e < n
            invariant
                e <= n,
                world.wf(),
                world.num_entities() == n,
                world.positions@ == old(world).positions@,
                world.chunks@ == old(world).chunks@,
                forall|i: int|
                    0 <= i < e && #[trigger] ready(*old(world), i) ==> !world.created@[i]
                        && (world.meshes@[i] matches Some(dm) && meshed_from(
                        dm,
                        old(world).chunks@[i]->Some_0.data@,
                        old(world).positions@[i]->Some_0,
                        material_id,
                    )),
                forall|i: int|
                    0 <= i < e && !(#[trigger] ready(*old(world), i)) ==> world.created@[i]
                        == old(world).created@[i] && world.meshes@[i] == old(world).meshes@[i],
                forall|i: int|
                    e <= i < n ==> world.created@[i] == old(world).created@[i]
                        && world.meshes@[i] == old(world).meshes@[i],
            decreases n - e,
        {
            if world.created[e] && world.chunks[e].is_some() && world.positions[e].is_some() {
                proof {
                    assert(ready(*old(world), e as int));
                }
                let position = world.positions[e].unwrap();
                let chunk = world.chunks[e].as_ref().unwrap();
                let (model, mesh) = ChunkModel::from_data(&position, chunk, material_id);
                self.remove_created(world, e);
                world.meshes.set(e, Some(DynamicMesh { data: mesh, model }));
            }
            e += 1;
        }
    }

    /// Removes the created tag from one entity.
    fn remove_created(&self, world: &mut World, e: usize)
        requires
            old(world).wf(),
            e < old(world).num_entities(),
        ensures
            final(world).wf(),
            final(world).created@ == old(world).created@.update(e as int, false),
            final(world).positions@ == old(world).positions@,
            final(world).chunks@ == old(world).chunks@,
            final(world).meshes@ == old(world).meshes@,
    {
        world.created.set(e, false);
    }
}

/// An entity holding a position, a chunk and the created tag transitions to
/// holding a mesh after exactly one run of the meshing system, and never
/// re-transitions: a second run leaves its tag cleared and its mesh exactly
/// as the first run built it. A created tag never reappears without external
/// re-tagging: any entity tagged after a run was already tagged before it.
pub proof fn lemma_mesh_exactly_once(w0: World, w1: World, w2: World, material_id: MaterialId)
    requires
        run_rel(w0, w1, material_id),
        run_rel(w1, w2, material_id),
    ensures
        forall|e: int|
            0 <= e < w0.num_entities() && #[trigger] ready(w0, e) ==> !w1.created@[e]
                && w1.meshes@[e] is Some && !w2.created@[e] && w2.meshes@[e] == w1.meshes@[e],
        forall|e: int|
            0 <= e < w0.num_entities() && #[trigger] w1.created@[e] ==> w0.created@[e],
{
    assert forall|e: int|
        0 <= e < w0.num_entities() && #[trigger] ready(w0, e) implies !w1.created@[e]
        && w1.meshes@[e] is Some && !w2.created@[e] && w2.meshes@[e] == w1.meshes@[e] by {
        assert(!w1.created@[e]);
        assert(!ready(w1, e));
    }
    assert forall|e: int|
        0 <= e < w0.num_entities() && #[trigger] w1.created@[e] implies w0.created@[e] by {
        if ready(w0, e) {
            assert(!w1.created@[e]);
        } else {
            assert(w1.created@[e] == w0.created@[e]);
        }
    }
}

} // verus!
