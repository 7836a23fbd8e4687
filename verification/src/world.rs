//! An explicit typed component store and the plugin protocol that sets it
//! up. Entities are indices; each component kind has a side table of the same
//! length, so "entity has component" is "the entry at its index is set".

use vstd::prelude::*;
use crate::chunk::Chunk;
use crate::model::DynamicMesh;
use crate::Position;

verus! {

/// The component kinds the engine core knows about.
#[derive(Debug, Clone, Copy, PartialEq, Eq, Structural)]
pub enum ComponentKind {
    Position,
    Chunk,
    Created,
    DynamicMesh,
}

/// Records which component kinds a world will carry; plugins register their
/// kinds here during setup.
pub struct WorldBuilder {
    pub kinds: Vec<ComponentKind>,
}

impl WorldBuilder {
    pub fn new() -> (r: WorldBuilder)
        ensures
            r.kinds@ =~= Seq::<ComponentKind>::empty(),
    {
        WorldBuilder { kinds: Vec::new() }
    }

    pub fn with_component(&mut self, kind: ComponentKind)
        ensures
            final(self).kinds@ == old(self).kinds@.push(kind),
    {
        self.kinds.push(kind);
    }
}

/// Everything a plugin contributes to the world happens in `setup`.
pub trait Plugin {
    fn setup(self, world: &mut WorldBuilder);
}

/// The world: one side table per component kind, all of the same length. An
/// entity is an index valid in every table.
pub struct World {
    pub positions: Vec<Option<Position>>,
    pub chunks: Vec<Option<Chunk>>,
    pub created: Vec<bool>,
    pub meshes: Vec<Option<DynamicMesh>>,
}

impl World {
    /// All component tables cover the same entities.
    pub open spec fn wf(self) -> bool {
        &&& self.chunks@.len() == self.positions@.len()
        &&& self.created@.len() == self.positions@.len()
        &&& self.meshes@.len() == self.positions@.len()
    }

    pub open spec fn num_entities(self) -> nat {
        self.positions@.len()
    }

    pub fn new() -> (r: World)
        ensures
            r.wf(),
            r.num_entities() == 0,
    {
        World { positions: Vec::new(), chunks: Vec::new(), created: Vec::new(), meshes: Vec::new() }
    }

    /// Adds a fresh entity with no components and returns its index.
    pub fn create_entity(&mut self) -> (e: usize)
        requires
            old(self).wf(),
            old(self).num_entities() < usize::MAX,
        ensures
            final(self).wf(),
            e == old(self).num_entities(),
            final(self).positions@ == old(self).positions@.push(None),
            final(self).chunks@ == old(self).chunks@.push(None),
            final(self).created@ == old(self).created@.push(false),
            final(self).meshes@ == old(self).meshes@.push(None),
    {
        let e = self.positions.len();
        self.positions.push(None);
        self.chunks.push(None);
        self.created.push(false);
        self.meshes.push(None);
        e
    }

    pub fn set_position(&mut self, e: usize, position: Position)
        requires
            old(self).wf(),
            e < old(self).num_entities(),
        ensures
            final(self).wf(),
            final(self).positions@ == old(self).positions@.update(e as int, Some(position)),
            final(self).chunks@ == old(self).chunks@,
            final(self).created@ == old(self).created@,
            final(self).meshes@ == old(self).meshes@,
    {
        self.positions.set(e, Some(position));
    }

    pub fn set_chunk(&mut self, e: usize, chunk: Chunk)
        requires
            old(self).wf(),
            e < old(self).num_entities(),
        ensures
            final(self).wf(),
            final(self).chunks@ == old(self).chunks@.update(e as int, Some(chunk)),
            final(self).positions@ == old(self).positions@,
            final(self).created@ == old(self).created@,
            final(self).meshes@ == old(self).meshes@,
    {
        self.chunks.set(e, Some(chunk));
    }

    /// Tags an entity as freshly created and awaiting its first meshing pass.
    pub fn tag_created(&mut self, e: usize)
        requires
            old(self).wf(),
            e < old(self).num_entities(),
        ensures
            final(self).wf(),
            final(self).created@ == old(self).created@.update(e as int, true),
            final(self).positions@ == old(self).positions@,
            final(self).chunks@ == old(self).chunks@,
            final(self).meshes@ == old(self).meshes@,
    {
        self.created.set(e, true);
    }
}

} // verus!
