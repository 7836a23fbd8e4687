//! Meshes, materials and models: the records that describe one chunk's
//! uploaded geometry. The GPU buffers themselves live outside the engine
//! core; a [`Mesh`] carries exactly the data a drawing layer needs to size
//! and submit them, and a [`Model`] keeps the CPU-side arrays so a mesh can
//! later be rewritten in place.

use vstd::prelude::*;
use crate::instance::ModelInstance;
use crate::vertex::{ModelIndex, ModelVertex};

verus! {

/// Identifier of a [`Material`] in the renderer's flat material list. Meshes
/// reference materials only through this id.
#[derive(Debug, Clone, Copy, PartialEq, Eq, Structural)]
pub struct MaterialId(pub u32);

/// Describes one drawable mesh: how many indices and instances to submit and
/// which material to bind. The counts are sized exactly to the arrays the
/// mesh was built from; a mesh with zero indices is valid and draws nothing.
#[derive(Debug, Clone, PartialEq, Eq)]
pub struct Mesh {
    pub label: String,
    pub num_indices: u32,
    pub num_instances: u32,
    pub material_id: MaterialId,
}

impl Mesh {
    /// Builds the mesh record for the given vertex, index and instance
    /// arrays. The draw counts come from the index and instance arrays alone,
    /// so an empty chunk yields a mesh whose draw is a no-op.
    pub fn from_vertex(
        label: String,
        _vertices: &Vec<ModelVertex>,
        indices: &Vec<ModelIndex>,
        instances: &Vec<ModelInstance>,
        material_id: MaterialId,
    ) -> (r: Mesh)
        requires
            indices@.len() <= u32::MAX,
            instances@.len() <= u32::MAX,
        ensures
            r.label == label,
            r.num_indices == indices@.len(),
            r.num_instances == instances@.len(),
            r.material_id == material_id,
    {
        Mesh {
            label,
            num_indices: indices.len() as u32,
            num_instances: instances.len() as u32,
            material_id,
        }
    }
}

/// The CPU-side vertex and index arrays that produced a mesh, kept so the
/// mesh can be rewritten in place instead of reallocated.
#[derive(Debug, Clone, PartialEq, Eq)]
pub struct Model {
    pub vertices: Vec<ModelVertex>,
    pub indices: Vec<ModelIndex>,
}

impl Model {
    /// Points an existing mesh at this model's current arrays: the index
    /// count is refreshed while the label, material and instance count are
    /// kept. The drawing layer overwrites the buffer contents to match.
    pub fn update_mesh(&self, mesh: &mut Mesh)
        requires
            self.indices@.len() <= u32::MAX,
        ensures
            final(mesh).num_indices == self.indices@.len(),
            final(mesh).label == old(mesh).label,
            final(mesh).num_instances == old(mesh).num_instances,
            final(mesh).material_id == old(mesh).material_id,
    {
        mesh.num_indices = self.indices.len() as u32;
    }
}

/// A mesh together with the model it was generated from, attached to chunk
/// entities so edited chunks can have their geometry rewritten.
#[derive(Debug, Clone, PartialEq, Eq)]
pub struct DynamicMesh {
    pub data: Mesh,
    pub model: Model,
}

} // verus!
