//! Tests for the basic geometry pieces: block coordinates, chunk lookup, the
//! cube tables, instances, and the mesh and model records.

use voxelia::block::BlockPosition;
use voxelia::chunk::{Chunk, ChunkPosition};
use voxelia::cube::{face, face_displacement, face_index_pattern, Cube, BACK, FRONT};
use voxelia::instance::ModelInstance;
use voxelia::model::{MaterialId, Mesh, Model};
use voxelia::vertex::ModelVertex;
use voxelia::world::{ComponentKind, Plugin, WorldBuilder};
use voxelia::{BasicPlugin, Position};

#[test]
fn block_position_bounds() {
    assert!(!BlockPosition::new(0, 0, 0).is_out());
    assert!(!BlockPosition::new(3, 3, 3).is_out());
    assert!(BlockPosition::new(-1, 0, 0).is_out());
    assert!(BlockPosition::new(4, 0, 0).is_out());
    assert!(BlockPosition::new(0, -1, 0).is_out());
    assert!(BlockPosition::new(0, 4, 0).is_out());
    assert!(BlockPosition::new(0, 0, -1).is_out());
    assert!(BlockPosition::new(0, 0, 4).is_out());
}

#[test]
fn block_position_arithmetic() {
    let a = BlockPosition::new(1, 2, 3);
    let b = BlockPosition::new(0, 0, -1);
    let sum = a.add(&b);
    assert_eq!((sum.x, sum.y, sum.z), (1, 2, 2));
    let diff = a.sub(&b);
    assert_eq!((diff.x, diff.y, diff.z), (1, 2, 4));
    assert_eq!(a.to_slice(), (2, 4, 6));
}

#[test]
fn chunk_lookup_is_z_then_y_then_x() {
    let mut data = [0u8; 64];
    data[3] = 7; // (0, 0, 3)
    data[4] = 8; // (0, 1, 0)
    data[16] = 9; // (1, 0, 0)
    let chunk = Chunk { data };
    assert_eq!(chunk.get(&BlockPosition::new(0, 0, 3)), 7);
    assert_eq!(chunk.get(&BlockPosition::new(0, 1, 0)), 8);
    assert_eq!(chunk.get(&BlockPosition::new(1, 0, 0)), 9);
    assert_eq!(chunk.get(&BlockPosition::new(3, 3, 3)), 0);
    let _ = ChunkPosition { x: 0, y: 0, z: 0 };
}

#[test]
fn face_displacements_are_unit_steps() {
    let front = face_displacement(FRONT);
    assert_eq!((front.x, front.y, front.z), (0, 0, 1));
    let back = face_displacement(BACK);
    assert_eq!((back.x, back.y, back.z), (0, 0, -1));
    // The six displacements cover all axis directions exactly once.
    let mut seen = Vec::new();
    for number in 0..6 {
        let d = face_displacement(number);
        assert_eq!(d.x.abs() + d.y.abs() + d.z.abs(), 1);
        seen.push((d.x, d.y, d.z));
    }
    seen.sort();
    seen.dedup();
    assert_eq!(seen.len(), 6);
}

#[test]
fn face_vertices_lie_on_their_face() {
    // Every corner of the front face has z == 1; every corner of the back
    // face has z == -1.
    for v in face(FRONT) {
        assert_eq!(v.pz, 1);
        assert!(v.px == -1 || v.px == 1);
        assert!(v.py == -1 || v.py == 1);
    }
    for v in face(BACK) {
        assert_eq!(v.pz, -1);
    }
    let first = face(FRONT)[0];
    assert_eq!((first.px, first.py, first.pz, first.tu, first.tv), (-1, -1, 1, 1, 1));
}

#[test]
fn index_pattern_triangulates_a_quad() {
    let pattern = face_index_pattern();
    assert_eq!(pattern, vec![0, 1, 2, 3, 0, 2]);
}

#[test]
fn cube_face_slices_the_tables() {
    let (verts, idx) = Cube::face(1);
    assert_eq!(verts.len(), 4);
    assert_eq!(idx, vec![6, 5, 4, 6, 4, 7]);
    let first = verts[0];
    assert_eq!((first.px, first.py, first.pz), (-1, -1, -1));
}

#[test]
fn cube_mesh_counts() {
    let mesh = Cube::mesh(MaterialId(5));
    assert_eq!(mesh.label, "Cube");
    assert_eq!(mesh.num_indices, 36);
    assert_eq!(mesh.num_instances, 2);
    assert_eq!(mesh.material_id, MaterialId(5));
}

#[test]
fn vertex_translation_keeps_texture() {
    let v = ModelVertex { px: -1, py: 1, pz: 1, tu: 0, tv: 1 };
    let moved = v.add(10, -2, 4);
    assert_eq!((moved.px, moved.py, moved.pz), (9, -1, 5));
    assert_eq!((moved.tu, moved.tv), (0, 1));
}

#[test]
fn mesh_record_sizes_to_its_inputs() {
    let vertices = vec![ModelVertex { px: 0, py: 0, pz: 0, tu: 0, tv: 0 }];
    let indices: Vec<u16> = vec![0, 0, 0];
    let instances = vec![ModelInstance::from_position(1, 2, 3), ModelInstance::new(0, 0, 0)];
    let mesh = Mesh::from_vertex("Thing".to_owned(), &vertices, &indices, &instances, MaterialId(1));
    assert_eq!(mesh.num_indices, 3);
    assert_eq!(mesh.num_instances, 2);
    assert_eq!(mesh.label, "Thing");
    // Degenerate inputs make a valid zero-draw mesh.
    let none: Vec<u16> = Vec::new();
    let empty = Mesh::from_vertex("Empty".to_owned(), &Vec::new(), &none, &instances, MaterialId(0));
    assert_eq!(empty.num_indices, 0);
}

#[test]
fn model_update_refreshes_index_count() {
    let vertices = vec![ModelVertex { px: 0, py: 0, pz: 0, tu: 0, tv: 0 }];
    let indices: Vec<u16> = vec![0, 0, 0];
    let instances = vec![ModelInstance::from_position(0, 0, 0)];
    let mut mesh = Mesh::from_vertex("M".to_owned(), &vertices, &indices, &instances, MaterialId(2));
    let model = Model { vertices, indices: vec![0, 0, 0, 0, 0, 0] };
    model.update_mesh(&mut mesh);
    assert_eq!(mesh.num_indices, 6);
    assert_eq!(mesh.num_instances, 1);
    assert_eq!(mesh.material_id, MaterialId(2));
}

#[test]
fn plugins_register_their_components() {
    let mut builder = WorldBuilder::new();
    BasicPlugin.setup(&mut builder);
    voxelia::chunk::ChunkPlugin.setup(&mut builder);
    voxelia::events::EventsPlugin.setup(&mut builder);
    assert_eq!(
        builder.kinds,
        vec![ComponentKind::Position, ComponentKind::Chunk, ComponentKind::Created]
    );
    let p = Position::new(1, 2, 3);
    assert_eq!((p.x, p.y, p.z), (1, 2, 3));
}
