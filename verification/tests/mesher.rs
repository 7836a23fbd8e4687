//! Tests for the face-culling mesher: boundary-only output for solid chunks,
//! empty output for empty chunks, occlusion of shared faces, index validity,
//! determinism, and the seed-data regression fixture.

use voxelia::chunk::Chunk;
use voxelia::meshing::{to_mesh, ChunkModel};
use voxelia::model::MaterialId;
use voxelia::Position;

fn solid_chunk() -> Chunk {
    Chunk { data: [1u8; 64] }
}

fn empty_chunk() -> Chunk {
    Chunk { data: [0u8; 64] }
}

/// The 4x4x4 occupancy used as seed data: three x-planes holding blocks at
/// (y0, z0), (y0, z3) and (y3, z3), and one fully solid x-plane.
fn seed_chunk() -> Chunk {
    Chunk {
        data: [
            1, 0, 0, 1, 0, 0, 0, 0, 0, 0, 0, 0, 0, 0, 0, 1, //
            1, 0, 0, 1, 0, 0, 0, 0, 0, 0, 0, 0, 0, 0, 0, 1, //
            1, 0, 0, 1, 0, 0, 0, 0, 0, 0, 0, 0, 0, 0, 0, 1, //
            1, 1, 1, 1, 1, 1, 1, 1, 1, 1, 1, 1, 1, 1, 1, 1, //
        ],
    }
}

fn origin() -> Position {
    Position::new(0, 0, 0)
}

#[test]
fn empty_chunk_emits_nothing() {
    let (model, mesh) = ChunkModel::from_data(&origin(), &empty_chunk(), MaterialId(0));
    assert_eq!(model.vertices.len(), 0);
    assert_eq!(model.indices.len(), 0);
    assert_eq!(mesh.num_indices, 0);
    assert_eq!(mesh.num_instances, 1);
}

#[test]
fn solid_chunk_emits_boundary_faces_only() {
    // 6 walls of 16 block faces each: 96 faces, 4 vertices and 6 indices per
    // face.
    let (model, mesh) = ChunkModel::from_data(&origin(), &solid_chunk(), MaterialId(0));
    assert_eq!(model.vertices.len(), 96 * 4);
    assert_eq!(model.indices.len(), 96 * 6);
    assert_eq!(mesh.num_indices, 96 * 6);
    // Every emitted face lies flat on a chunk wall: each group of four
    // vertices shares a coordinate that is -1 or 7 (the outer surfaces of a
    // chunk spanning 0..6 in block-centre coordinates).
    for f in 0..96 {
        let quad = &model.vertices[4 * f..4 * f + 4];
        let on_wall = |pick: fn(&voxelia::vertex::ModelVertex) -> i64| {
            let v = pick(&quad[0]);
            (v == -1 || v == 7) && quad.iter().all(|q| pick(q) == v)
        };
        assert!(
            on_wall(|q| q.px) || on_wall(|q| q.py) || on_wall(|q| q.pz),
            "face {} does not lie on a chunk wall",
            f
        );
    }
}

#[test]
fn adjacent_blocks_share_no_face() {
    // Two unit cubes touching on one face: 6 + 6 faces minus the 2 mutually
    // occluded ones.
    let mut chunk = empty_chunk();
    chunk.data[0] = 1; // block (0, 0, 0)
    chunk.data[16] = 1; // block (1, 0, 0)
    let (model, mesh) = ChunkModel::from_data(&origin(), &chunk, MaterialId(0));
    assert_eq!(model.vertices.len(), 10 * 4);
    assert_eq!(model.indices.len(), 10 * 6);
    assert_eq!(mesh.num_indices, 10 * 6);
}

#[test]
fn indices_never_reference_unemitted_vertices() {
    let (model, _) = ChunkModel::from_data(&origin(), &seed_chunk(), MaterialId(0));
    for (j, &ix) in model.indices.iter().enumerate() {
        // Strictly below the vertex count at the time the face was emitted.
        assert!((ix as usize) < 4 * (j / 6 + 1));
        assert!((ix as usize) < model.vertices.len());
    }
}

#[test]
fn mesher_is_deterministic() {
    let position = Position::new(2, -1, 5);
    let (m1, mesh1) = ChunkModel::from_data(&position, &seed_chunk(), MaterialId(3));
    let (m2, mesh2) = ChunkModel::from_data(&position, &seed_chunk(), MaterialId(3));
    assert_eq!(m1.vertices, m2.vertices);
    assert_eq!(m1.indices, m2.indices);
    assert_eq!(mesh1.num_indices, mesh2.num_indices);
    assert_eq!(mesh1.num_instances, mesh2.num_instances);
}

#[test]
fn seed_chunk_regression() {
    // Recorded expected face count for the seed occupancy: 39 faces from the
    // three sparse planes plus 45 from the solid plane.
    let (model, mesh) = ChunkModel::from_data(&origin(), &seed_chunk(), MaterialId(0));
    assert_eq!(model.vertices.len(), 84 * 4);
    assert_eq!(model.indices.len(), 84 * 6);
    assert_eq!(mesh.num_indices, 84 * 6);
    assert_eq!(mesh.num_instances, 1);
    assert_eq!(mesh.label, "Chunk");
}

#[test]
fn world_offset_is_baked_into_vertices() {
    let (at_origin, _) = ChunkModel::from_data(&origin(), &seed_chunk(), MaterialId(0));
    let (shifted, _) = ChunkModel::from_data(&Position::new(1, 0, -2), &seed_chunk(), MaterialId(0));
    assert_eq!(at_origin.vertices.len(), shifted.vertices.len());
    for (a, b) in at_origin.vertices.iter().zip(shifted.vertices.iter()) {
        // One chunk step is 4 blocks of 2 units.
        assert_eq!(b.px, a.px + 8);
        assert_eq!(b.py, a.py);
        assert_eq!(b.pz, a.pz - 16);
        assert_eq!(b.tu, a.tu);
        assert_eq!(b.tv, a.tv);
    }
}

#[test]
fn global_chunk_position_scales_by_chunk_span() {
    let g = ChunkModel::global_chunk_position(&Position::new(3, 0, -2));
    assert_eq!(g, (24, 0, -16));
}

#[test]
fn nested_grid_meshes_like_flat_data() {
    // The same seed occupancy written as a nested [x][y][z] grid.
    let mut nested = [[[0u8; 4]; 4]; 4];
    let flat = seed_chunk();
    for x in 0..4 {
        for y in 0..4 {
            for z in 0..4 {
                nested[x][y][z] = flat.data[z + 4 * y + 16 * x];
            }
        }
    }
    let position = Position::new(0, 1, 0);
    let (from_nested, nested_mesh) = to_mesh(&position, nested, MaterialId(2));
    let (from_flat, flat_mesh) = ChunkModel::from_data(&position, &flat, MaterialId(2));
    assert_eq!(from_nested.vertices, from_flat.vertices);
    assert_eq!(from_nested.indices, from_flat.indices);
    assert_eq!(nested_mesh.num_indices, flat_mesh.num_indices);
}
