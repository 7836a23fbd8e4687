//! The face-culling mesher: walks a chunk's occupancy grid and emits the
//! vertex and index arrays of exactly the visible faces of its solid blocks.
//!
//! A face of a solid block is visible when its neighbour lies outside the
//! chunk or is empty; a face between two solid blocks is never emitted.
//! Blocks are walked in a fixed order (x outer, y middle, z inner, then the
//! six face directions), so the output is a deterministic function of the
//! occupancy data and the chunk's world position. The specification below
//! builds that output sequence level by level — one face, one cell, one row,
//! one plane, the whole grid — and the executable mesher is proved to emit
//! it exactly.

use vstd::prelude::*;
use crate::block::BlockPosition;
use crate::chunk::{block_index, Chunk, CHUNK_HEIGHT, CHUNK_LENGTH, CHUNK_WIDTH};
use crate::cube::{cube_vertex, dir_x, dir_y, dir_z, face, face_displacement, index_pattern, lemma_cube_vertex_bounds};
use crate::instance::ModelInstance;
use crate::model::{MaterialId, Mesh, Model};
use crate::vertex::{ModelIndex, ModelVertex};
use crate::Position;

verus! {

/// True when (x, y, z) is a cell of the chunk grid.
pub open spec fn in_chunk(x: int, y: int, z: int) -> bool {
    &&& 0 <= x < CHUNK_WIDTH
    &&& 0 <= y < CHUNK_HEIGHT
    &&& 0 <= z < CHUNK_LENGTH
}

/// True when (x, y, z) is a cell of the chunk and holds a solid block. Cells
/// outside the chunk count as empty: nothing beyond the chunk occludes.
pub open spec fn solid(c: Seq<u8>, x: int, y: int, z: int) -> bool {
    in_chunk(x, y, z) && c[block_index(x, y, z)] != 0
}

/// The fundamental occlusion rule: face `d` of the block at (x, y, z) is
/// emitted exactly when the block is solid and its neighbour across that face
/// is not (out of bounds or empty).
pub open spec fn visible(c: Seq<u8>, x: int, y: int, z: int, d: int) -> bool {
    solid(c, x, y, z) && !solid(c, x + dir_x(d), y + dir_y(d), z + dir_z(d))
}

/// Chunk positions the mesher accepts: roomy enough for any real world while
/// keeping every emitted coordinate comfortably inside `i64`.
pub open spec fn position_in_range(p: Position) -> bool {
    &&& -0x4000_0000_0000 <= p.x <= 0x4000_0000_0000
    &&& -0x4000_0000_0000 <= p.y <= 0x4000_0000_0000
    &&& -0x4000_0000_0000 <= p.z <= 0x4000_0000_0000
}

/// World-space offset of the centre of block (x, _, _) in a chunk placed at
/// `p`: blocks are 2 units wide and a chunk is 4 blocks, so the chunk spans
/// 8 units per axis.
pub open spec fn offset_x(p: Position, x: int) -> int {
    2 * x + 8 * p.x
}

pub open spec fn offset_y(p: Position, y: int) -> int {
    2 * y + 8 * p.y
}

pub open spec fn offset_z(p: Position, z: int) -> int {
    2 * z + 8 * p.z
}

/// A cube-corner vertex translated to its world position.
pub open spec fn placed(v: ModelVertex, gx: int, gy: int, gz: int) -> ModelVertex {
    ModelVertex {
        px: (v.px + gx) as i64,
        py: (v.py + gy) as i64,
        pz: (v.pz + gz) as i64,
        tu: v.tu,
        tv: v.tv,
    }
}

/// The vertices contributed by face `d` of the block at (x, y, z): its four
/// corners if the face is visible, nothing otherwise.
pub open spec fn step_verts(c: Seq<u8>, p: Position, x: int, y: int, z: int, d: int) -> Seq<
    ModelVertex,
> {
    if visible(c, x, y, z, d) {
        seq![
            placed(cube_vertex(d, 0), offset_x(p, x), offset_y(p, y), offset_z(p, z)),
            placed(cube_vertex(d, 1), offset_x(p, x), offset_y(p, y), offset_z(p, z)),
            placed(cube_vertex(d, 2), offset_x(p, x), offset_y(p, y), offset_z(p, z)),
            placed(cube_vertex(d, 3), offset_x(p, x), offset_y(p, y), offset_z(p, z)),
        ]
    } else {
        Seq::empty()
    }
}

/// 1 when face `d` of block (x, y, z) is visible, else 0.
pub open spec fn step_count(c: Seq<u8>, x: int, y: int, z: int, d: int) -> int {
    if visible(c, x, y, z, d) {
        1
    } else {
        0
    }
}

/// Number of visible faces among the first `d` faces of block (x, y, z).
pub open spec fn count_cell(c: Seq<u8>, x: int, y: int, z: int, d: int) -> int
    decreases d,
{
    if d <= 0 {
        0
    } else {
        count_cell(c, x, y, z, d - 1) + step_count(c, x, y, z, d - 1)
    }
}

/// Number of visible faces of the first `z` blocks of row (x, y).
pub open spec fn count_row(c: Seq<u8>, x: int, y: int, z: int) -> int
    decreases z,
{
    if z <= 0 {
        0
    } else {
        count_row(c, x, y, z - 1) + count_cell(c, x, y, z - 1, 6)
    }
}

/// Number of visible faces of the first `y` rows of plane `x`.
pub open spec fn count_plane(c: Seq<u8>, x: int, y: int) -> int
    decreases y,
{
    if y <= 0 {
        0
    } else {
        count_plane(c, x, y - 1) + count_row(c, x, y - 1, 4)
    }
}

/// Number of visible faces of the first `x` planes of the chunk.
pub open spec fn count_grid(c: Seq<u8>, x: int) -> int
    decreases x,
{
    if x <= 0 {
        0
    } else {
        count_grid(c, x - 1) + count_plane(c, x - 1, 4)
    }
}

/// Total number of faces the mesher emits for occupancy `c`.
pub open spec fn face_count(c: Seq<u8>) -> int {
    count_grid(c, 4)
}

/// Vertices of the first `d` faces of block (x, y, z).
pub open spec fn verts_cell(c: Seq<u8>, p: Position, x: int, y: int, z: int, d: int) -> Seq<
    ModelVertex,
>
    decreases d,
{
    if d <= 0 {
        Seq::empty()
    } else {
        verts_cell(c, p, x, y, z, d - 1) + step_verts(c, p, x, y, z, d - 1)
    }
}

/// Vertices of the first `z` blocks of row (x, y).
pub open spec fn verts_row(c: Seq<u8>, p: Position, x: int, y: int, z: int) -> Seq<ModelVertex>
    decreases z,
{
    if z <= 0 {
        Seq::empty()
    } else {
        verts_row(c, p, x, y, z - 1) + verts_cell(c, p, x, y, z - 1, 6)
    }
}

/// Vertices of the first `y` rows of plane `x`.
pub open spec fn verts_plane(c: Seq<u8>, p: Position, x: int, y: int) -> Seq<ModelVertex>
    decreases y,
{
    if y <= 0 {
        Seq::empty()
    } else {
        verts_plane(c, p, x, y - 1) + verts_row(c, p, x, y - 1, 4)
    }
}

/// Vertices of the first `x` planes of the chunk.
pub open spec fn verts_grid(c: Seq<u8>, p: Position, x: int) -> Seq<ModelVertex>
    decreases x,
{
    if x <= 0 {
        Seq::empty()
    } else {
        verts_grid(c, p, x - 1) + verts_plane(c, p, x - 1, 4)
    }
}

/// The full vertex array the mesher emits for occupancy `c` at position `p`.
pub open spec fn mesh_vertices(c: Seq<u8>, p: Position) -> Seq<ModelVertex> {
    verts_grid(c, p, 4)
}

/// Value `j` of the emitted index array. Face number `j / 6` starts at vertex
/// `4 * (j / 6)`, and the pattern walks that face's four corners, so the
/// index array is determined by the face count alone.
pub open spec fn mesh_index(j: int) -> int {
    4 * (j / 6) + index_pattern(j % 6)
}

/// Faces already emitted when the walk stands at block (x, y, z), face `d`.
pub open spec fn prefix_count(c: Seq<u8>, x: int, y: int, z: int, d: int) -> int {
    count_grid(c, x) + count_plane(c, x, y) + count_row(c, x, y, z) + count_cell(c, x, y, z, d)
}

/// Vertices already emitted when the walk stands at block (x, y, z), face
/// `d`.
pub open spec fn prefix_verts(c: Seq<u8>, p: Position, x: int, y: int, z: int, d: int) -> Seq<
    ModelVertex,
> {
    verts_grid(c, p, x) + verts_plane(c, p, x, y) + verts_row(c, p, x, y, z) + verts_cell(
        c,
        p,
        x,
        y,
        z,
        d,
    )
}

/// Taking one face step extends the emitted prefix by that face's output.
proof fn lemma_prefix_step_d(c: Seq<u8>, p: Position, x: int, y: int, z: int, d: int)
    requires
        0 <= d,
    ensures
        prefix_verts(c, p, x, y, z, d + 1) == prefix_verts(c, p, x, y, z, d) + step_verts(
            c,
            p,
            x,
            y,
            z,
            d,
        ),
        prefix_count(c, x, y, z, d + 1) == prefix_count(c, x, y, z, d) + step_count(c, x, y, z, d),
{
    assert(prefix_verts(c, p, x, y, z, d + 1) =~= prefix_verts(c, p, x, y, z, d) + step_verts(
        c,
        p,
        x,
        y,
        z,
        d,
    ));
}

/// Finishing a block's six faces lands the walk on the next block of the row.
proof fn lemma_prefix_step_z(c: Seq<u8>, p: Position, x: int, y: int, z: int)
    requires
        0 <= z,
    ensures
        prefix_verts(c, p, x, y, z + 1, 0) == prefix_verts(c, p, x, y, z, 6),
        prefix_count(c, x, y, z + 1, 0) == prefix_count(c, x, y, z, 6),
{
    assert(prefix_verts(c, p, x, y, z + 1, 0) =~= prefix_verts(c, p, x, y, z, 6));
}

/// Finishing a row lands the walk on the next row of the plane.
proof fn lemma_prefix_step_y(c: Seq<u8>, p: Position, x: int, y: int)
    requires
        0 <= y,
    ensures
        prefix_verts(c, p, x, y + 1, 0, 0) == prefix_verts(c, p, x, y, 4, 0),
        prefix_count(c, x, y + 1, 0, 0) == prefix_count(c, x, y, 4, 0),
{
    assert(prefix_verts(c, p, x, y + 1, 0, 0) =~= prefix_verts(c, p, x, y, 4, 0));
}

/// Finishing a plane lands the walk on the next plane of the grid.
proof fn lemma_prefix_step_x(c: Seq<u8>, p: Position, x: int)
    requires
        0 <= x,
    ensures
        prefix_verts(c, p, x + 1, 0, 0, 0) == prefix_verts(c, p, x, 4, 0, 0),
        prefix_count(c, x + 1, 0, 0, 0) == prefix_count(c, x, 4, 0, 0),
{
    assert(prefix_verts(c, p, x + 1, 0, 0, 0) =~= prefix_verts(c, p, x, 4, 0, 0));
}

/// Before the walk starts nothing has been emitted, and after the last plane
/// the prefix is the whole output.
proof fn lemma_prefix_ends(c: Seq<u8>, p: Position)
    ensures
        prefix_verts(c, p, 0, 0, 0, 0) == Seq::<ModelVertex>::empty(),
        prefix_count(c, 0, 0, 0, 0) == 0,
        prefix_verts(c, p, 4, 0, 0, 0) == mesh_vertices(c, p),
        prefix_count(c, 4, 0, 0, 0) == face_count(c),
{
    assert(prefix_verts(c, p, 0, 0, 0, 0) =~= Seq::<ModelVertex>::empty());
    assert(prefix_verts(c, p, 4, 0, 0, 0) =~= mesh_vertices(c, p));
}

/// Index `6 * f + r` of the index array belongs to face `f` and carries the
/// pattern value for corner slot `r`.
proof fn lemma_mesh_index_face(f: int, r: int)
    requires
        0 <= f,
        0 <= r < 6,
    ensures
        mesh_index(6 * f + r) == 4 * f + index_pattern(r),
{
    vstd::arithmetic::div_mod::lemma_fundamental_div_mod_converse(6 * f + r, 6, f, r);
}

/// A block that is not solid contributes no faces at all.
pub(crate) proof fn lemma_cell_not_solid(c: Seq<u8>, p: Position, x: int, y: int, z: int, d: int)
    requires
        !solid(c, x, y, z),
        0 <= d <= 6,
    ensures
        verts_cell(c, p, x, y, z, d) == Seq::<ModelVertex>::empty(),
        count_cell(c, x, y, z, d) == 0,
    decreases d,
{
    if d > 0 {
        lemma_cell_not_solid(c, p, x, y, z, d - 1);
        assert(verts_cell(c, p, x, y, z, d) =~= Seq::<ModelVertex>::empty());
    }
}

/// Every value of the index array points strictly below the vertex count of
/// the face it belongs to, hence below the total vertex count: the index
/// buffer never references a vertex that has not been emitted yet.
pub proof fn lemma_mesh_index_bound(j: int, fcount: int)
    requires
        0 <= j < 6 * fcount,
    ensures
        0 <= mesh_index(j),
        mesh_index(j) < 4 * (j / 6) + 4,
        mesh_index(j) < 4 * fcount,
{
    vstd::arithmetic::div_mod::lemma_fundamental_div_mod(j, 6);
}

/// A chunk's generated model together with its mesh record.
pub struct ChunkModel {
    pub model: Model,
    pub mesh: Mesh,
}

impl ChunkModel {
    /// World-space offset of the chunk at `position`: the position scaled by
    /// the chunk dimension (4 blocks) times the block size (2 units).
    pub fn global_chunk_position(position: &Position) -> (r: (i64, i64, i64))
        requires
            position_in_range(*position),
        ensures
            r.0 == 8 * position.x,
            r.1 == 8 * position.y,
            r.2 == 8 * position.z,
    {
        proof {
            assert(CHUNK_WIDTH as i64 == 4);
        }
        (
            position.x * (CHUNK_WIDTH as i64) * 2,
            position.y * (CHUNK_HEIGHT as i64) * 2,
            position.z * (CHUNK_LENGTH as i64) * 2,
        )
    }

    /// Meshes one chunk: emits the four corners and six triangle indices of
    /// every visible face, in the fixed walk order, with the chunk's world
    /// offset baked into the vertex positions; the mesh record carries the
    /// resulting counts, a single identity instance and the given material.
    #[verifier::loop_isolation(false)]
    #[verifier::rlimit(100)]
    pub fn from_data(position: &Position, chunk: &Chunk, material_id: MaterialId) -> (r: (
        Model,
        Mesh,
    ))
        requires
            position_in_range(*position),
        ensures
            r.0.vertices@ == mesh_vertices(chunk.data@, *position),
            r.0.vertices@.len() == 4 * face_count(chunk.data@),
            r.0.indices@.len() == 6 * face_count(chunk.data@),
            forall|j: int| 0 <= j < r.0.indices@.len() ==> r.0.indices@[j] == mesh_index(j),
            forall|j: int|
                0 <= j < r.0.indices@.len() ==> r.0.indices@[j] < r.0.vertices@.len(),
            r.1.label@ == "Chunk"@,
            r.1.num_indices == 6 * face_count(chunk.data@),
            r.1.num_instances == 1,
            r.1.material_id == material_id,
    {
        let ghost c = chunk.data@;
        let ghost p = *position;
        let mut vertices: Vec<ModelVertex> = Vec::new();
        let mut indices: Vec<ModelIndex> = Vec::new();
        let g = Self::global_chunk_position(position);

        proof {
            lemma_prefix_ends(c, p);
        }
        let mut x: usize = 0;
        while x < CHUNK_WIDTH
            invariant
                x <= 4,
                vertices@ == prefix_verts(c, p, x as int, 0, 0, 0),
                vertices@.len() == 4 * prefix_count(c, x as int, 0, 0, 0),
                indices@.len() == 6 * prefix_count(c, x as int, 0, 0, 0),
                0 <= prefix_count(c, x as int, 0, 0, 0) <= 96 * x,
                forall|j: int| 0 <= j < indices@.len() ==> indices@[j] == mesh_index(j),
            decreases 4 - x,
        {
            let mut y: usize = 0;
            while y < CHUNK_HEIGHT
                invariant
                    x < 4,
                    y <= 4,
                    vertices@ == prefix_verts(c, p, x as int, y as int, 0, 0),
                    vertices@.len() == 4 * prefix_count(c, x as int, y as int, 0, 0),
                    indices@.len() == 6 * prefix_count(c, x as int, y as int, 0, 0),
                    0 <= prefix_count(c, x as int, y as int, 0, 0) <= 96 * x + 24 * y,
                    forall|j: int| 0 <= j < indices@.len() ==> indices@[j] == mesh_index(j),
                decreases 4 - y,
            {
                let mut z: usize = 0;
                while z < CHUNK_LENGTH
                    invariant
                        x < 4,
                        y < 4,
                        z <= 4,
                        vertices@ == prefix_verts(c, p, x as int, y as int, z as int, 0),
                        vertices@.len() == 4 * prefix_count(c, x as int, y as int, z as int, 0),
                        indices@.len() == 6 * prefix_count(c, x as int, y as int, z as int, 0),
                        0 <= prefix_count(c, x as int, y as int, z as int, 0) <= 96 * x + 24 * y
                            + 6 * z,
                        forall|j: int| 0 <= j < indices@.len() ==> indices@[j] == mesh_index(j),
                    decreases 4 - z,
                {
                    let coord = BlockPosition::new(x as i64, y as i64, z as i64);
                    if chunk.get(&coord) != 0 {
                        let mut d: usize = 0;
                        while d < 6
                            invariant
                                x < 4,
                                y < 4,
                                z < 4,
                                d <= 6,
                                vertices@ == prefix_verts(
                                    c,
                                    p,
                                    x as int,
                                    y as int,
                                    z as int,
                                    d as int,
                                ),
                                vertices@.len() == 4 * prefix_count(
                                    c,
                                    x as int,
                                    y as int,
                                    z as int,
                                    d as int,
                                ),
                                indices@.len() == 6 * prefix_count(
                                    c,
                                    x as int,
                                    y as int,
                                    z as int,
                                    d as int,
                                ),
                                0 <= prefix_count(c, x as int, y as int, z as int, d as int) <= 96
                                    * x + 24 * y + 6 * z + d,
                                forall|j: int|
                                    0 <= j < indices@.len() ==> indices@[j] == mesh_index(j),
                            decreases 6 - d,
                        {
                            let disp = face_displacement(d);
                            let mut neighbor = coord.add(&disp);
                            if neighbor.is_out() || chunk.get(&neighbor) == 0 {
                                proof {
                                    assert(visible(c, x as int, y as int, z as int, d as int));
                                }
                                let ghost f = prefix_count(
                                    c,
                                    x as int,
                                    y as int,
                                    z as int,
                                    d as int,
                                );
                                let base = vertices.len() as u16;
                                indices.push(base);
                                indices.push(base + 1);
                                indices.push(base + 2);
                                indices.push(base + 3);
                                indices.push(base);
                                indices.push(base + 2);
                                let fv = face(d);
                                let ox = g.0 + 2 * (x as i64);
                                let oy = g.1 + 2 * (y as i64);
                                let oz = g.2 + 2 * (z as i64);
                                proof {
                                    lemma_cube_vertex_bounds(d as int, 0);
                                    lemma_cube_vertex_bounds(d as int, 1);
                                    lemma_cube_vertex_bounds(d as int, 2);
                                    lemma_cube_vertex_bounds(d as int, 3);
                                }
                                vertices.push(fv[0].add(ox, oy, oz));
                                vertices.push(fv[1].add(ox, oy, oz));
                                vertices.push(fv[2].add(ox, oy, oz));
                                vertices.push(fv[3].add(ox, oy, oz));
                                proof {
                                    assert(vertices@ =~= prefix_verts(
                                        c,
                                        p,
                                        x as int,
                                        y as int,
                                        z as int,
                                        d as int,
                                    ) + step_verts(c, p, x as int, y as int, z as int, d as int));
                                    lemma_mesh_index_face(f, 0);
                                    lemma_mesh_index_face(f, 1);
                                    lemma_mesh_index_face(f, 2);
                                    lemma_mesh_index_face(f, 3);
                                    lemma_mesh_index_face(f, 4);
                                    lemma_mesh_index_face(f, 5);
                                }
                            } else {
                                proof {
                                    assert(!visible(c, x as int, y as int, z as int, d as int));
                                    assert(vertices@ =~= prefix_verts(
                                        c,
                                        p,
                                        x as int,
                                        y as int,
                                        z as int,
                                        d as int,
                                    ) + step_verts(c, p, x as int, y as int, z as int, d as int));
                                }
                            }
                            proof {
                                lemma_prefix_step_d(c, p, x as int, y as int, z as int, d as int);
                            }
                            d += 1;
                        }
                        proof {
                            lemma_prefix_step_z(c, p, x as int, y as int, z as int);
                        }
                    } else {
                        proof {
                            lemma_cell_not_solid(c, p, x as int, y as int, z as int, 6);
                            assert(prefix_verts(c, p, x as int, y as int, z as int, 6)
                                =~= prefix_verts(c, p, x as int, y as int, z as int, 0));
                            lemma_prefix_step_z(c, p, x as int, y as int, z as int);
                        }
                    }
                    z += 1;
                }
                proof {
                    lemma_prefix_step_y(c, p, x as int, y as int);
                }
                y += 1;
            }
            proof {
                lemma_prefix_step_x(c, p, x as int);
            }
            x += 1;
        }
        proof {
            lemma_prefix_ends(c, p);
            assert forall|j: int| 0 <= j < indices@.len() implies indices@[j] < vertices@.len() by {
                lemma_mesh_index_bound(j, face_count(c));
            }
        }

        let mut instances: Vec<ModelInstance> = Vec::new();
        instances.push(ModelInstance::from_position(0, 0, 0));
        let mesh = Mesh::from_vertex(
            "Chunk".to_owned(),
            &vertices,
            &indices,
            &instances,
            material_id,
        );

        (Model { vertices, indices }, mesh)
    }
}

/// The flat occupancy array described by a nested `[x][y][z]` grid: cell
/// (x, y, z) lands at `block_index(x, y, z)`.
pub open spec fn flat_of(data: [[[u8; 4]; 4]; 4]) -> Seq<u8> {
    Seq::new(64, |i: int| data@[i / 16]@[(i / 4) % 4]@[i % 4])
}

/// Meshes a chunk given as a nested `[x][y][z]` occupancy grid: the grid is
/// flattened and handed to the face-culling mesher, so the output is exactly
/// what [`ChunkModel::from_data`] emits for the same occupancy.
pub fn to_mesh(position: &Position, data: [[[u8; 4]; 4]; 4], material_id: MaterialId) -> (r: (
    Model,
    Mesh,
))
    requires
        position_in_range(*position),
    ensures
        r.0.vertices@ == mesh_vertices(flat_of(data), *position),
        r.0.vertices@.len() == 4 * face_count(flat_of(data)),
        r.0.indices@.len() == 6 * face_count(flat_of(data)),
        forall|j: int| 0 <= j < r.0.indices@.len() ==> r.0.indices@[j] == mesh_index(j),
        forall|j: int| 0 <= j < r.0.indices@.len() ==> r.0.indices@[j] < r.0.vertices@.len(),
        r.1.label@ == "Chunk"@,
        r.1.num_indices == 6 * face_count(flat_of(data)),
        r.1.num_instances == 1,
        r.1.material_id == material_id,
{
    let mut flat: [u8; 64] = [0u8; 64];
    let mut i: usize = 0;
    while i < 64
        invariant
            i <= 64,
            forall|j: int| 0 <= j < i ==> flat@[j] == flat_of(data)[j],
        decreases 64 - i,
    {
        let ix = i / 16;
        let iy = (i / 4) % 4;
        let iz = i % 4;
        assert(ix < 4 && iy < 4 && iz < 4);
        flat[i] = data[ix][iy][iz];
        i += 1;
    }
    proof {
        assert(flat@ =~= flat_of(data));
    }
    let chunk = Chunk { data: flat };
    ChunkModel::from_data(position, &chunk, material_id)
}

} // verus!
