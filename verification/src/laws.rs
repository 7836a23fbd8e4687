//! Proved properties of the mesher, stated over the specification model in
//! [`crate::meshing`]: what a fully solid chunk emits, what an empty chunk
//! emits, that a face shared by two solid blocks is never emitted, and that
//! the output is a function of the occupancy and position alone.

use vstd::prelude::*;
use crate::cube::{dir_x, dir_y, dir_z, BACK, BOTTOM, FRONT, LEFT, RIGHT, TOP};
use crate::meshing::{
    count_cell, count_grid, count_plane, count_row, face_count, in_chunk, lemma_cell_not_solid,
    mesh_vertices, solid, verts_grid, verts_plane, verts_row, visible,
};
use crate::vertex::ModelVertex;
use crate::Position;

verus! {

/// Every cell of the occupancy array holds a solid block.
pub open spec fn all_solid(c: Seq<u8>) -> bool {
    c.len() == 64 && forall|i: int| 0 <= i < 64 ==> c[i] != 0
}

/// Every cell of the occupancy array is empty.
pub open spec fn all_empty(c: Seq<u8>) -> bool {
    c.len() == 64 && forall|i: int| 0 <= i < 64 ==> c[i] == 0
}

/// How many of a coordinate's two chunk walls it touches: 1 at either wall,
/// 0 in the interior.
pub open spec fn axis_boundary(v: int) -> int {
    (if v == 0 {
        1int
    } else {
        0int
    }) + (if v == 3 {
        1int
    } else {
        0int
    })
}

/// Number of faces of the block at (x, y, z) that lie on the chunk boundary.
pub open spec fn boundary_faces(x: int, y: int, z: int) -> int {
    axis_boundary(x) + axis_boundary(y) + axis_boundary(z)
}

/// In a fully solid chunk, a block's visible faces are exactly its boundary
/// faces.
proof fn lemma_cell_count_solid(c: Seq<u8>, x: int, y: int, z: int)
    requires
        all_solid(c),
        in_chunk(x, y, z),
    ensures
        count_cell(c, x, y, z, 6) == boundary_faces(x, y, z),
{
    reveal_with_fuel(count_cell, 7);
    assert(step_eq(c, x, y, z, FRONT as int, if z == 3 {
        1int
    } else {
        0int
    }));
    assert(step_eq(c, x, y, z, BACK as int, if z == 0 {
        1int
    } else {
        0int
    }));
    assert(step_eq(c, x, y, z, LEFT as int, if x == 0 {
        1int
    } else {
        0int
    }));
    assert(step_eq(c, x, y, z, RIGHT as int, if x == 3 {
        1int
    } else {
        0int
    }));
    assert(step_eq(c, x, y, z, TOP as int, if y == 3 {
        1int
    } else {
        0int
    }));
    assert(step_eq(c, x, y, z, BOTTOM as int, if y == 0 {
        1int
    } else {
        0int
    }));
}

/// Helper equality so each face direction can be settled one at a time.
spec fn step_eq(c: Seq<u8>, x: int, y: int, z: int, d: int, v: int) -> bool {
    crate::meshing::step_count(c, x, y, z, d) == v
}

/// Row total for a fully solid chunk.
proof fn lemma_row_count_solid(c: Seq<u8>, x: int, y: int)
    requires
        all_solid(c),
        0 <= x < 4,
        0 <= y < 4,
    ensures
        count_row(c, x, y, 4) == 4 * (axis_boundary(x) + axis_boundary(y)) + 2,
{
    reveal_with_fuel(count_row, 5);
    lemma_cell_count_solid(c, x, y, 0);
    lemma_cell_count_solid(c, x, y, 1);
    lemma_cell_count_solid(c, x, y, 2);
    lemma_cell_count_solid(c, x, y, 3);
}

/// Plane total for a fully solid chunk.
proof fn lemma_plane_count_solid(c: Seq<u8>, x: int)
    requires
        all_solid(c),
        0 <= x < 4,
    ensures
        count_plane(c, x, 4) == 16 * axis_boundary(x) + 16,
{
    reveal_with_fuel(count_plane, 5);
    lemma_row_count_solid(c, x, 0);
    lemma_row_count_solid(c, x, 1);
    lemma_row_count_solid(c, x, 2);
    lemma_row_count_solid(c, x, 3);
}

/// For a fully solid chunk the mesher emits exactly the boundary faces: a
/// face is visible precisely when its neighbour falls outside the chunk, no
/// face between two adjacent solid cells is ever emitted, and the total is
/// the 96 outer faces of the 4x4x4 cube (6 walls of 16 block faces each).
pub proof fn lemma_solid_chunk_boundary_faces(c: Seq<u8>)
    requires
        all_solid(c),
    ensures
        forall|x: int, y: int, z: int, d: int|
            in_chunk(x, y, z) && 0 <= d < 6 ==> (#[trigger] visible(c, x, y, z, d) <==> !in_chunk(
                x + dir_x(d),
                y + dir_y(d),
                z + dir_z(d),
            )),
        face_count(c) == 96,
{
    assert forall|x: int, y: int, z: int, d: int|
        in_chunk(x, y, z) && 0 <= d < 6 implies (#[trigger] visible(c, x, y, z, d) <==> !in_chunk(
        x + dir_x(d),
        y + dir_y(d),
        z + dir_z(d),
    )) by {
        assert(solid(c, x, y, z));
    }
    reveal_with_fuel(count_grid, 5);
    lemma_plane_count_solid(c, 0);
    lemma_plane_count_solid(c, 1);
    lemma_plane_count_solid(c, 2);
    lemma_plane_count_solid(c, 3);
}

/// Row of an empty chunk: nothing is emitted.
proof fn lemma_row_empty(c: Seq<u8>, p: Position, x: int, y: int, z: int)
    requires
        all_empty(c),
        0 <= x < 4,
        0 <= y < 4,
        0 <= z <= 4,
    ensures
        count_row(c, x, y, z) == 0,
        verts_row(c, p, x, y, z) == Seq::<ModelVertex>::empty(),
    decreases z,
{
    if z > 0 {
        lemma_row_empty(c, p, x, y, z - 1);
        lemma_cell_not_solid(c, p, x, y, z - 1, 6);
        assert(verts_row(c, p, x, y, z) =~= Seq::<ModelVertex>::empty());
    } else {
        assert(verts_row(c, p, x, y, z) =~= Seq::<ModelVertex>::empty());
    }
}

/// Plane of an empty chunk: nothing is emitted.
proof fn lemma_plane_empty(c: Seq<u8>, p: Position, x: int, y: int)
    requires
        all_empty(c),
        0 <= x < 4,
        0 <= y <= 4,
    ensures
        count_plane(c, x, y) == 0,
        verts_plane(c, p, x, y) == Seq::<ModelVertex>::empty(),
    decreases y,
{
    if y > 0 {
        lemma_plane_empty(c, p, x, y - 1);
        lemma_row_empty(c, p, x, y - 1, 4);
        assert(verts_plane(c, p, x, y) =~= Seq::<ModelVertex>::empty());
    } else {
        assert(verts_plane(c, p, x, y) =~= Seq::<ModelVertex>::empty());
    }
}

/// For a fully empty chunk the mesher emits nothing: no faces, no vertices,
/// and hence no indices.
pub proof fn lemma_empty_chunk_empty_mesh(c: Seq<u8>, p: Position)
    requires
        all_empty(c),
    ensures
        face_count(c) == 0,
        mesh_vertices(c, p) == Seq::<ModelVertex>::empty(),
{
    lemma_plane_empty(c, p, 0, 4);
    lemma_plane_empty(c, p, 1, 4);
    lemma_plane_empty(c, p, 2, 4);
    lemma_plane_empty(c, p, 3, 4);
    reveal_with_fuel(count_grid, 5);
    reveal_with_fuel(verts_grid, 5);
    assert(verts_grid(c, p, 1) =~= Seq::<ModelVertex>::empty());
    assert(verts_grid(c, p, 2) =~= Seq::<ModelVertex>::empty());
    assert(verts_grid(c, p, 3) =~= Seq::<ModelVertex>::empty());
    assert(verts_grid(c, p, 4) =~= Seq::<ModelVertex>::empty());
}

proof fn lemma_cell_len(c: Seq<u8>, p: Position, x: int, y: int, z: int, d: int)
    requires
        0 <= d,
    ensures
        crate::meshing::verts_cell(c, p, x, y, z, d).len() == 4 * count_cell(c, x, y, z, d),
    decreases d,
{
    if d > 0 {
        lemma_cell_len(c, p, x, y, z, d - 1);
    }
}

proof fn lemma_row_len(c: Seq<u8>, p: Position, x: int, y: int, z: int)
    requires
        0 <= z,
    ensures
        verts_row(c, p, x, y, z).len() == 4 * count_row(c, x, y, z),
    decreases z,
{
    if z > 0 {
        lemma_row_len(c, p, x, y, z - 1);
        lemma_cell_len(c, p, x, y, z - 1, 6);
    }
}

proof fn lemma_plane_len(c: Seq<u8>, p: Position, x: int, y: int)
    requires
        0 <= y,
    ensures
        verts_plane(c, p, x, y).len() == 4 * count_plane(c, x, y),
    decreases y,
{
    if y > 0 {
        lemma_plane_len(c, p, x, y - 1);
        lemma_row_len(c, p, x, y - 1, 4);
    }
}

proof fn lemma_grid_len(c: Seq<u8>, p: Position, x: int)
    requires
        0 <= x,
    ensures
        verts_grid(c, p, x).len() == 4 * count_grid(c, x),
    decreases x,
{
    if x > 0 {
        lemma_grid_len(c, p, x - 1);
        lemma_plane_len(c, p, x - 1, 4);
    }
}

/// The mesher's output guarantee on sizes, for every chunk: four vertices
/// per visible face (and, by [`crate::meshing::mesh_index`], six indices per
/// visible face).
pub proof fn lemma_vertex_count(c: Seq<u8>, p: Position)
    ensures
        mesh_vertices(c, p).len() == 4 * face_count(c),
{
    lemma_grid_len(c, p, 4);
}

/// The direction that points back across the same shared face.
pub open spec fn opposite(d: int) -> int {
    if d == FRONT {
        BACK as int
    } else if d == BACK {
        FRONT as int
    } else if d == LEFT {
        RIGHT as int
    } else if d == RIGHT {
        LEFT as int
    } else if d == TOP {
        BOTTOM as int
    } else {
        TOP as int
    }
}

/// The face shared by two adjacent solid blocks is never emitted, from
/// either side: each block occludes the other's face toward it.
pub proof fn lemma_shared_face_never_emitted(c: Seq<u8>, x: int, y: int, z: int, d: int)
    requires
        0 <= d < 6,
        solid(c, x, y, z),
        solid(c, x + dir_x(d), y + dir_y(d), z + dir_z(d)),
    ensures
        !visible(c, x, y, z, d),
        !visible(c, x + dir_x(d), y + dir_y(d), z + dir_z(d), opposite(d)),
{
}

/// The mesher's output is a function of the occupancy data and the chunk
/// position alone: equal inputs give bit-identical vertex and index arrays.
/// (The executable mesher's contract pins its output to [`mesh_vertices`]
/// and [`face_count`], so two runs on the same chunk and position return
/// identical buffers.)
pub proof fn lemma_mesher_deterministic(c1: Seq<u8>, p1: Position, c2: Seq<u8>, p2: Position)
    requires
        c1 == c2,
        p1 == p2,
    ensures
        mesh_vertices(c1, p1) == mesh_vertices(c2, p2),
        face_count(c1) == face_count(c2),
{
}

} // verus!
