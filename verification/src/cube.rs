//! The unit cube used for every block: its six face directions, the four
//! vertices of each face, and the index pattern that turns a face into two
//! front-facing triangles. A block spans two world units per axis, so the
//! face corners sit at coordinates -1 and 1 around the block's centre.

use vstd::prelude::*;
use crate::block::BlockPosition;
use crate::vertex::{ModelIndex, ModelVertex};

verus! {

pub const FRONT: usize = 0;

pub const BACK: usize = 1;

pub const LEFT: usize = 2;

pub const RIGHT: usize = 3;

pub const TOP: usize = 4;

pub const BOTTOM: usize = 5;

/// Unit offset toward the neighbour across face `d`, x axis.
pub open spec fn dir_x(d: int) -> int {
    if d == LEFT {
        -1
    } else if d == RIGHT {
        1
    } else {
        0
    }
}

/// Unit offset toward the neighbour across face `d`, y axis.
pub open spec fn dir_y(d: int) -> int {
    if d == TOP {
        1
    } else if d == BOTTOM {
        -1
    } else {
        0
    }
}

/// Unit offset toward the neighbour across face `d`, z axis.
pub open spec fn dir_z(d: int) -> int {
    if d == FRONT {
        1
    } else if d == BACK {
        -1
    } else {
        0
    }
}

/// The displacement from a block to its neighbour across face `number`.
pub fn face_displacement(number: usize) -> (r: BlockPosition)
    requires
        number < 6,
    ensures
        r.x == dir_x(number as int),
        r.y == dir_y(number as int),
        r.z == dir_z(number as int),
{
    match number {
        0 => BlockPosition { x: 0, y: 0, z: 1 },
        1 => BlockPosition { x: 0, y: 0, z: -1 },
        2 => BlockPosition { x: -1, y: 0, z: 0 },
        3 => BlockPosition { x: 1, y: 0, z: 0 },
        4 => BlockPosition { x: 0, y: 1, z: 0 },
        _ => BlockPosition { x: 0, y: -1, z: 0 },
    }
}

/// Shorthand for a cube-corner vertex in specifications.
pub open spec fn mv(px: int, py: int, pz: int, tu: int, tv: int) -> ModelVertex {
    ModelVertex { px: px as i64, py: py as i64, pz: pz as i64, tu: tu as u8, tv: tv as u8 }
}

/// Corner `k` of face `d` of the unit cube, with its texture coordinate. The
/// corners of each face are listed counter-clockwise as seen from outside the
/// cube, so the emitted triangles face outward.
pub open spec fn cube_vertex(d: int, k: int) -> ModelVertex {
    if d == FRONT {
        if k == 0 {
            mv(-1, -1, 1, 1, 1)
        } else if k == 1 {
            mv(1, -1, 1, 0, 1)
        } else if k == 2 {
            mv(1, 1, 1, 0, 0)
        } else {
            mv(-1, 1, 1, 1, 0)
        }
    } else if d == BACK {
        if k == 0 {
            mv(1, 1, -1, 0, 0)
        } else if k == 1 {
            mv(1, -1, -1, 0, 1)
        } else if k == 2 {
            mv(-1, -1, -1, 1, 1)
        } else {
            mv(-1, 1, -1, 1, 0)
        }
    } else if d == LEFT {
        if k == 0 {
            mv(-1, 1, -1, 0, 0)
        } else if k == 1 {
            mv(-1, -1, -1, 0, 1)
        } else if k == 2 {
            mv(-1, -1, 1, 1, 1)
        } else {
            mv(-1, 1, 1, 1, 0)
        }
    } else if d == RIGHT {
        if k == 0 {
            mv(1, 1, -1, 0, 0)
        } else if k == 1 {
            mv(1, 1, 1, 1, 0)
        } else if k == 2 {
            mv(1, -1, 1, 1, 1)
        } else {
            mv(1, -1, -1, 0, 1)
        }
    } else if d == TOP {
        if k == 0 {
            mv(-1, 1, 1, 0, 0)
        } else if k == 1 {
            mv(1, 1, 1, 1, 0)
        } else if k == 2 {
            mv(1, 1, -1, 1, 1)
        } else {
            mv(-1, 1, -1, 0, 1)
        }
    } else {
        if k == 0 {
            mv(-1, -1, 1, 0, 0)
        } else if k == 1 {
            mv(-1, -1, -1, 0, 1)
        } else if k == 2 {
            mv(1, -1, -1, 1, 1)
        } else {
            mv(1, -1, 1, 1, 0)
        }
    }
}

/// The four corners of face `d`, in emission order.
pub open spec fn face_vertices(d: int) -> Seq<ModelVertex> {
    seq![cube_vertex(d, 0), cube_vertex(d, 1), cube_vertex(d, 2), cube_vertex(d, 3)]
}

/// The four vertices of cube face `number`.
pub fn face(number: usize) -> (r: Vec<ModelVertex>)
    requires
        number < 6,
    ensures
        r@ == face_vertices(number as int),
{
    let mut r: Vec<ModelVertex> = Vec::new();
    if number == 0 {
        r.push(ModelVertex { px: -1, py: -1, pz: 1, tu: 1, tv: 1 });
        r.push(ModelVertex { px: 1, py: -1, pz: 1, tu: 0, tv: 1 });
        r.push(ModelVertex { px: 1, py: 1, pz: 1, tu: 0, tv: 0 });
        r.push(ModelVertex { px: -1, py: 1, pz: 1, tu: 1, tv: 0 });
    } else if number == 1 {
        r.push(ModelVertex { px: 1, py: 1, pz: -1, tu: 0, tv: 0 });
        r.push(ModelVertex { px: 1, py: -1, pz: -1, tu: 0, tv: 1 });
        r.push(ModelVertex { px: -1, py: -1, pz: -1, tu: 1, tv: 1 });
        r.push(ModelVertex { px: -1, py: 1, pz: -1, tu: 1, tv: 0 });
    } else if number == 2 {
        r.push(ModelVertex { px: -1, py: 1, pz: -1, tu: 0, tv: 0 });
        r.push(ModelVertex { px: -1, py: -1, pz: -1, tu: 0, tv: 1 });
        r.push(ModelVertex { px: -1, py: -1, pz: 1, tu: 1, tv: 1 });
        r.push(ModelVertex { px: -1, py: 1, pz: 1, tu: 1, tv: 0 });
    } else if number == 3 {
        r.push(ModelVertex { px: 1, py: 1, pz: -1, tu: 0, tv: 0 });
        r.push(ModelVertex { px: 1, py: 1, pz: 1, tu: 1, tv: 0 });
        r.push(ModelVertex { px: 1, py: -1, pz: 1, tu: 1, tv: 1 });
        r.push(ModelVertex { px: 1, py: -1, pz: -1, tu: 0, tv: 1 });
    } else if number == 4 {
        r.push(ModelVertex { px: -1, py: 1, pz: 1, tu: 0, tv: 0 });
        r.push(ModelVertex { px: 1, py: 1, pz: 1, tu: 1, tv: 0 });
        r.push(ModelVertex { px: 1, py: 1, pz: -1, tu: 1, tv: 1 });
        r.push(ModelVertex { px: -1, py: 1, pz: -1, tu: 0, tv: 1 });
    } else {
        r.push(ModelVertex { px: -1, py: -1, pz: 1, tu: 0, tv: 0 });
        r.push(ModelVertex { px: -1, py: -1, pz: -1, tu: 0, tv: 1 });
        r.push(ModelVertex { px: 1, py: -1, pz: -1, tu: 1, tv: 1 });
        r.push(ModelVertex { px: 1, py: -1, pz: 1, tu: 1, tv: 0 });
    }
    proof {
        assert(r@ =~= face_vertices(number as int));
    }
    r
}

/// Every cube corner lies one unit from the block centre and its texture
/// coordinates are 0 or 1.
pub proof fn lemma_cube_vertex_bounds(d: int, k: int)
    ensures
        -1 <= cube_vertex(d, k).px <= 1,
        -1 <= cube_vertex(d, k).py <= 1,
        -1 <= cube_vertex(d, k).pz <= 1,
        cube_vertex(d, k).tu <= 1,
        cube_vertex(d, k).tv <= 1,
{
}

/// Value `r` of the six-entry index pattern that triangulates one face: the
/// two triangles (0, 1, 2) and (3, 0, 2) over the face's four corners.
pub open spec fn index_pattern(r: int) -> int {
    if r == 0 {
        0
    } else if r == 1 {
        1
    } else if r == 2 {
        2
    } else if r == 3 {
        3
    } else if r == 4 {
        0
    } else {
        2
    }
}

/// The index pattern of one face, relative to the face's first vertex.
pub fn face_index_pattern() -> (r: Vec<ModelIndex>)
    ensures
        r@.len() == 6,
        forall|j: int| 0 <= j < 6 ==> r@[j] == index_pattern(j),
{
    let mut r: Vec<ModelIndex> = Vec::new();
    r.push(0);
    r.push(1);
    r.push(2);
    r.push(3);
    r.push(0);
    r.push(2);
    r
}

/// The whole-cube vertex table: the faces in order front, back, left, right,
/// top, bottom, with the cube's eight corners shared on paper but written out
/// per face so each face carries its own texture coordinates.
pub open spec fn cube_table_vertices() -> Seq<ModelVertex> {
    seq![
        mv(-1, -1, 1, 1, 1),
        mv(1, -1, 1, 0, 1),
        mv(1, 1, 1, 0, 0),
        mv(-1, 1, 1, 1, 0),
        mv(-1, -1, -1, 1, 1),
        mv(1, -1, -1, 0, 1),
        mv(1, 1, -1, 0, 0),
        mv(-1, 1, -1, 1, 0),
        mv(-1, 1, -1, 0, 0),
        mv(-1, -1, -1, 0, 1),
        mv(-1, -1, 1, 1, 1),
        mv(-1, 1, 1, 1, 0),
        mv(1, 1, -1, 0, 0),
        mv(1, 1, 1, 1, 0),
        mv(1, -1, 1, 1, 1),
        mv(1, -1, -1, 0, 1),
        mv(-1, 1, 1, 0, 0),
        mv(1, 1, 1, 1, 0),
        mv(1, 1, -1, 1, 1),
        mv(-1, 1, -1, 0, 1),
        mv(-1, -1, 1, 0, 0),
        mv(-1, -1, -1, 0, 1),
        mv(1, -1, -1, 1, 1),
        mv(1, -1, 1, 1, 0),
    ]
}

/// The whole-cube index table: two front-facing triangles per face, each
/// pointing into that face's block of four vertices.
pub open spec fn cube_table_indices() -> Seq<ModelIndex> {
    seq![
        0u16, 1, 2, 3, 0, 2,
        6, 5, 4, 6, 4, 7,
        8, 9, 10, 11, 8, 10,
        12, 13, 14, 15, 12, 14,
        16, 17, 18, 19, 16, 18,
        20, 21, 22, 23, 20, 22,
    ]
}

/// The whole-cube vertex table as an array.
pub fn cube_table_vertex_array() -> (r: Vec<ModelVertex>)
    ensures
        r@ == cube_table_vertices(),
{
    let mut r: Vec<ModelVertex> = Vec::new();
    r.push(ModelVertex { px: -1, py: -1, pz: 1, tu: 1, tv: 1 });
    r.push(ModelVertex { px: 1, py: -1, pz: 1, tu: 0, tv: 1 });
    r.push(ModelVertex { px: 1, py: 1, pz: 1, tu: 0, tv: 0 });
    r.push(ModelVertex { px: -1, py: 1, pz: 1, tu: 1, tv: 0 });
    r.push(ModelVertex { px: -1, py: -1, pz: -1, tu: 1, tv: 1 });
    r.push(ModelVertex { px: 1, py: -1, pz: -1, tu: 0, tv: 1 });
    r.push(ModelVertex { px: 1, py: 1, pz: -1, tu: 0, tv: 0 });
    r.push(ModelVertex { px: -1, py: 1, pz: -1, tu: 1, tv: 0 });
    r.push(ModelVertex { px: -1, py: 1, pz: -1, tu: 0, tv: 0 });
    r.push(ModelVertex { px: -1, py: -1, pz: -1, tu: 0, tv: 1 });
    r.push(ModelVertex { px: -1, py: -1, pz: 1, tu: 1, tv: 1 });
    r.push(ModelVertex { px: -1, py: 1, pz: 1, tu: 1, tv: 0 });
    r.push(ModelVertex { px: 1, py: 1, pz: -1, tu: 0, tv: 0 });
    r.push(ModelVertex { px: 1, py: 1, pz: 1, tu: 1, tv: 0 });
    r.push(ModelVertex { px: 1, py: -1, pz: 1, tu: 1, tv: 1 });
    r.push(ModelVertex { px: 1, py: -1, pz: -1, tu: 0, tv: 1 });
    r.push(ModelVertex { px: -1, py: 1, pz: 1, tu: 0, tv: 0 });
    r.push(ModelVertex { px: 1, py: 1, pz: 1, tu: 1, tv: 0 });
    r.push(ModelVertex { px: 1, py: 1, pz: -1, tu: 1, tv: 1 });
    r.push(ModelVertex { px: -1, py: 1, pz: -1, tu: 0, tv: 1 });
    r.push(ModelVertex { px: -1, py: -1, pz: 1, tu: 0, tv: 0 });
    r.push(ModelVertex { px: -1, py: -1, pz: -1, tu: 0, tv: 1 });
    r.push(ModelVertex { px: 1, py: -1, pz: -1, tu: 1, tv: 1 });
    r.push(ModelVertex { px: 1, py: -1, pz: 1, tu: 1, tv: 0 });
    proof {
        assert(r@ =~= cube_table_vertices());
    }
    r
}

/// The whole-cube index table as an array.
pub fn cube_table_index_array() -> (r: Vec<ModelIndex>)
    ensures
        r@ == cube_table_indices(),
{
    let mut r: Vec<ModelIndex> = Vec::new();
    r.push(0);
    r.push(1);
    r.push(2);
    r.push(3);
    r.push(0);
    r.push(2);
    r.push(6);
    r.push(5);
    r.push(4);
    r.push(6);
    r.push(4);
    r.push(7);
    r.push(8);
    r.push(9);
    r.push(10);
    r.push(11);
    r.push(8);
    r.push(10);
    r.push(12);
    r.push(13);
    r.push(14);
    r.push(15);
    r.push(12);
    r.push(14);
    r.push(16);
    r.push(17);
    r.push(18);
    r.push(19);
    r.push(16);
    r.push(18);
    r.push(20);
    r.push(21);
    r.push(22);
    r.push(23);
    r.push(20);
    r.push(22);
    proof {
        assert(r@ =~= cube_table_indices());
    }
    r
}

/// A single whole cube, drawable on its own as a simple shape.
pub struct Cube;

impl Cube {
    /// The four vertices and six indices of face `number` of the whole-cube
    /// tables.
    pub fn face(number: usize) -> (r: (Vec<ModelVertex>, Vec<ModelIndex>))
        requires
            number < 6,
        ensures
            r.0@ == cube_table_vertices().subrange(4 * number as int, 4 * number as int + 4),
            r.1@ == cube_table_indices().subrange(6 * number as int, 6 * number as int + 6),
    {
        let verts = cube_table_vertex_array();
        let idx = cube_table_index_array();
        let mut rv: Vec<ModelVertex> = Vec::new();
        let mut i: usize = 4 * number;
        while i < 4 * number + 4
            invariant
                number < 6,
                4 * number <= i <= 4 * number + 4,
                verts@ == cube_table_vertices(),
                rv@ == cube_table_vertices().subrange(4 * number as int, i as int),
            decreases 4 * number + 4 - i,
        {
            rv.push(verts[i]);
            proof {
                assert(rv@ =~= cube_table_vertices().subrange(4 * number as int, i as int + 1));
            }
            i += 1;
        }
        let mut ri: Vec<ModelIndex> = Vec::new();
        let mut j: usize = 6 * number;
        while j < 6 * number + 6
            invariant
                number < 6,
                6 * number <= j <= 6 * number + 6,
                idx@ == cube_table_indices(),
                ri@ == cube_table_indices().subrange(6 * number as int, j as int),
            decreases 6 * number + 6 - j,
        {
            ri.push(idx[j]);
            proof {
                assert(ri@ =~= cube_table_indices().subrange(6 * number as int, j as int + 1));
            }
            j += 1;
        }
        (rv, ri)
    }

    /// A mesh of the whole cube drawn twice: once at the origin and once two
    /// units up.
    pub fn mesh(material_id: crate::model::MaterialId) -> (r: crate::model::Mesh)
        ensures
            r.label@ == "Cube"@,
            r.num_indices == 36,
            r.num_instances == 2,
            r.material_id == material_id,
    {
        let verts = cube_table_vertex_array();
        let idx = cube_table_index_array();
        let mut instances: Vec<crate::instance::ModelInstance> = Vec::new();
        instances.push(crate::instance::ModelInstance::from_position(0, 0, 0));
        instances.push(crate::instance::ModelInstance::from_position(0, 2, 0));
        crate::model::Mesh::from_vertex("Cube".to_owned(), &verts, &idx, &instances, material_id)
    }
}

} // verus!
