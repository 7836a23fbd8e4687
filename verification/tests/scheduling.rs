//! Tests for the component world and the mesh-then-render scheduling: the
//! created-to-meshed transition fires exactly once, the draw list covers the
//! meshes in entity order, and an out-of-range material id aborts the frame.

use voxelia::chunk::Chunk;
use voxelia::model::MaterialId;
use voxelia::systems::chunk::ChunkRenderSystem;
use voxelia::systems::render::{RendererSystem, RenderError};
use voxelia::systems::tick;
use voxelia::world::World;
use voxelia::Position;

fn world_with_tagged_chunk(value: u8, material_unused: u32) -> (World, usize) {
    let _ = material_unused;
    let mut world = World::new();
    let e = world.create_entity();
    world.set_position(e, Position::new(0, 0, 0));
    world.set_chunk(e, Chunk { data: [value; 64] });
    world.tag_created(e);
    (world, e)
}

#[test]
fn created_entity_transitions_to_meshed_after_one_run() {
    let (mut world, e) = world_with_tagged_chunk(1, 0);
    let system = ChunkRenderSystem;
    system.run(&mut world, MaterialId(0));
    assert!(!world.created[e]);
    assert!(world.positions[e].is_some());
    assert!(world.chunks[e].is_some());
    let mesh = world.meshes[e].as_ref().expect("entity should have been meshed");
    assert_eq!(mesh.data.num_indices, 96 * 6);
    assert_eq!(mesh.model.vertices.len(), 96 * 4);
}

#[test]
fn meshed_entity_never_retransitions() {
    let (mut world, e) = world_with_tagged_chunk(1, 0);
    let system = ChunkRenderSystem;
    system.run(&mut world, MaterialId(0));
    let first = world.meshes[e].clone().expect("meshed after first run");
    system.run(&mut world, MaterialId(7));
    // The second run sees no created tag: the mesh is untouched even though a
    // different material id was offered, and the tag does not reappear.
    assert!(!world.created[e]);
    let second = world.meshes[e].clone().expect("still meshed after second run");
    assert_eq!(first, second);
}

#[test]
fn entity_without_position_keeps_its_tag() {
    let mut world = World::new();
    let e = world.create_entity();
    world.set_chunk(e, Chunk { data: [1; 64] });
    world.tag_created(e);
    let system = ChunkRenderSystem;
    system.run(&mut world, MaterialId(0));
    assert!(world.created[e]);
    assert!(world.meshes[e].is_none());
}

#[test]
fn draw_list_covers_meshes_in_entity_order() {
    let mut world = World::new();
    let a = world.create_entity();
    world.set_position(a, Position::new(0, 0, 0));
    world.set_chunk(a, Chunk { data: [1; 64] });
    world.tag_created(a);
    let unmeshed = world.create_entity();
    let b = world.create_entity();
    world.set_position(b, Position::new(1, 0, 0));
    let mut two = [0u8; 64];
    two[0] = 1;
    two[16] = 1;
    world.set_chunk(b, Chunk { data: two });
    world.tag_created(b);

    let mesher = ChunkRenderSystem;
    mesher.run(&mut world, MaterialId(0));
    let renderer = RendererSystem;
    let cmds = renderer.run(&world, 1).expect("all material ids are in range");
    assert!(world.meshes[unmeshed].is_none());
    assert_eq!(cmds.len(), 2);
    assert_eq!(cmds[0].num_indices, 96 * 6);
    assert_eq!(cmds[1].num_indices, 10 * 6);
    assert_eq!(cmds[0].num_instances, 1);
    assert_eq!(cmds[0].material_id, 0);
}

#[test]
fn out_of_range_material_aborts_the_frame() {
    let (mut world, _) = world_with_tagged_chunk(1, 0);
    let mesher = ChunkRenderSystem;
    mesher.run(&mut world, MaterialId(3));
    let renderer = RendererSystem;
    let r = renderer.run(&world, 3);
    assert_eq!(r, Err(RenderError::MaterialOutOfRange));
    let ok = renderer.run(&world, 4);
    assert!(ok.is_ok());
}

#[test]
fn tick_meshes_then_draws() {
    let (mut world, e) = world_with_tagged_chunk(1, 0);
    let cmds = tick(&mut world, MaterialId(0), 1).expect("material id 0 is in range");
    // The draw list already contains the chunk meshed in the same tick.
    assert!(!world.created[e]);
    assert_eq!(cmds.len(), 1);
    assert_eq!(cmds[0].num_indices, 96 * 6);
}

#[test]
fn empty_chunk_draws_as_noop() {
    let (mut world, e) = world_with_tagged_chunk(0, 0);
    let cmds = tick(&mut world, MaterialId(0), 1).expect("material id 0 is in range");
    assert!(world.meshes[e].is_some());
    assert_eq!(cmds.len(), 1);
    assert_eq!(cmds[0].num_indices, 0);
    assert_eq!(cmds[0].num_instances, 1);
}
