//! Components for events.

use vstd::prelude::*;
use crate::world::{ComponentKind, Plugin, WorldBuilder};

verus! {

/// Marker component for entities that were created right now and whose chunk
/// has not been meshed yet.
#[derive(Debug, Clone, Copy, PartialEq, Eq, Structural)]
pub struct Created;

/// Plugin that registers the created-marker component.
pub struct EventsPlugin;

impl Plugin for EventsPlugin {
    fn setup(self, world: &mut WorldBuilder) {
        world.with_component(ComponentKind::Created)
    }
}

} // verus!
