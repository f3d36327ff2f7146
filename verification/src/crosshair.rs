//! The entity under the local player's crosshair.
use vstd::prelude::*;
use std::time::Instant;
use crate::clock::instant_now;

verus! {

/// Raw crosshair entity index that the game reports when the crosshair is
/// on no entity.
pub const NO_CROSSHAIR_ENTITY: u32 = 0xFFFF_FFFF;

/// Entity under the crosshair, as resolved when it was first seen.
#[derive(Debug)]
pub struct CrosshairTarget {
    pub entity_id: u32,
    /// Class name of the entity, when it could be resolved.
    pub entity_type: Option<String>,
    pub timestamp: Instant,
}

/// Tracks the entity under the local player's crosshair.
pub struct LocalCrosshair {
    current_target: Option<CrosshairTarget>,
}

/// The crosshair entity index, or `None` for the "no entity" marker.
pub fn crosshair_entity_index(raw: u32) -> (index: Option<u32>)
    ensures
        index == (if raw != NO_CROSSHAIR_ENTITY { Some(raw) } else { None::<u32> }),
{
    if raw != NO_CROSSHAIR_ENTITY {
        Some(raw)
    } else {
        None
    }
}

impl LocalCrosshair {
    /// The target currently tracked.
    pub closed spec fn target(self) -> Option<CrosshairTarget> {
        self.current_target
    }

    pub fn new() -> (crosshair: Self)
        ensures
            crosshair.target() is None,
    {
        LocalCrosshair { current_target: None }
    }

    pub fn current_target(&self) -> (target: Option<&CrosshairTarget>)
        ensures
            match self.target() {
                Some(t) => target == Some(&t),
                None => target is None,
            },
    {
        match &self.current_target {
            Some(t) => Some(t),
            None => None,
        }
    }

    /// Whether an entity index differs from the tracked target, so that its
    /// class has to be resolved.
    pub fn is_new_target(&self, entity_id: u32) -> (new: bool)
        ensures
            new == self.spec_is_new_target(entity_id),
    {
        match &self.current_target {
            Some(t) => t.entity_id != entity_id,
            None => true,
        }
    }

    /// First half of a frame's update, with the entity index under the
    /// crosshair (`None` when there is none): no entity clears the target;
    /// an entity other than the tracked one is returned, to have its class
    /// resolved and then be set with `set_target`; the tracked entity keeps
    /// its target.
    pub fn begin_update(&mut self, crosshair_entity: Option<u32>) -> (resolve: Option<u32>)
        ensures
            match crosshair_entity {
                None => final(self).target() is None && resolve is None,
                Some(id) => final(self).target() == old(self).target() && resolve == (if old(self).spec_is_new_target(id) {
                    Some(id)
                } else {
                    None::<u32>
                }),
            },
    {
        match crosshair_entity {
            None => {
                self.current_target = None;
                None
            },
            Some(id) => {
                if self.is_new_target(id) {
                    Some(id)
                } else {
                    None
                }
            },
        }
    }

    pub open spec fn spec_is_new_target(self, entity_id: u32) -> bool {
        match self.target() {
            Some(t) => t.entity_id != entity_id,
            None => true,
        }
    }

    /// The crosshair is on no entity.
    pub fn clear_target(&mut self)
        ensures
            final(self).target() is None,
    {
        self.current_target = None;
    }

    /// Starts tracking a newly resolved entity.
    pub fn set_target(&mut self, entity_id: u32, entity_type: Option<String>)
        ensures
            final(self).target() matches Some(t) && t.entity_id == entity_id && t.entity_type == entity_type,
    {
        self.current_target = Some(CrosshairTarget { entity_id, entity_type, timestamp: instant_now() });
    }
}

} // verus!
