//! Plain trigger bot: fires while its hot key is held and an enemy is
//! under the crosshair, without delays.
use vstd::prelude::*;
use std::time::Instant;
use crate::crosshair::LocalCrosshair;
use crate::trigger::PLAYER_PAWN_CLASS;

verus! {

/// Entity under the crosshair as this trigger bot records it.
pub struct CrosshairTarget {
    pub entity_id: u32,
    pub entity_type: String,
    pub timestamp: Instant,
}

/// Holds the fire button while the hot key is down and an enemy is under
/// the crosshair.
pub struct TriggerBot {
    active: bool,
    crosshair: LocalCrosshair,
}

impl TriggerBot {
    /// Whether the bot holds the fire button.
    pub closed spec fn firing(self) -> bool {
        self.active
    }

    pub closed spec fn tracked_crosshair(self) -> LocalCrosshair {
        self.crosshair
    }

    pub fn new(crosshair: LocalCrosshair) -> (bot: Self)
        ensures
            !bot.firing(),
            bot.tracked_crosshair() == crosshair,
    {
        TriggerBot { active: false, crosshair }
    }

    /// The crosshair tracker, to be updated while the hot key is down.
    pub fn crosshair_mut(&mut self) -> (crosshair: &mut LocalCrosshair)
        ensures
            *crosshair == old(self).tracked_crosshair(),
            final(self).tracked_crosshair() == *final(crosshair),
            final(self).firing() == old(self).firing(),
    {
        &mut self.crosshair
    }

    /// Whether to fire this frame: the hot key is held, the tracked target
    /// is a player pawn, and its team (`target_team`) differs from the local
    /// player's.
    pub fn should_be_active(&self, key_down: bool, target_team: u8, local_team: u8) -> (shoot: bool)
        ensures
            shoot == (key_down && (self.tracked_crosshair().target() matches Some(t) && (t.entity_type matches Some(
                name,
            ) && name@ == PLAYER_PAWN_CLASS@)) && target_team != local_team),
    {
        if !key_down {
            return false;
        }
        let target = match self.crosshair.current_target() {
            Some(target) => target,
            None => return false,
        };
        let is_pawn = match &target.entity_type {
            Some(name) => name.clone() == PLAYER_PAWN_CLASS.to_owned(),
            None => false,
        };
        is_pawn && target_team != local_team
    }

    /// Records this frame's decision (hot key down and an enemy under the
    /// crosshair) and returns the fire button state when it has to be sent.
    pub fn update(&mut self, should_be_active: bool) -> (press: Option<bool>)
        ensures
            final(self).firing() == should_be_active,
            final(self).tracked_crosshair() == old(self).tracked_crosshair(),
            press == (if should_be_active == old(self).firing() { None } else { Some(should_be_active) }),
    {
        if should_be_active == self.active {
            return None;
        }
        self.active = should_be_active;
        Some(self.active)
    }
}

} // verus!
