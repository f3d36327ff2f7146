//! Small overlay indicators: the bomb timer, the sniper crosshair and the
//! spectator list, with the decisions about when they show; the team of a
//! player relative to the local player; the current map.
use vstd::prelude::*;
use crate::trigger::PLAYER_PAWN_CLASS;

verus! {

/// Shows the state of the planted bomb.
pub struct BombInfoIndicator {}

impl BombInfoIndicator {
    pub fn new() -> (indicator: Self) {
        BombInfoIndicator {}
    }
}

/// Item definition index of the AWP.
pub const WEAPON_AWP: u16 = 9;
/// Item definition index of the G3SG1.
pub const WEAPON_G3SG1: u16 = 11;
/// Item definition index of the SCAR-20.
pub const WEAPON_SCAR20: u16 = 38;
/// Item definition index of the SSG 08.
pub const WEAPON_SSG08: u16 = 40;

/// Class name of an observer pawn.
pub const OBSERVER_PAWN_CLASS_NAME: &'static str = "C_CSObserverPawn";

/// Where the weapon of the viewed entity is read from.
#[derive(Debug, Clone, Copy, PartialEq, Eq, Structural)]
pub enum WeaponSource {
    /// The entity is a player pawn: its own weapon.
    PlayerPawn,
    /// The entity is an observer pawn: the weapon of the pawn of its
    /// original controller.
    ObserverPawn,
    /// Any other entity has no weapon to show.
    Unsupported,
}

/// Draws a dot in the middle of the screen while a sniper rifle is held.
pub struct SniperCrosshair {}

pub open spec fn spec_is_sniper_weapon(weapon_id: u16) -> bool {
    weapon_id == WEAPON_AWP || weapon_id == WEAPON_SSG08 || weapon_id == WEAPON_SCAR20 || weapon_id == WEAPON_G3SG1
}

impl SniperCrosshair {
    pub fn new() -> (crosshair: Self) {
        SniperCrosshair {}
    }

    /// Whether a weapon is a sniper rifle: the AWP, the SSG 08, the SCAR-20
    /// or the G3SG1.
    pub fn is_sniper_weapon(&self, weapon_id: u16) -> (sniper: bool)
        ensures
            sniper == spec_is_sniper_weapon(weapon_id),
    {
        weapon_id == WEAPON_AWP || weapon_id == WEAPON_SSG08 || weapon_id == WEAPON_SCAR20 || weapon_id == WEAPON_G3SG1
    }

    /// Where the weapon of an entity of the given class is found.
    pub fn weapon_source(&self, class_name: &str) -> (source: WeaponSource)
        ensures
            source == if class_name@ == PLAYER_PAWN_CLASS@ {
                WeaponSource::PlayerPawn
            } else if class_name@ == OBSERVER_PAWN_CLASS_NAME@ {
                WeaponSource::ObserverPawn
            } else {
                WeaponSource::Unsupported
            },
    {
        let name = class_name.to_owned();
        if name == PLAYER_PAWN_CLASS.to_owned() {
            WeaponSource::PlayerPawn
        } else if name == OBSERVER_PAWN_CLASS_NAME.to_owned() {
            WeaponSource::ObserverPawn
        } else {
            WeaponSource::Unsupported
        }
    }

    /// Whether the dot is drawn: the setting is on, an entity is viewed and
    /// it holds a sniper rifle.
    pub fn should_draw(&self, enabled: bool, target_entity_id: Option<u32>, weapon_id: Option<u16>) -> (draw: bool)
        ensures
            draw == (enabled && target_entity_id is Some && (weapon_id matches Some(w) && spec_is_sniper_weapon(w))),
    {
        if !enabled {
            return false;
        }
        if target_entity_id.is_none() {
            return false;
        }
        match weapon_id {
            Some(w) => self.is_sniper_weapon(w),
            None => false,
        }
    }
}

/// Lists the players spectating the viewed entity.
pub struct SpectatorsListIndicator {}

impl SpectatorsListIndicator {
    pub fn new() -> (indicator: Self) {
        SpectatorsListIndicator {}
    }
}

/// Team of a player as seen by the local player.
#[derive(Debug, Clone, Copy, PartialEq, Eq, Structural)]
pub enum TeamType {
    Local,
    Enemy,
    Friendly,
}

/// The local player's own controller is `Local`; a player in the local
/// team is `Friendly`; any other is `Enemy`.
pub open spec fn spec_team_type(is_local_controller: bool, local_team: u8, player_team: u8) -> TeamType {
    if is_local_controller {
        TeamType::Local
    } else if local_team == player_team {
        TeamType::Friendly
    } else {
        TeamType::Enemy
    }
}

pub fn team_type(is_local_controller: bool, local_team: u8, player_team: u8) -> (team: TeamType)
    ensures
        team == spec_team_type(is_local_controller, local_team, player_team),
{
    if is_local_controller {
        TeamType::Local
    } else if local_team == player_team {
        TeamType::Friendly
    } else {
        TeamType::Enemy
    }
}

/// Whether a player is shown at all: it has a pawn, is alive and is not
/// dormant.
pub fn is_visible_player(pawn_valid: bool, health: i32, dormant: bool) -> (shown: bool)
    ensures
        shown == (pawn_valid && health > 0 && !dormant),
{
    pawn_valid && health > 0 && !dormant
}

/// The map being played.
#[derive(Debug, Clone, PartialEq, Eq)]
pub struct MapInfo {
    pub name: String,
}

/// Receives usage records of the overlay's features.
pub trait MetricsClient {
    fn add_metrics_record(&self, record_type: &str, record_payload: &str);
}

} // verus!
