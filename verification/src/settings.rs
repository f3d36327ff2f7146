//! Values of the settings file that the logic reads, and the defaults that
//! fill in missing entries.
use vstd::prelude::*;
use std::collections::BTreeMap;
use crate::color::{Color, spec_word};
use crate::hotkey::HotKey;
use crate::key_toggle::KeyToggleMode;
use crate::keys::Key;

verus! {

/// Kind of grenade a lineup spot is for.
#[derive(Debug, Clone, Copy, PartialEq, Eq, Structural)]
pub enum GrenadeType {
    Smoke,
    Molotov,
    Flashbang,
    Explosive,
}

pub open spec fn spec_grenade_name(index: int) -> Seq<char> {
    if index == 0 {
        "Smoke"@
    } else if index == 1 {
        "Molotov"@
    } else if index == 2 {
        "Flashbang"@
    } else {
        "Explosive"@
    }
}

impl GrenadeType {
    pub open spec fn spec_index(self) -> int {
        match self {
            GrenadeType::Smoke => 0,
            GrenadeType::Molotov => 1,
            GrenadeType::Flashbang => 2,
            GrenadeType::Explosive => 3,
        }
    }

    pub fn display_name(&self) -> (name: &'static str)
        ensures
            name@ == spec_grenade_name(self.spec_index()),
    {
        match self {
            GrenadeType::Smoke => "Smoke",
            GrenadeType::Molotov => "Molotov",
            GrenadeType::Flashbang => "Flashbang",
            GrenadeType::Explosive => "Explosive",
        }
    }
}

/// Grenade kinds of the bundled lineup list.
#[derive(Debug, Clone, Copy, PartialEq, Eq, Structural)]
pub enum GranadeType {
    Smoke,
    Molotov,
    Flashbang,
    Explosive,
}

impl GranadeType {
    pub open spec fn spec_index(self) -> int {
        match self {
            GranadeType::Smoke => 0,
            GranadeType::Molotov => 1,
            GranadeType::Flashbang => 2,
            GranadeType::Explosive => 3,
        }
    }

    pub fn display_name(&self) -> (name: &'static str)
        ensures
            name@ == spec_grenade_name(self.spec_index()),
    {
        match self {
            GranadeType::Smoke => "Smoke",
            GranadeType::Molotov => "Molotov",
            GranadeType::Flashbang => "Flashbang",
            GranadeType::Explosive => "Explosive",
        }
    }
}

/// Orders the two ends of the trigger delay range so that the lower end
/// comes first, as the settings dialog does after either slider moved.
pub fn normalize_delay_range(delay_min: u32, delay_max: u32) -> (range: (u32, u32))
    ensures
        range.0 <= range.1,
        (range.0 == delay_min && range.1 == delay_max) || (range.0 == delay_max && range.1 == delay_min),
{
    let low = if delay_min <= delay_max { delay_min } else { delay_max };
    let high = if delay_min <= delay_max { delay_max } else { delay_min };
    (low, high)
}

pub fn bool_true() -> (value: bool)
    ensures
        value,
{
    true
}

pub fn bool_false() -> (value: bool)
    ensures
        !value,
{
    false
}

pub fn default_u32<const V: u32>() -> (value: u32)
    ensures
        value == V,
{
    V
}

pub fn default_usize<const V: usize>() -> (value: usize)
    ensures
        value == V,
{
    V
}

pub fn default_color<const R: u8, const G: u8, const B: u8, const A: u8>() -> (color: Color)
    ensures
        color.word() == spec_word(seq![R, G, B, A]),
{
    let color = Color::from_u8([R, G, B, A]);
    proof { assert([R, G, B, A]@ =~= seq![R, G, B, A]); }
    color
}

/// Opens and closes the settings window.
pub fn default_key_settings() -> (key: HotKey)
    ensures
        key == HotKey(Key::Pause),
{
    HotKey(Key::Pause)
}

pub fn default_key_trigger_bot() -> (key: Option<HotKey>)
    ensures
        key == Some(HotKey(Key::MouseMiddle)),
{
    Some(HotKey(Key::MouseMiddle))
}

pub fn default_key_none() -> (key: Option<HotKey>)
    ensures
        key is None,
{
    None
}

pub fn default_esp_mode() -> (mode: KeyToggleMode)
    ensures
        mode == KeyToggleMode::AlwaysOn,
{
    KeyToggleMode::AlwaysOn
}

pub fn default_aimbot_mode() -> (mode: KeyToggleMode)
    ensures
        mode == KeyToggleMode::Trigger,
{
    KeyToggleMode::Trigger
}

pub fn default_aimbot_key() -> (key: Option<HotKey>)
    ensures
        key == Some(HotKey(Key::MouseLeft)),
{
    Some(HotKey(Key::MouseLeft))
}

/// The aimbot aims at the head unless configured otherwise.
pub fn default_aim_bone() -> (bone: String)
    ensures
        bone@ == "head"@,
{
    "head".to_owned()
}

/// Milliseconds before the aimbot engages.
pub fn default_aimbot_delay_activation() -> (delay: u32)
    ensures
        delay == 500,
{
    500
}

pub fn default_aimbot_random_aim_path() -> (enabled: bool)
    ensures
        enabled,
{
    true
}

pub fn default_aimbot_adaptive_aim_correction() -> (enabled: bool)
    ensures
        enabled,
{
    true
}

pub fn default_aimbot_multiple_target_prioritization() -> (enabled: bool)
    ensures
        enabled,
{
    true
}

pub fn default_aimbot_visibility_check() -> (enabled: bool)
    ensures
        enabled,
{
    true
}

pub fn default_trigger_bot_mode() -> (mode: KeyToggleMode)
    ensures
        mode == KeyToggleMode::Trigger,
{
    KeyToggleMode::Trigger
}

/// Key of the ESP configuration that is enabled by default.
pub const ENEMY_PLAYER_CONFIG: &'static str = "player.enemy";

/// By default only the ESP for enemy players is enabled.
pub fn default_esp_configs_enabled() -> (enabled: BTreeMap<String, bool>)
    ensures
        vstd::laws_cmp::obeys_cmp::<String>() ==> exists|key: String|
            key@ == ENEMY_PLAYER_CONFIG@ && #[trigger] enabled@ == Map::<String, bool>::empty().insert(key, true),
{
    let mut result: BTreeMap<String, bool> = BTreeMap::new();
    let key = ENEMY_PLAYER_CONFIG.to_owned();
    let ghost k = key;
    result.insert(key, true);
    proof {
        if vstd::laws_cmp::obeys_cmp::<String>() {
            assert(result@ == Map::<String, bool>::empty().insert(k, true));
        }
    }
    result
}

} // verus!
