//! Decision logic of the Valthrun CS2 overlay controller and its bunny hop
//! helper: input and hot keys, feature toggles, the trigger bot, automatic
//! strafing, ESP configuration, bomb, grenade and radar indicators, the
//! game's collision data, and the settings values.

pub mod clock;
pub mod strafe;
pub mod bhop;
pub mod keys;
pub mod hotkey;
pub mod key_names;
pub mod key_toggle;
pub mod input;
pub mod crosshair;
pub mod trigger;
pub mod hacks;
pub mod cache;
pub mod color;
pub mod settings;
pub mod esp;
pub mod esp_player;
pub mod bomb;
pub mod grenade;
pub mod web_radar;
pub mod text;
pub mod handle;
pub mod indicators;
pub mod recoil;
pub mod aimbot;
pub mod application;
pub mod physics;
pub mod mesh;
pub mod kv3;
pub mod rubikon;
