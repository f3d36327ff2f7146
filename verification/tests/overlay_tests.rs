use valthrun::application::{overlay_window_style, ApplicationFrame, UiActivity};
use valthrun::bomb::{
    bomb_info_lines, bomb_site_name, entity_bomb_state, is_planted_c4_class, read_bomb_state, BombEntity, BombInfoLine,
    BombState,
};
use valthrun::color::Color;
use valthrun::esp::{
    player_default_color, EspColor, EspColorType, EspSelector, EspTracePosition, EspWeaponType, WeaponId,
    WeaponTypeFlags,
};
use valthrun::esp_player::{is_esp_player, player_flags, tracer_origin, PlayerESP};
use valthrun::grenade::{granade_types_label, grenade_types_label, GranadeHelper};
use valthrun::hotkey::HotKey;
use valthrun::indicators::{
    is_visible_player, team_type, BombInfoIndicator, SniperCrosshair, SpectatorsListIndicator, TeamType, WeaponSource,
};
use valthrun::key_toggle::KeyToggleMode;
use valthrun::keys::Key;
use valthrun::settings::{
    bool_false, bool_true, default_aim_bone, default_aimbot_adaptive_aim_correction, default_aimbot_delay_activation,
    default_aimbot_key, default_aimbot_mode, default_aimbot_multiple_target_prioritization,
    default_aimbot_random_aim_path, default_aimbot_visibility_check, default_color, default_esp_configs_enabled,
    default_esp_mode, default_key_none, default_key_settings, default_key_trigger_bot, default_trigger_bot_mode,
    default_u32, default_usize, normalize_delay_range, GranadeType, GrenadeType,
};

struct NoKeys;

impl valthrun::key_toggle::KeyboardInput for NoKeys {
    fn spec_is_key_down(&self, _key: Key) -> bool {
        false
    }

    fn spec_is_key_pressed(&self, _key: Key, _repeating: bool) -> bool {
        false
    }

    fn is_key_down(&self, _key: Key) -> bool {
        false
    }

    fn is_key_pressed(&self, _key: Key, _repeating: bool) -> bool {
        false
    }
}

fn bomb(planted: bool, activated: bool, defused: bool, detonated: bool, site: u8, defusing: bool) -> BombEntity {
    BombEntity {
        is_planted_c4: planted,
        is_activated: activated,
        is_defused: defused,
        has_detonated: detonated,
        bomb_site: site,
        is_being_defused: defusing,
    }
}

#[test]
fn bomb_state_from_entities() {
    assert_eq!(read_bomb_state(&vec![]), BombState::Unset);
    let other = bomb(false, true, false, false, 0, false);
    let inactive = bomb(true, false, true, false, 0, false);
    let ticking = bomb(true, true, false, false, 1, true);
    assert_eq!(read_bomb_state(&vec![other, inactive]), BombState::Unset);
    assert_eq!(read_bomb_state(&vec![other, inactive, ticking]), BombState::Active { bomb_site: 1, defusing: true });
    // a defused bomb is reported as defused even after its detonation time
    assert_eq!(entity_bomb_state(&bomb(true, true, true, true, 0, false)), Some(BombState::Defused));
    assert_eq!(entity_bomb_state(&bomb(true, true, false, true, 0, false)), Some(BombState::Detonated));
    assert!(is_planted_c4_class(Some("C_PlantedC4")));
    assert!(!is_planted_c4_class(Some("C_C4")));
    assert!(!is_planted_c4_class(None));
}

#[test]
fn bomb_timer_lines() {
    let active = BombState::Active { bomb_site: 0, defusing: false };
    assert_eq!(
        bomb_info_lines(true, 0, &active),
        vec![BombInfoLine::Planted { site: 0 }, BombInfoLine::Timer, BombInfoLine::NotDefusing]
    );
    assert_eq!(bomb_info_lines(true, 1, &BombState::Defused), vec![
        BombInfoLine::Planted { site: 1 },
        BombInfoLine::Defused
    ]);
    assert_eq!(bomb_info_lines(true, 1, &BombState::Detonated).len(), 2);
    assert!(bomb_info_lines(false, 0, &active).is_empty());
    assert!(bomb_info_lines(true, 0, &BombState::Unset).is_empty());
    assert_eq!(bomb_site_name(0), "A");
    assert_eq!(bomb_site_name(1), "B");
    assert_eq!(BombInfoLine::Defused.fixed_text(), Some("Bomb has been defused"));
    assert_eq!(BombInfoLine::Detonated.fixed_text(), Some("Bomb has been detonated"));
    assert_eq!(BombInfoLine::NotDefusing.fixed_text(), Some("Not defusing"));
    assert_eq!(BombInfoLine::Timer.fixed_text(), None);
    let _ = BombInfoIndicator::new();
}

#[test]
fn esp_selector_keys_and_titles() {
    let enemy_visible = EspSelector::PlayerTeamVisibility { enemy: true, visible: true };
    assert_eq!(enemy_visible.config_key(), "player.enemy.visible");
    assert_eq!(EspSelector::PlayerTeam { enemy: false }.config_key(), "player.friendly");
    assert_eq!(EspSelector::WeaponGroup { group: EspWeaponType::SniperRifle }.config_key(), "weapon.sniper-rifle");
    let awp = WeaponId { id: 9, flags: 0x10, name: "awp", display_name: "AWP" };
    let single = EspSelector::WeaponSingle { group: EspWeaponType::SniperRifle, target: awp };
    assert_eq!(single.config_key(), "weapon.sniper-rifle.awp");
    assert_eq!(single.config_display(), "AWP");
    assert_eq!(single.config_title(), "Enabled ESP for weapon AWP");
    assert_eq!(enemy_visible.config_title(), "Enabled ESP for visible enemy players");
    assert_eq!(
        EspSelector::WeaponGroup { group: EspWeaponType::MachineGun }.config_title(),
        "Enabled ESP for machine gun"
    );
    assert_eq!(EspSelector::Unset.config_title(), "ESP Configuration");
    assert_eq!(EspSelector::Unset.config_key(), "invalid");
    assert_eq!(EspSelector::Chicken.config_display(), "Chicken");
    assert_eq!(EspWeaponType::SMG.display_name(), "SMG");
    assert_eq!(EspWeaponType::MachineGun.config_key(), "machine-gun");
}

#[test]
fn esp_selector_tree() {
    let enemy_visible = EspSelector::PlayerTeamVisibility { enemy: true, visible: false };
    assert_eq!(enemy_visible.lineage(), vec![
        enemy_visible,
        EspSelector::PlayerTeam { enemy: true },
        EspSelector::Player
    ]);
    assert_eq!(EspSelector::Player.children(&vec![]), vec![
        EspSelector::PlayerTeam { enemy: false },
        EspSelector::PlayerTeam { enemy: true }
    ]);
    assert_eq!(EspSelector::Weapon.children(&vec![]).len(), 6);
    let awp = WeaponId { id: 9, flags: 0x10, name: "awp", display_name: "AWP" };
    let group = EspSelector::WeaponGroup { group: EspWeaponType::SniperRifle };
    let children = group.children(&vec![awp]);
    assert_eq!(children.len(), 1);
    // every child names its node as parent
    assert_eq!(children[0].parent(), Some(group));
    assert_eq!(EspSelector::Player.parent(), None);
}

#[test]
fn esp_player_config_resolution() {
    let mut esp: PlayerESP<u32> = PlayerESP::new();
    esp.set_local_team(2);
    let enabled = vec!["player.enemy".to_string(), "player".to_string()];
    let players = vec!["player.enemy".to_string(), "player".to_string()];
    assert_eq!(
        esp.resolve_esp_player_config(3, &enabled, &players),
        Some(EspSelector::PlayerTeam { enemy: true })
    );
    // a friendly player falls back to the configuration of all players
    assert_eq!(esp.resolve_esp_player_config(2, &enabled, &players), Some(EspSelector::Player));
    // the nearest enabled node wins
    let enabled_deep = vec!["player.enemy.visible".to_string(), "player.enemy".to_string()];
    let players_deep = vec!["player.enemy.visible".to_string(), "player.enemy".to_string()];
    assert_eq!(
        esp.resolve_esp_player_config(3, &enabled_deep, &players_deep),
        Some(EspSelector::PlayerTeamVisibility { enemy: true, visible: true })
    );
    // a key that is enabled but holds no player configuration is skipped
    assert_eq!(esp.resolve_esp_player_config(3, &enabled, &vec!["player".to_string()]), Some(EspSelector::Player));
    assert_eq!(esp.resolve_esp_player_config(3, &vec![], &players), None);
}

#[test]
fn esp_player_frames() {
    let mut esp: PlayerESP<u32> = PlayerESP::new();
    assert!(!esp.is_enabled());
    assert!(esp.begin_frame(&KeyToggleMode::AlwaysOn, &NoKeys, &None));
    assert!(esp.is_enabled());
    esp.add_player(7);
    esp.add_player(9);
    assert_eq!(esp.players(), &vec![7, 9]);
    assert!(!esp.begin_frame(&KeyToggleMode::AlwaysOn, &NoKeys, &None));
    assert!(esp.players().is_empty());
}

#[test]
fn esp_player_details() {
    assert!(is_esp_player(4, 1, Some("C_CSPlayerPawn"), true));
    assert!(!is_esp_player(1, 1, Some("C_CSPlayerPawn"), true));
    assert!(!is_esp_player(4, 1, Some("C_Chicken"), true));
    assert!(!is_esp_player(4, 1, Some("C_CSPlayerPawn"), false));
    assert!(!is_esp_player(4, 1, None, true));
    assert_eq!(tracer_origin(&EspTracePosition::Hidden), None);
    assert_eq!(tracer_origin(&EspTracePosition::TopCenter), Some((1, 0)));
    assert_eq!(tracer_origin(&EspTracePosition::BottomRight), Some((2, 2)));
    assert_eq!(tracer_origin(&EspTracePosition::Center), Some((1, 1)));
    assert_eq!(player_flags(true, true, true, true), Some("Kit, flashed".to_string()));
    assert_eq!(player_flags(true, true, false, true), Some("Kit".to_string()));
    assert_eq!(player_flags(true, false, true, true), Some("flashed".to_string()));
    assert_eq!(player_flags(false, true, false, true), None);
}

#[test]
fn esp_colors() {
    let enemy = player_default_color(&EspSelector::PlayerTeam { enemy: true });
    assert_eq!(enemy, EspColor::Static { value: Color::from_u8([255, 0, 0, 191]) });
    let friendly = player_default_color(&EspSelector::PlayerTeamVisibility { enemy: false, visible: true });
    assert_eq!(friendly, EspColor::Static { value: Color::from_u8([0, 255, 0, 191]) });
    assert_eq!(player_default_color(&EspSelector::Player), EspColor::Static {
        value: Color::from_u8([255, 255, 255, 191])
    });
    assert_eq!(EspColor::default(), EspColor::Static { value: Color::from_u8([255, 255, 255, 255]) });
    assert_eq!(EspColorType::from_esp_color(&EspColor::DistanceBased), EspColorType::DistanceBased);
    assert_eq!(EspColorType::from_esp_color(&enemy), EspColorType::Static);
}

#[test]
fn grenade_helper_registry() {
    let mut helper: GranadeHelper<&str> = GranadeHelper::new();
    assert_eq!(helper.len(), 0);
    let a = helper.register_granade_info("Mid Window");
    let b = helper.register_granade_info("Jungle");
    assert_eq!(a, 1);
    assert_eq!(b, 2);
    assert_eq!(helper.get(1), Some(&"Mid Window"));
    assert_eq!(helper.get(2), Some(&"Jungle"));
    assert_eq!(helper.get(3), None);
    assert_eq!(helper.len(), 2);
    assert_eq!(granade_types_label(&vec![]), "All granades");
    assert_eq!(granade_types_label(&vec![GranadeType::Smoke]), "Smoke");
    assert_eq!(granade_types_label(&vec![GranadeType::Smoke, GranadeType::Flashbang]), "Smoke, Flashbang");
    assert_eq!(grenade_types_label(&vec![]), "All grenades");
    assert_eq!(
        grenade_types_label(&vec![GrenadeType::Molotov, GrenadeType::Explosive, GrenadeType::Smoke]),
        "Molotov, Explosive, Smoke"
    );
    assert_eq!(GrenadeType::Molotov.display_name(), "Molotov");
    assert_eq!(GranadeType::Explosive.display_name(), "Explosive");
}

#[test]
fn sniper_and_team_indicators() {
    let sniper = SniperCrosshair::new();
    assert!(sniper.is_sniper_weapon(9));
    assert!(sniper.is_sniper_weapon(40));
    assert!(sniper.is_sniper_weapon(38));
    assert!(sniper.is_sniper_weapon(11));
    assert!(!sniper.is_sniper_weapon(7));
    assert_eq!(sniper.weapon_source("C_CSPlayerPawn"), WeaponSource::PlayerPawn);
    assert_eq!(sniper.weapon_source("C_CSObserverPawn"), WeaponSource::ObserverPawn);
    assert_eq!(sniper.weapon_source("C_Chicken"), WeaponSource::Unsupported);
    assert!(sniper.should_draw(true, Some(1), Some(9)));
    assert!(!sniper.should_draw(false, Some(1), Some(9)));
    assert!(!sniper.should_draw(true, None, Some(9)));
    assert!(!sniper.should_draw(true, Some(1), Some(7)));
    assert!(!sniper.should_draw(true, Some(1), None));
    assert_eq!(team_type(true, 2, 3), TeamType::Local);
    assert_eq!(team_type(false, 2, 2), TeamType::Friendly);
    assert_eq!(team_type(false, 2, 3), TeamType::Enemy);
    assert!(is_visible_player(true, 1, false));
    assert!(!is_visible_player(true, 0, false));
    assert!(!is_visible_player(true, 50, true));
    assert!(!is_visible_player(false, 50, false));
    let _ = SpectatorsListIndicator::new();
}

#[test]
fn settings_defaults() {
    assert!(bool_true());
    assert!(!bool_false());
    assert_eq!(default_u32::<500>(), 500);
    assert_eq!(default_usize::<32>(), 32);
    assert_eq!(default_color::<1, 2, 3, 4>().as_u8(), [1, 2, 3, 4]);
    assert_eq!(default_key_settings(), HotKey(Key::Pause));
    assert_eq!(default_key_trigger_bot(), Some(HotKey(Key::MouseMiddle)));
    assert_eq!(default_key_none(), None);
    assert_eq!(default_esp_mode(), KeyToggleMode::AlwaysOn);
    assert_eq!(default_aimbot_mode(), KeyToggleMode::Trigger);
    assert_eq!(default_aimbot_key(), Some(HotKey(Key::MouseLeft)));
    assert_eq!(default_aim_bone(), "head");
    assert_eq!(default_aimbot_delay_activation(), 500);
    assert!(default_aimbot_random_aim_path());
    assert!(default_aimbot_adaptive_aim_correction());
    assert!(default_aimbot_multiple_target_prioritization());
    assert!(default_aimbot_visibility_check());
    assert_eq!(default_trigger_bot_mode(), KeyToggleMode::Trigger);
    let enabled = default_esp_configs_enabled();
    assert_eq!(enabled.len(), 1);
    assert_eq!(enabled.get("player.enemy"), Some(&true));
    assert_eq!(normalize_delay_range(80, 20), (20, 80));
    assert_eq!(normalize_delay_range(20, 80), (20, 80));
}

#[test]
fn application_frame_bookkeeping() {
    let mut frame = ApplicationFrame::new();
    assert!(!frame.settings_visible());
    assert!(!frame.take_dirty());
    assert!(frame.toggle_settings());
    assert!(!frame.take_dirty());
    // closing the settings marks them for saving
    assert!(!frame.toggle_settings());
    assert!(frame.take_dirty());
    assert!(!frame.take_dirty());
    frame.mark_dirty();
    assert!(frame.take_dirty());
    frame.record_read_calls(10);
    assert_eq!(frame.frame_read_calls(), 10);
    frame.record_read_calls(25);
    assert_eq!(frame.frame_read_calls(), 15);
}

#[test]
fn window_style_and_activity() {
    assert_eq!(overlay_window_style(0x0800_0120, true), 0x100);
    assert_eq!(overlay_window_style(0x100, false), 0x0800_0120);
    let mut activity = UiActivity::new();
    assert_eq!(activity.update(false, false), None);
    assert_eq!(activity.update(true, false), Some(true));
    assert_eq!(activity.update(false, true), None);
    assert_eq!(activity.update(false, false), Some(false));
}

#[test]
fn weapon_groups_filter_by_flag() {
    let flags = WeaponTypeFlags {
        pistol: 0x1,
        shotgun: 0x2,
        smg: 0x4,
        rifle: 0x8,
        sniper_rifle: 0x10,
        machine_gun: 0x20,
        grenade: 0x40,
    };
    let glock = WeaponId { id: 4, flags: 0x1, name: "glock", display_name: "Glock-18" };
    let awp = WeaponId { id: 9, flags: 0x10, name: "awp", display_name: "AWP" };
    let scout = WeaponId { id: 40, flags: 0x10, name: "ssg08", display_name: "SSG 08" };
    let all = vec![glock, awp, scout];
    assert_eq!(EspWeaponType::SniperRifle.weapons(&flags, &all), vec![awp, scout]);
    assert_eq!(EspWeaponType::Pistol.weapons(&flags, &all), vec![glock]);
    assert!(EspWeaponType::Grenade.weapons(&flags, &all).is_empty());
}

#[test]
fn update_backoff_pauses_after_ten_failures() {
    let mut backoff = valthrun::application::UpdateBackoff::new();
    assert!(!backoff.skip_update(0));
    for t in 0..10u64 {
        assert!(!backoff.record_failure(t));
    }
    // the eleventh failure pauses the updates for a second
    assert!(backoff.record_failure(100));
    assert!(backoff.skip_update(500));
    assert!(backoff.skip_update(1100));
    assert!(!backoff.skip_update(1101));
    assert!(!backoff.skip_update(1102));
    // counting starts over
    for t in 0..10u64 {
        assert!(!backoff.record_failure(2000 + t));
    }
    assert!(backoff.record_failure(3000));
}
