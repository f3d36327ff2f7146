use valthrun::aimbot::{is_target_team, Aimbot};
use valthrun::bhop::{bhop_step, is_in_air, jump_strokes, BhopMessage, BhopObservation, KeyState, LogState};
use valthrun::crosshair::{crosshair_entity_index, LocalCrosshair, NO_CROSSHAIR_ENTITY};
use valthrun::hacks;
use valthrun::key_toggle::KeyToggleMode;
use valthrun::recoil::{punch_elapsed_ticks, recoil_active, AntiAimPunsh};
use valthrun::strafe::{
    keyboard_strokes, Autostrafe, KeyStroke, StrafeState, StrafeUpdate, SC_A, SC_D, SC_NUMPAD_MINUS, STRAFE_TIME_MS,
    STRAFE_TOTAL,
};
use valthrun::keys::Key;
use valthrun::trigger::{should_be_active, TriggerBot, TriggerSettings};

struct NoKeys;

impl valthrun::key_toggle::KeyboardInput for NoKeys {
    fn spec_is_key_down(&self, _key: Key) -> bool {
        false
    }

    fn spec_is_key_pressed(&self, _key: Key, _repeating: bool) -> bool {
        false
    }

    fn is_key_down(&self, _key: Key) -> bool {
        false
    }

    fn is_key_pressed(&self, _key: Key, _repeating: bool) -> bool {
        false
    }
}

/// A trigger bot switched on by its AlwaysOn setting.
fn enabled_bot(s: &TriggerSettings) -> TriggerBot {
    let mut bot = TriggerBot::new();
    assert!(bot.update_toggle(s, &NoKeys));
    assert!(bot.is_enabled());
    bot
}

fn settings(delay_min: u32, delay_max: u32, check_after: bool) -> TriggerSettings {
    TriggerSettings {
        mode: KeyToggleMode::AlwaysOn,
        hotkey: None,
        team_check: true,
        delay_min,
        delay_max,
        shot_duration: 400,
        check_target_after_delay: check_after,
    }
}

#[test]
fn trigger_zero_delay_fires_at_once() {
    let s = settings(0, 0, false);
    let mut bot = enabled_bot(&s);
    assert_eq!(bot.update(&s, true, 1000), Some(true));
    // the next frame, the sleeping bot is no longer active: the button is
    // released and the bot sleeps again for the shot duration
    assert_eq!(bot.update(&s, true, 1010), Some(false));
    assert_eq!(bot.update(&s, true, 1200), None);
    // the frame the sleep ends the bot turns idle; the frame after, the
    // target is engaged again
    assert_eq!(bot.update(&s, true, 1410), None);
    assert_eq!(bot.update(&s, true, 1420), Some(true));
    assert_eq!(bot.update(&s, false, 1430), Some(false));
    assert_eq!(bot.update(&s, false, 2000), None);
}

#[test]
fn trigger_random_delay_stays_in_range() {
    for _ in 0..20 {
        let s = settings(10, 50, false);
        let mut bot = enabled_bot(&s);
        assert_eq!(bot.update(&s, true, 0), None);
        assert_eq!(bot.update(&s, true, 9), None);
        // the drawn delay is at most 50 ms
        assert_eq!(bot.update(&s, true, 50), Some(true));
    }
}

#[test]
fn trigger_swapped_delay_bounds() {
    let s = settings(30, 30, false);
    let mut bot = enabled_bot(&s);
    assert_eq!(bot.update(&s, true, 0), None);
    assert_eq!(bot.update(&s, true, 29), None);
    assert_eq!(bot.update(&s, true, 30), Some(true));
}

#[test]
fn trigger_rechecks_target_after_delay() {
    let s = settings(20, 20, true);
    let mut bot = enabled_bot(&s);
    assert_eq!(bot.update(&s, true, 0), None);
    // target lost when the delay is over: no shot
    assert_eq!(bot.update(&s, false, 25), None);
    assert_eq!(bot.update(&s, false, 100), None);
}

#[test]
fn trigger_idle_without_target() {
    let mut bot = TriggerBot::new();
    assert!(!bot.is_enabled());
    let s = settings(0, 0, false);
    for t in 0..10u64 {
        assert_eq!(bot.update(&s, false, t), None);
    }
}

#[test]
fn trigger_disabled_bot_never_fires() {
    let mut bot = TriggerBot::new();
    let mut s = settings(0, 0, false);
    s.mode = KeyToggleMode::Off;
    assert!(!bot.update_toggle(&s, &NoKeys));
    for t in 0..10u64 {
        assert_eq!(bot.update(&s, true, t * 100), None);
    }
}

#[test]
fn trigger_target_decision() {
    assert!(should_be_active(Some("C_CSPlayerPawn"), true, 2, Some(3)));
    assert!(!should_be_active(Some("C_CSPlayerPawn"), true, 3, Some(3)));
    assert!(!should_be_active(Some("C_CSPlayerPawn"), true, 3, None));
    assert!(should_be_active(Some("C_CSPlayerPawn"), false, 3, Some(3)));
    assert!(!should_be_active(Some("C_Chicken"), false, 3, Some(2)));
    assert!(!should_be_active(None, false, 3, Some(2)));
}

#[test]
fn simple_trigger_bot_presses_on_change() {
    let mut bot = hacks::TriggerBot::new(LocalCrosshair::new());
    assert_eq!(bot.update(false), None);
    assert_eq!(bot.update(true), Some(true));
    assert_eq!(bot.update(true), None);
    assert_eq!(bot.update(false), Some(false));
    assert!(!bot.should_be_active(true, 2, 3));
    bot.crosshair_mut().set_target(7, Some("C_CSPlayerPawn".to_string()));
    assert_eq!(bot.crosshair_mut().current_target().map(|t| t.entity_id), Some(7));
    assert!(bot.should_be_active(true, 2, 3));
    assert!(!bot.should_be_active(false, 2, 3));
    assert!(!bot.should_be_active(true, 3, 3));
    bot.crosshair_mut().set_target(8, Some("C_Chicken".to_string()));
    assert!(!bot.should_be_active(true, 2, 3));
}

#[test]
fn crosshair_tracking() {
    assert_eq!(crosshair_entity_index(NO_CROSSHAIR_ENTITY), None);
    assert_eq!(crosshair_entity_index(12), Some(12));
    let mut crosshair = LocalCrosshair::new();
    assert!(crosshair.current_target().is_none());
    assert!(crosshair.is_new_target(5));
    crosshair.set_target(5, None);
    assert!(!crosshair.is_new_target(5));
    assert!(crosshair.is_new_target(6));
    crosshair.clear_target();
    assert!(crosshair.current_target().is_none());
    assert_eq!(crosshair.begin_update(Some(3)), Some(3));
    crosshair.set_target(3, Some("C_Chicken".to_string()));
    assert_eq!(crosshair.begin_update(Some(3)), None);
    assert_eq!(crosshair.current_target().map(|t| t.entity_id), Some(3));
    assert_eq!(crosshair.begin_update(None), None);
    assert!(crosshair.current_target().is_none());
}

#[test]
fn strafe_direction_helpers() {
    assert_eq!(StrafeState::StrafeLeft.opposite(), StrafeState::StrafeRight);
    assert_eq!(StrafeState::StrafeRight.opposite().opposite(), StrafeState::StrafeRight);
    assert_eq!(StrafeState::Neutral.opposite(), StrafeState::Neutral);
    assert_eq!(StrafeState::StrafeLeft.sign(), -1);
    assert_eq!(StrafeState::StrafeRight.sign(), 1);
    assert_eq!(StrafeState::Neutral.sign(), 0);
    assert_eq!(
        keyboard_strokes(StrafeState::StrafeLeft),
        vec![KeyStroke { scan_code: SC_D, down: false }, KeyStroke { scan_code: SC_A, down: true }]
    );
    assert_eq!(
        keyboard_strokes(StrafeState::Neutral),
        vec![KeyStroke { scan_code: SC_A, down: false }, KeyStroke { scan_code: SC_D, down: false }]
    );
}

#[test]
fn autostrafe_cycle() {
    let mut strafe = Autostrafe::new(0);
    assert_eq!(strafe.update(false, 10), StrafeUpdate::Unchanged);
    // start: left, half way through the first strafe
    let start = strafe.update(true, 100);
    assert_eq!(start, StrafeUpdate::Curve { started: true, time_delta: (STRAFE_TIME_MS / 2) as u64 });
    assert_eq!(strafe.strafe_state(), StrafeState::StrafeLeft);
    // the curve asks for more movement: sent to the left with A held
    assert_eq!(strafe.apply_curve(4000), Some((-1000, Some(KeyStroke { scan_code: SC_A, down: true }))));
    // a small step is not sent
    assert_eq!(strafe.apply_curve(4050), None);
    // past the strafe time it turns around, sending what is missing
    let switched = strafe.update(true, 100 + 400);
    assert_eq!(switched, StrafeUpdate::Switched { mouse_dx: Some(-((STRAFE_TOTAL - 4000) as i32)) });
    assert_eq!(strafe.strafe_state(), StrafeState::StrafeRight);
    // releasing goes neutral once
    assert_eq!(strafe.update(false, 600), StrafeUpdate::Released);
    assert_eq!(strafe.update(false, 700), StrafeUpdate::Unchanged);
}

#[test]
fn bhop_loop_decisions() {
    let step = bhop_step(LogState::Active, BhopObservation::NoController);
    assert_eq!(step.log_state, LogState::MissingLocalController);
    assert_eq!(step.message, Some(BhopMessage::MissingController));
    assert!(step.wait && !step.jump);
    let again = bhop_step(step.log_state, BhopObservation::NoController);
    assert_eq!(again.message, None);

    let jump = bhop_step(LogState::Armed, BhopObservation::Ready { in_air: false, should_jump: true });
    assert!(jump.jump);
    assert_eq!(jump.message, Some(BhopMessage::SendingJumps));
    assert_eq!(jump.log_state, LogState::Active);

    let landing = bhop_step(LogState::Active, BhopObservation::Ready { in_air: true, should_jump: true });
    assert!(!landing.jump);
    assert_eq!(landing.message, Some(BhopMessage::AwaitLanding));
    assert_eq!(BhopMessage::AwaitLanding.text(), "Jump initiated, await landing...");

    let waiting = bhop_step(LogState::LocalPawnDead, BhopObservation::Ready { in_air: false, should_jump: false });
    assert_eq!(waiting.message, Some(BhopMessage::AwaitJumpButton));
    assert_eq!(bhop_step(LogState::Armed, BhopObservation::PawnDead).message, Some(BhopMessage::PawnDead));
    assert_eq!(bhop_step(LogState::Armed, BhopObservation::NoPawn).log_state, LogState::MissingLocalPawn);

    assert!(is_in_air(0));
    assert!(!is_in_air(1));
    assert!(!is_in_air(0x81));
    assert_eq!(
        jump_strokes(),
        vec![
            KeyStroke { scan_code: SC_NUMPAD_MINUS, down: true },
            KeyStroke { scan_code: SC_NUMPAD_MINUS, down: false }
        ]
    );
}

#[test]
fn key_state_logs_changes() {
    let mut state = KeyState::new(0x41, "  A".to_string());
    assert_eq!(state.update(0), None);
    assert_eq!(state.update(0x8000), Some((0, 0x8000)));
    assert_eq!(state.update(0x8000), None);
    assert_eq!(state.last_state, 0x8000);
}

#[test]
fn recoil_compensation() {
    assert!(!recoil_active(true, 1));
    assert!(recoil_active(true, 2));
    assert!(!recoil_active(false, 5));
    assert_eq!(punch_elapsed_ticks(100, 130), 30);
    assert_eq!(punch_elapsed_ticks(140, 130), 0);
    let mut punch = AntiAimPunsh::new();
    assert_eq!(punch.apply_target(5, -3), Some((5, -3)));
    assert_eq!(punch.apply_target(5, -3), None);
    assert_eq!(punch.apply_target(2, 0), Some((-3, 3)));
}

#[test]
fn aimbot_keeps_target_while_pressed() {
    let mut aimbot: Aimbot<(i32, i32)> = Aimbot::new();
    assert!(!aimbot.is_enabled());
    assert_eq!(aimbot.kept_target(), None);
    aimbot.remember_target(Some((1, 2)));
    // not pressed: nothing is kept
    assert_eq!(aimbot.kept_target(), None);
    aimbot.on_mouse_pressed();
    assert_eq!(aimbot.kept_target(), None);
    aimbot.remember_target(Some((3, 4)));
    assert_eq!(aimbot.kept_target(), Some((3, 4)));
    aimbot.on_mouse_released();
    assert_eq!(aimbot.kept_target(), None);
    aimbot.on_mouse_pressed();
    assert_eq!(aimbot.kept_target(), None);
    assert!(is_target_team(true, 2, 3));
    assert!(!is_target_team(true, 2, 2));
    assert!(is_target_team(false, 2, 2));
}
