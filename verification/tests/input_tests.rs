use valthrun::hotkey::{binding_label, capture_hotkey, shows_label, HotKey, KeyCapture};
use valthrun::input::{key_modifier, mouse_button, InputAction, InputSystem, MouseButton};
use valthrun::key_toggle::{KeyToggle, KeyToggleMode, KeyboardInput};
use valthrun::keys::Key;

struct FakeInput {
    down: Vec<Key>,
    pressed: Vec<Key>,
}

impl KeyboardInput for FakeInput {
    fn spec_is_key_down(&self, key: Key) -> bool {
        self.down.contains(&key)
    }

    fn spec_is_key_pressed(&self, key: Key, _repeating: bool) -> bool {
        self.pressed.contains(&key)
    }

    fn is_key_down(&self, key: Key) -> bool {
        self.down.contains(&key)
    }

    fn is_key_pressed(&self, key: Key, _repeating: bool) -> bool {
        self.pressed.contains(&key)
    }
}

fn idle_input() -> FakeInput {
    FakeInput { down: vec![], pressed: vec![] }
}

#[test]
fn input_system_reports_changes_once() {
    let mut system = InputSystem::new();
    let mut states = vec![0u16; 256];
    states[0x01] = 0x8000; // left mouse button
    states[0x41] = 0x8001; // A
    states[0xA0] = 0x8000; // left shift
    let events = system.update(&states);
    assert_eq!(events.len(), 3);
    assert_eq!(events[0].vkey, 0x01);
    assert!(events[0].pressed);
    assert_eq!(events[0].action, InputAction::Mouse(MouseButton::Left));
    assert_eq!(events[1].vkey, 0x41);
    assert_eq!(events[1].action, InputAction::Key(Key::A));
    assert_eq!(events[2].modifier, Some(Key::ModShift));

    // the same states a second time give no events
    let again = system.update(&states);
    assert!(again.is_empty());

    // releasing a key reports it as released
    states[0x41] = 0x0001;
    let released = system.update(&states);
    assert_eq!(released.len(), 1);
    assert_eq!(released[0].vkey, 0x41);
    assert!(!released[0].pressed);
}

#[test]
fn input_state_low_bit_is_not_pressed() {
    let mut system = InputSystem::new();
    let mut states = vec![0u16; 256];
    states[0x42] = 0x0001;
    assert!(system.update(&states).is_empty());
}

#[test]
fn mouse_buttons_and_modifiers() {
    assert_eq!(mouse_button(0x02), Some(MouseButton::Right));
    assert_eq!(mouse_button(0x04), Some(MouseButton::Middle));
    assert_eq!(mouse_button(0x05), Some(MouseButton::Extra1));
    assert_eq!(mouse_button(0x06), Some(MouseButton::Extra2));
    assert_eq!(mouse_button(0x41), None);
    assert_eq!(key_modifier(0xA2), Some(Key::ModCtrl));
    assert_eq!(key_modifier(0x12), Some(Key::ModAlt));
    assert_eq!(key_modifier(0x5C), Some(Key::ModSuper));
    assert_eq!(key_modifier(0x41), None);
}

#[test]
fn key_toggle_modes() {
    let mut toggle = KeyToggle::new();
    assert!(!toggle.enabled);
    let input = idle_input();
    assert!(toggle.update(&KeyToggleMode::AlwaysOn, &input, &None));
    assert!(toggle.enabled);
    assert!(!toggle.update(&KeyToggleMode::AlwaysOn, &input, &None));
    assert!(toggle.update(&KeyToggleMode::Off, &input, &None));
    assert!(!toggle.enabled);

    let held = FakeInput { down: vec![Key::MouseMiddle], pressed: vec![] };
    let key = Some(HotKey(Key::MouseMiddle));
    assert!(toggle.update(&KeyToggleMode::Trigger, &held, &key));
    assert!(toggle.enabled);
    assert!(toggle.update(&KeyToggleMode::TriggerInverted, &held, &key));
    assert!(!toggle.enabled);
    assert!(toggle.update(&KeyToggleMode::TriggerInverted, &idle_input(), &key));
    assert!(toggle.enabled);
    // a trigger mode without a key is off
    assert!(toggle.update(&KeyToggleMode::Trigger, &held, &None));
    assert!(!toggle.enabled);
}

#[test]
fn key_toggle_toggle_mode_without_press_keeps_state() {
    let mut toggle = KeyToggle::new();
    let key = Some(HotKey(Key::F1));
    assert!(!toggle.update(&KeyToggleMode::Toggle, &idle_input(), &key));
    assert!(!toggle.enabled);
}

#[test]
fn key_toggle_press_flips_after_debounce() {
    let created = std::time::Instant::now();
    let mut toggle = KeyToggle::new();
    let start = toggle.last_state_changed;
    let key = Some(HotKey(Key::F1));
    let press = FakeInput { down: vec![], pressed: vec![Key::F1] };
    // within 250 ms of the last change a press is ignored
    assert!(!toggle.update_timed(&KeyToggleMode::Toggle, &press, &key, 250, created));
    assert!(!toggle.enabled);
    assert_eq!(toggle.last_state_changed, start);
    // later it flips the state and renews the time of the last change
    let later = start + std::time::Duration::from_millis(400);
    assert!(toggle.update_timed(&KeyToggleMode::Toggle, &press, &key, 251, later));
    assert!(toggle.enabled);
    assert_eq!(toggle.last_state_changed, later);
    assert!(toggle.update_timed(&KeyToggleMode::Toggle, &press, &key, 1000, later));
    assert!(!toggle.enabled);
    // a press right after creation is within the debounce window
    let mut fresh = KeyToggle::new();
    assert!(!fresh.update(&KeyToggleMode::Toggle, &press, &key));
    assert!(!fresh.enabled);
}

#[test]
fn key_toggle_toggle_mode_without_key_is_off() {
    let mut toggle = KeyToggle::new();
    let key = Some(HotKey(Key::F1));
    let press = FakeInput { down: vec![], pressed: vec![Key::F1] };
    assert!(toggle.update_timed(&KeyToggleMode::Toggle, &press, &key, 300, std::time::Instant::now()));
    let changed_at = toggle.last_state_changed;
    assert!(toggle.update(&KeyToggleMode::Toggle, &press, &None));
    assert!(!toggle.enabled);
    assert_eq!(toggle.last_state_changed, changed_at);
}

#[test]
fn capture_hotkey_outcomes() {
    assert_eq!(capture_hotkey(&idle_input()), KeyCapture::Waiting);
    let escape = FakeInput { down: vec![], pressed: vec![Key::Escape, Key::A] };
    assert_eq!(capture_hotkey(&escape), KeyCapture::Cancelled);
    let one = FakeInput { down: vec![], pressed: vec![Key::F5] };
    assert_eq!(capture_hotkey(&one), KeyCapture::Captured(HotKey(Key::F5)));
}

#[test]
fn binding_labels() {
    assert_eq!(binding_label(&None), "None");
    assert_eq!(binding_label(&Some(HotKey(Key::Pause))), "Pause");
    assert!(shows_label("Trigger key"));
    assert!(!shows_label("##trigger"));
    assert!(shows_label("#x"));
}

#[test]
fn hotkey_names_round_trip() {
    let key = HotKey(Key::MouseMiddle);
    assert_eq!(key.name(), "MouseMiddle");
    assert_eq!(HotKey::from_name("MouseMiddle"), Some(key));
    assert_eq!(HotKey::from_name("NoSuchKey"), None);
    assert_eq!(HotKey::from_name(HotKey(Key::Keypad5).name()), Some(HotKey(Key::Keypad5)));
}

#[test]
fn every_hotkey_name_reads_back() {
    for index in 0..140usize {
        let key = valthrun::keys::key_variant(index).unwrap();
        assert_eq!(HotKey::from_name(key.name()), Some(HotKey(key)));
    }
    assert_eq!(valthrun::keys::key_variant(140), None);
}
