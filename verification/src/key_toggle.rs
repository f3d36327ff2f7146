//! Features that are switched by a hot key.
use vstd::prelude::*;
use std::time::Instant;
use crate::clock::{elapsed_millis, instant_now};
use crate::hotkey::HotKey;
use crate::keys::Key;

verus! {

/// How a feature reacts to its hot key.
#[derive(Debug, Clone, Copy, PartialEq, Eq, Structural)]
pub enum KeyToggleMode {
    AlwaysOn,
    Toggle,
    Trigger,
    TriggerInverted,
    Off,
}

/// Keyboard state as the overlay sees it during one frame.
pub trait KeyboardInput {
    /// Whether `key` is held during this frame.
    spec fn spec_is_key_down(&self, key: Key) -> bool;

    /// Whether `key` went down during this frame (or repeats while held, if
    /// `repeating`).
    spec fn spec_is_key_pressed(&self, key: Key, repeating: bool) -> bool;

    fn is_key_down(&self, key: Key) -> (down: bool)
        ensures
            down == self.spec_is_key_down(key),
    ;

    fn is_key_pressed(&self, key: Key, repeating: bool) -> (pressed: bool)
        ensures
            pressed == self.spec_is_key_pressed(key, repeating),
    ;
}

/// Minimum time between two flips of a toggled feature, in milliseconds.
pub const TOGGLE_DEBOUNCE_MS: u128 = 250;

/// On/off state of a feature driven by a hot key.
pub struct KeyToggle {
    pub last_state_changed: Instant,
    pub enabled: bool,
}

impl KeyToggle {
    /// Starts disabled. The last change is set to the moment of creation,
    /// which rests on the clock, so no clause states it.
    pub fn new() -> (toggle: Self)
        ensures
            !toggle.enabled,
    {
        KeyToggle { enabled: false, last_state_changed: instant_now() }
    }

    /// Updates the state for this frame and returns whether it changed. In
    /// Toggle mode the milliseconds since the last change are read from the
    /// machine clock, so which of the two outcomes of a press comes (a flip
    /// or none) is not fixed here: `update_timed` states it for a given
    /// reading.
    pub fn update<I: KeyboardInput + ?Sized>(&mut self, mode: &KeyToggleMode, input: &I, hotkey: &Option<HotKey>) -> (changed: bool)
        ensures
            changed == (final(self).enabled != old(self).enabled),
            final(self).enabled == spec_next_enabled(*mode, old(self).enabled, input, *hotkey, true)
                || final(self).enabled == spec_next_enabled(*mode, old(self).enabled, input, *hotkey, false),
            final(self).last_state_changed == old(self).last_state_changed || (spec_toggle_press(*mode, input, *hotkey)
                && final(self).enabled != old(self).enabled),
    {
        if is_toggle_press(mode, input, hotkey) {
            let elapsed_ms = elapsed_millis(&self.last_state_changed);
            let now = instant_now();
            self.update_timed(mode, input, hotkey, elapsed_ms, now)
        } else {
            let ghost before = *self;
            let changed = self.apply(mode, input, hotkey, false, None);
            proof {
                if *mode == KeyToggleMode::Toggle {
                    assert(spec_next_enabled(*mode, before.enabled, input, *hotkey, true)
                        == spec_next_enabled(*mode, before.enabled, input, *hotkey, false));
                }
            }
            changed
        }
    }

    /// Updates the state for this frame, given the milliseconds since the
    /// last change (`elapsed_ms`) and the moment `now` that a flip records;
    /// returns whether the state changed. In Toggle mode a press of the hot
    /// key flips the state only when more than `TOGGLE_DEBOUNCE_MS` have
    /// passed, and the flip renews the time of the last change.
    pub fn update_timed<I: KeyboardInput + ?Sized>(
        &mut self,
        mode: &KeyToggleMode,
        input: &I,
        hotkey: &Option<HotKey>,
        elapsed_ms: u128,
        now: Instant,
    ) -> (changed: bool)
        ensures
            changed == (final(self).enabled != old(self).enabled),
            final(self).enabled == spec_next_enabled(*mode, old(self).enabled, input, *hotkey, elapsed_ms > TOGGLE_DEBOUNCE_MS),
            final(self).last_state_changed == if spec_toggle_press(*mode, input, *hotkey) && elapsed_ms > TOGGLE_DEBOUNCE_MS {
                now
            } else {
                old(self).last_state_changed
            },
    {
        let debounced = elapsed_ms > TOGGLE_DEBOUNCE_MS;
        self.apply(mode, input, hotkey, debounced, Some(now))
    }

    /// Sets the state that `spec_next_enabled` gives; a debounced press in
    /// Toggle mode records `now`.
    fn apply<I: KeyboardInput + ?Sized>(
        &mut self,
        mode: &KeyToggleMode,
        input: &I,
        hotkey: &Option<HotKey>,
        debounced: bool,
        now: Option<Instant>,
    ) -> (changed: bool)
        requires
            spec_toggle_press(*mode, input, *hotkey) && debounced ==> now is Some,
        ensures
            changed == (final(self).enabled != old(self).enabled),
            final(self).enabled == spec_next_enabled(*mode, old(self).enabled, input, *hotkey, debounced),
            final(self).last_state_changed == if spec_toggle_press(*mode, input, *hotkey) && debounced {
                now->0
            } else {
                old(self).last_state_changed
            },
    {
        let new_state = match mode {
            KeyToggleMode::AlwaysOn => true,
            KeyToggleMode::Trigger | KeyToggleMode::TriggerInverted => {
                if let Some(hotkey) = hotkey {
                    let down = input.is_key_down(hotkey.0);
                    let trigger = match mode {
                        KeyToggleMode::Trigger => true,
                        _ => false,
                    };
                    down == trigger
                } else {
                    false
                }
            },
            KeyToggleMode::Toggle => {
                if let Some(hotkey) = hotkey {
                    if input.is_key_pressed(hotkey.0, false) {
                        if debounced {
                            match now {
                                Some(t) => {
                                    self.last_state_changed = t;
                                },
                                None => {},
                            }
                            !self.enabled
                        } else {
                            /* a press may be reported on a few frames in a row */
                            self.enabled
                        }
                    } else {
                        self.enabled
                    }
                } else {
                    false
                }
            },
            KeyToggleMode::Off => false,
        };
        if self.enabled == new_state {
            return false;
        }
        self.enabled = new_state;
        true
    }
}

/// Whether this frame holds a press of the hot key in Toggle mode: the
/// only case in which the time since the last change matters.
pub open spec fn spec_toggle_press<I: KeyboardInput + ?Sized>(mode: KeyToggleMode, input: &I, hotkey: Option<HotKey>) -> bool {
    mode == KeyToggleMode::Toggle && (hotkey matches Some(h) && input.spec_is_key_pressed(h.0, false))
}

fn is_toggle_press<I: KeyboardInput + ?Sized>(mode: &KeyToggleMode, input: &I, hotkey: &Option<HotKey>) -> (press: bool)
    ensures
        press == spec_toggle_press(*mode, input, *hotkey),
{
    match mode {
        KeyToggleMode::Toggle => match hotkey {
            Some(h) => input.is_key_pressed(h.0, false),
            None => false,
        },
        _ => false,
    }
}

/// State of a toggle after a frame. AlwaysOn is on and Off is off; Trigger
/// follows the hot key being held, TriggerInverted the opposite; Toggle
/// flips on a press of the hot key when `debounced` (enough time has passed
/// since the last change) and keeps its state otherwise. Every mode but
/// AlwaysOn is off without a hot key.
pub open spec fn spec_next_enabled<I: KeyboardInput + ?Sized>(
    mode: KeyToggleMode,
    enabled: bool,
    input: &I,
    hotkey: Option<HotKey>,
    debounced: bool,
) -> bool {
    match mode {
        KeyToggleMode::AlwaysOn => true,
        KeyToggleMode::Off => false,
        KeyToggleMode::Trigger => match hotkey {
            Some(h) => input.spec_is_key_down(h.0),
            None => false,
        },
        KeyToggleMode::TriggerInverted => match hotkey {
            Some(h) => !input.spec_is_key_down(h.0),
            None => false,
        },
        KeyToggleMode::Toggle => match hotkey {
            Some(h) => if input.spec_is_key_pressed(h.0, false) && debounced {
                !enabled
            } else {
                enabled
            },
            None => false,
        },
    }
}

} // verus!
