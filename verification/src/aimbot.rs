//! Aim assistance: its toggle, and the target it keeps while the fire
//! button is held.
use vstd::prelude::*;
use crate::hotkey::HotKey;
use crate::key_toggle::{KeyToggle, KeyToggleMode, KeyboardInput, spec_next_enabled};

verus! {

/// Whether a player is a candidate target: with the team check on, players
/// of the local team are skipped.
pub fn is_target_team(team_check: bool, local_team: u8, target_team: u8) -> (candidate: bool)
    ensures
        candidate == (!team_check || local_team != target_team),
{
    !team_check || local_team != target_team
}

/// The aimbot's state between frames. `T` is a target position on screen.
pub struct Aimbot<T> {
    aimbot_toggle: KeyToggle,
    aimbot_is_mouse_pressed: bool,
    aimbot_current_target: Option<T>,
}

impl<T: Copy> Aimbot<T> {
    pub closed spec fn enabled(self) -> bool {
        self.aimbot_toggle.enabled
    }

    pub closed spec fn mouse_pressed(self) -> bool {
        self.aimbot_is_mouse_pressed
    }

    pub closed spec fn current_target(self) -> Option<T> {
        self.aimbot_current_target
    }

    pub fn new() -> (aimbot: Self)
        ensures
            !aimbot.enabled(),
            !aimbot.mouse_pressed(),
            aimbot.current_target() is None,
    {
        Aimbot { aimbot_toggle: KeyToggle::new(), aimbot_is_mouse_pressed: false, aimbot_current_target: None }
    }

    pub fn is_enabled(&self) -> (enabled: bool)
        ensures
            enabled == self.enabled(),
    {
        self.aimbot_toggle.enabled
    }

    /// Updates the toggle from the hot key; returns whether it changed.
    pub fn update_toggle<I: KeyboardInput + ?Sized>(&mut self, mode: &KeyToggleMode, input: &I, hotkey: &Option<HotKey>) -> (changed: bool)
        ensures
            changed == (final(self).enabled() != old(self).enabled()),
            final(self).mouse_pressed() == old(self).mouse_pressed(),
            final(self).current_target() == old(self).current_target(),
            final(self).enabled() == spec_next_enabled(*mode, old(self).enabled(), input, *hotkey, true)
                || final(self).enabled() == spec_next_enabled(*mode, old(self).enabled(), input, *hotkey, false),
    {
        self.aimbot_toggle.update(mode, input, hotkey)
    }

    pub fn on_mouse_pressed(&mut self)
        ensures
            final(self).mouse_pressed(),
            final(self).current_target() == old(self).current_target(),
            final(self).enabled() == old(self).enabled(),
    {
        self.aimbot_is_mouse_pressed = true;
    }

    /// Releasing the button forgets the target.
    pub fn on_mouse_released(&mut self)
        ensures
            !final(self).mouse_pressed(),
            final(self).current_target() is None,
            final(self).enabled() == old(self).enabled(),
    {
        self.aimbot_is_mouse_pressed = false;
        self.aimbot_current_target = None;
    }

    /// The target kept from an earlier frame: while the button is held, the
    /// first target found stays the target.
    pub fn kept_target(&self) -> (target: Option<T>)
        ensures
            target == if self.mouse_pressed() { self.current_target() } else { None },
    {
        if self.aimbot_is_mouse_pressed {
            self.aimbot_current_target
        } else {
            None
        }
    }

    /// Records the best target found this frame; it is kept only while the
    /// button is held.
    pub fn remember_target(&mut self, best: Option<T>)
        ensures
            final(self).current_target() == if old(self).mouse_pressed() { best } else { old(self).current_target() },
            final(self).mouse_pressed() == old(self).mouse_pressed(),
            final(self).enabled() == old(self).enabled(),
    {
        if self.aimbot_is_mouse_pressed {
            self.aimbot_current_target = best;
        }
    }
}

} // verus!
