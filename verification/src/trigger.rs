//! Trigger bot: presses the fire button while an enemy is under the
//! crosshair, after a random reaction delay, and pauses for a configured
//! time after each change of the fire button.
use vstd::prelude::*;
use crate::hotkey::HotKey;
use crate::key_toggle::{KeyToggle, KeyToggleMode, KeyboardInput, spec_next_enabled};

verus! {

/// Class name of the player pawns that the trigger bot fires at.
pub const PLAYER_PAWN_CLASS: &'static str = "C_CSPlayerPawn";

/// Calls `rand::distributions::Uniform::new_inclusive(low, high)` and draws
/// one sample from it with `rand::thread_rng()`. The crate documents the
/// sample to lie in the closed range `[low, high]`, and the constructor
/// panics when `low > high`, which `requires` leaves out. Which value is
/// drawn is chance and is not stated.
#[verifier::external_body]
fn sample_uniform_inclusive(low: u32, high: u32) -> (value: u32)
    requires
        low <= high,
    ensures
        low <= value <= high,
{
    let uniform = rand::distributions::Uniform::new_inclusive(low, high);
    rand::distributions::Distribution::sample(&uniform, &mut rand::thread_rng())
}

/// The part of the settings that the trigger bot reads.
#[derive(Debug, Clone, Copy, PartialEq, Eq, Structural)]
pub struct TriggerSettings {
    pub mode: KeyToggleMode,
    pub hotkey: Option<HotKey>,
    pub team_check: bool,
    pub delay_min: u32,
    pub delay_max: u32,
    pub shot_duration: u32,
    pub check_target_after_delay: bool,
}

/// Phase of the trigger bot. Timestamps are milliseconds of a monotonic
/// clock.
#[derive(Debug, Clone, Copy, PartialEq, Eq, Structural)]
pub enum TriggerState {
    Idle,
    Pending { delay: u32, timestamp: u64 },
    Sleep { delay: u32, timestamp: u64 },
    Active,
}

/// Milliseconds since `since`; a clock reading before `since` counts as none.
pub open spec fn spec_elapsed(now: u64, since: u64) -> int {
    if now >= since { now - since } else { 0 }
}

pub open spec fn spec_delay_low(settings: TriggerSettings) -> u32 {
    if settings.delay_min <= settings.delay_max { settings.delay_min } else { settings.delay_max }
}

pub open spec fn spec_delay_high(settings: TriggerSettings) -> u32 {
    if settings.delay_min <= settings.delay_max { settings.delay_max } else { settings.delay_min }
}

/// Phase after a pending shot has been checked.
pub open spec fn spec_pending_next(delay: u32, timestamp: u64, should_shoot: bool, check_after_delay: bool, now: u64) -> TriggerState {
    if spec_elapsed(now, timestamp) < delay {
        TriggerState::Pending { delay, timestamp }
    } else if check_after_delay && !should_shoot {
        TriggerState::Idle
    } else {
        TriggerState::Active
    }
}

/// Phase after this frame's transitions, before the fire button is updated.
/// `delay` is the reaction delay drawn when a shot becomes pending.
pub open spec fn spec_settle(state: TriggerState, should_shoot: bool, check_after_delay: bool, now: u64, delay: u32) -> TriggerState {
    match state {
        TriggerState::Idle => if should_shoot {
            spec_pending_next(delay, now, should_shoot, check_after_delay, now)
        } else {
            TriggerState::Idle
        },
        TriggerState::Pending { delay: d, timestamp } => spec_pending_next(d, timestamp, should_shoot, check_after_delay, now),
        TriggerState::Sleep { delay: d, timestamp } => if spec_elapsed(now, timestamp) < d {
            state
        } else {
            TriggerState::Idle
        },
        TriggerState::Active => if should_shoot {
            TriggerState::Active
        } else {
            TriggerState::Idle
        },
    }
}

/// The bot shoots only while it is enabled and an enemy is under the
/// crosshair.
pub open spec fn spec_should_shoot(enabled: bool, on_target: bool) -> bool {
    enabled && on_target
}

/// Phase, fire button state and fire button change of one frame.
pub open spec fn spec_trigger_step(
    state: TriggerState,
    trigger_active: bool,
    settings: TriggerSettings,
    should_shoot: bool,
    now: u64,
    delay: u32,
) -> (TriggerState, bool, Option<bool>) {
    let settled = spec_settle(state, should_shoot, settings.check_target_after_delay, now, delay);
    let should_be_active = settled is Active;
    if should_be_active != trigger_active {
        (TriggerState::Sleep { delay: settings.shot_duration, timestamp: now }, should_be_active, Some(should_be_active))
    } else {
        (settled, trigger_active, None)
    }
}

/// Whether the crosshair target is an enemy player: its class must be the
/// player pawn, and with the team check on, the local player's team must be
/// known and differ from the target's.
pub open spec fn spec_should_be_active(target_type: Option<Seq<char>>, team_check: bool, target_team: u8, local_team: Option<u8>) -> bool {
    &&& target_type == Some(PLAYER_PAWN_CLASS@)
    &&& team_check ==> (local_team matches Some(l) && l != target_team)
}

/// Decides whether the trigger bot should fire at the crosshair target.
/// `target_type` is the class name of the target (`None` when there is no
/// target or it could not be resolved).
pub fn should_be_active(target_type: Option<&str>, team_check: bool, target_team: u8, local_team: Option<u8>) -> (active: bool)
    ensures
        active == spec_should_be_active(
            match target_type { Some(t) => Some(t@), None => None },
            team_check,
            target_team,
            local_team,
        ),
{
    let class = match target_type {
        Some(t) => t,
        None => return false,
    };
    if class.to_owned() != PLAYER_PAWN_CLASS.to_owned() {
        return false;
    }
    if team_check {
        match local_team {
            Some(team) => {
                if team == target_team {
                    return false;
                }
            },
            None => return false,
        }
    }
    true
}

/// The trigger bot's state between frames.
pub struct TriggerBot {
    toggle: KeyToggle,
    state: TriggerState,
    trigger_active: bool,
}

impl TriggerBot {
    pub closed spec fn phase(self) -> TriggerState {
        self.state
    }

    /// Whether the bot holds the fire button.
    pub closed spec fn firing(self) -> bool {
        self.trigger_active
    }

    pub closed spec fn enabled(self) -> bool {
        self.toggle.enabled
    }

    pub fn new() -> (bot: Self)
        ensures
            bot.phase() == TriggerState::Idle,
            !bot.firing(),
            !bot.enabled(),
    {
        TriggerBot { toggle: KeyToggle::new(), state: TriggerState::Idle, trigger_active: false }
    }

    pub fn is_enabled(&self) -> (enabled: bool)
        ensures
            enabled == self.enabled(),
    {
        self.toggle.enabled
    }

    /// Updates the on/off toggle from the hot key; returns whether it
    /// changed. Phase and fire button are left alone.
    pub fn update_toggle<I: KeyboardInput + ?Sized>(&mut self, settings: &TriggerSettings, input: &I) -> (changed: bool)
        ensures
            changed == (final(self).enabled() != old(self).enabled()),
            final(self).phase() == old(self).phase(),
            final(self).firing() == old(self).firing(),
            settings.mode == KeyToggleMode::AlwaysOn ==> final(self).enabled(),
            settings.mode == KeyToggleMode::Off ==> !final(self).enabled(),
            settings.hotkey is None && settings.mode != KeyToggleMode::AlwaysOn ==> !final(self).enabled(),
            settings.mode == KeyToggleMode::Trigger ==> (settings.hotkey matches Some(h) ==> final(self).enabled()
                == input.spec_is_key_down(h.0)),
            settings.mode == KeyToggleMode::TriggerInverted ==> (settings.hotkey matches Some(h)
                ==> final(self).enabled() == !input.spec_is_key_down(h.0)),
            final(self).enabled() == spec_next_enabled(settings.mode, old(self).enabled(), input, settings.hotkey, true)
                || final(self).enabled() == spec_next_enabled(settings.mode, old(self).enabled(), input, settings.hotkey, false),
    {
        let changed = self.toggle.update(&settings.mode, input, &settings.hotkey);
        changed
    }

    /// Advances the trigger bot by one frame. `on_target` tells whether an
    /// enemy is under the crosshair (see `should_be_active`); the bot shoots
    /// only while it is enabled and on target. `now_ms` is the current time
    /// of a monotonic millisecond clock. Returns the new fire button state
    /// when it has to be sent.
    pub fn update(&mut self, settings: &TriggerSettings, on_target: bool, now_ms: u64) -> (press: Option<bool>)
        ensures
            final(self).enabled() == old(self).enabled(),
            exists|delay: u32|
                #![trigger spec_trigger_step(old(self).phase(), old(self).firing(), *settings, spec_should_shoot(old(self).enabled(), on_target), now_ms, delay)]
                spec_delay_low(*settings) <= delay <= spec_delay_high(*settings)
                && spec_trigger_step(old(self).phase(), old(self).firing(), *settings, spec_should_shoot(old(self).enabled(), on_target), now_ms, delay)
                == (final(self).phase(), final(self).firing(), press),
    {
        let should_shoot = self.toggle.enabled && on_target;
        let low = if settings.delay_min <= settings.delay_max { settings.delay_min } else { settings.delay_max };
        let high = if settings.delay_min <= settings.delay_max { settings.delay_max } else { settings.delay_min };
        let ghost start = self.state;
        let mut drawn: u32 = low;
        loop
            invariant_except_break
                low == spec_delay_low(*settings),
                high == spec_delay_high(*settings),
                low <= drawn <= high,
                self.state == start || (start is Idle && should_shoot && self.state == (TriggerState::Pending {
                    delay: drawn,
                    timestamp: now_ms,
                })) || (start is Active && !should_shoot && self.state is Idle),
                self.toggle.enabled == old(self).toggle.enabled,
                self.trigger_active == old(self).trigger_active,
            ensures
                low <= drawn <= high,
                self.state == spec_settle(start, should_shoot, settings.check_target_after_delay, now_ms, drawn),
                self.toggle.enabled == old(self).toggle.enabled,
                self.trigger_active == old(self).trigger_active,
            decreases (if self.state is Idle { 2int } else if self.state is Active { 3int } else { 1int }),
        {
            match self.state {
                TriggerState::Idle => {
                    if !should_shoot {
                        break;
                    }
                    let selected = if high == low {
                        low
                    } else {
                        sample_uniform_inclusive(low, high)
                    };
                    drawn = selected;
                    self.state = TriggerState::Pending { delay: selected, timestamp: now_ms };
                },
                TriggerState::Pending { delay, timestamp } => {
                    let elapsed = if now_ms >= timestamp { now_ms - timestamp } else { 0 };
                    if elapsed < delay as u64 {
                        break;
                    }
                    if settings.check_target_after_delay && !should_shoot {
                        self.state = TriggerState::Idle;
                    } else {
                        self.state = TriggerState::Active;
                    }
                    break;
                },
                TriggerState::Sleep { delay, timestamp } => {
                    let elapsed = if now_ms >= timestamp { now_ms - timestamp } else { 0 };
                    if elapsed < delay as u64 {
                        break;
                    }
                    self.state = TriggerState::Idle;
                    break;
                },
                TriggerState::Active => {
                    if should_shoot {
                        break;
                    }
                    self.state = TriggerState::Idle;
                },
            }
        }
        let should_be_active = match self.state {
            TriggerState::Active => true,
            _ => false,
        };
        if should_be_active != self.trigger_active {
            self.trigger_active = should_be_active;
            self.state = TriggerState::Sleep { delay: settings.shot_duration, timestamp: now_ms };
            assert(spec_trigger_step(old(self).phase(), old(self).firing(), *settings, spec_should_shoot(old(self).enabled(), on_target), now_ms, drawn)
                == (self.phase(), self.firing(), Some(should_be_active)));
            return Some(should_be_active);
        }
        assert(spec_trigger_step(old(self).phase(), old(self).firing(), *settings, spec_should_shoot(old(self).enabled(), on_target), now_ms, drawn)
            == (self.phase(), self.firing(), None::<bool>));
        None
    }
}

/// Whenever the fire button changes, the bot sleeps for the configured shot
/// duration, counted from this frame; the button state changes only then.
pub proof fn lemma_press_starts_hold(
    state: TriggerState,
    firing: bool,
    settings: TriggerSettings,
    should_shoot: bool,
    now: u64,
    delay: u32,
)
    ensures
        ({
            let (next, next_firing, press) = spec_trigger_step(state, firing, settings, should_shoot, now, delay);
            &&& press is Some ==> next == (TriggerState::Sleep { delay: settings.shot_duration, timestamp: now })
                && press == Some(next_firing) && next_firing != firing
            &&& press is None ==> next_firing == firing
        }),
{
}

/// With the target re-checked after the reaction delay, a frame without a
/// target never presses the fire button.
pub proof fn lemma_no_target_no_press(
    state: TriggerState,
    firing: bool,
    settings: TriggerSettings,
    now: u64,
    delay: u32,
)
    requires
        settings.check_target_after_delay,
    ensures
        spec_trigger_step(state, firing, settings, false, now, delay).2 != Some(true),
{
}

/// An idle bot that is not firing stays idle and silent while there is
/// nothing to shoot at.
pub proof fn lemma_idle_stays_idle(settings: TriggerSettings, now: u64, delay: u32)
    ensures
        spec_trigger_step(TriggerState::Idle, false, settings, false, now, delay) == (TriggerState::Idle, false, None::<bool>),
{
}

/// A target seen with a zero reaction delay is fired at in the same frame.
pub proof fn lemma_zero_delay_fires_at_once(settings: TriggerSettings, now: u64)
    ensures
        spec_trigger_step(TriggerState::Idle, false, settings, true, now, 0) == (
            TriggerState::Sleep { delay: settings.shot_duration, timestamp: now },
            true,
            Some(true),
        ),
{
}

} // verus!
