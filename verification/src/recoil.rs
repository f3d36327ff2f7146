//! Recoil compensation: when it runs, how far the view punch has decayed in
//! ticks, and which mouse movement brings the applied compensation to the
//! new target.
use vstd::prelude::*;

verus! {

/// Whether recoil compensation runs: the setting is on and the local player
/// has fired more than one shot of the current burst.
pub fn recoil_active(enabled: bool, shots_fired: i32) -> (active: bool)
    ensures
        active == (enabled && shots_fired > 1),
{
    enabled && shots_fired > 1
}

/// Ticks since the view punch started. A tick base in the future counts as
/// now.
pub fn punch_elapsed_ticks(punch_tick_base: u32, current_tick: u32) -> (elapsed: u32)
    ensures
        elapsed == if punch_tick_base > current_tick { 0 } else { current_tick - punch_tick_base },
{
    let base = if punch_tick_base > current_tick { current_tick } else { punch_tick_base };
    current_tick - base
}

/// The mouse movement that takes the applied compensation `adjustment` to
/// `target`, or `None` when they are equal.
pub open spec fn spec_punch_delta(adjustment: (i32, i32), target: (i32, i32)) -> Option<(int, int)> {
    if target == adjustment {
        None
    } else {
        Some((target.0 - adjustment.0, target.1 - adjustment.1))
    }
}

/// Mouse compensation applied so far against the view punch.
pub struct AntiAimPunsh {
    mouse_adjustment_x: i32,
    mouse_adjustment_y: i32,
    last_tick_base: u32,
}

impl AntiAimPunsh {
    pub closed spec fn adjustment(self) -> (i32, i32) {
        (self.mouse_adjustment_x, self.mouse_adjustment_y)
    }

    pub fn new() -> (punch: Self)
        ensures
            punch.adjustment() == (0i32, 0i32),
    {
        AntiAimPunsh { mouse_adjustment_x: 0, mouse_adjustment_y: 0, last_tick_base: 0 }
    }

    /// Moves the applied compensation to the new target `(x, y)` and
    /// returns the mouse movement that does so, or `None` when nothing
    /// changes.
    pub fn apply_target(&mut self, target_x: i32, target_y: i32) -> (delta: Option<(i32, i32)>)
        requires
            i32::MIN <= target_x - old(self).adjustment().0 <= i32::MAX,
            i32::MIN <= target_y - old(self).adjustment().1 <= i32::MAX,
        ensures
            final(self).adjustment() == (target_x, target_y),
            match spec_punch_delta(old(self).adjustment(), (target_x, target_y)) {
                Some((dx, dy)) => delta == Some((dx as i32, dy as i32)),
                None => delta is None,
            },
    {
        let delta_y = target_y - self.mouse_adjustment_y;
        self.mouse_adjustment_y = target_y;
        let delta_x = target_x - self.mouse_adjustment_x;
        self.mouse_adjustment_x = target_x;
        if delta_y != 0 || delta_x != 0 {
            Some((delta_x, delta_y))
        } else {
            None
        }
    }
}

/// The movements sent for a series of targets add up to the last target:
/// after two targets the mouse has moved as far as the second target lies
/// from the start.
pub proof fn lemma_deltas_telescope(start: (i32, i32), first: (i32, i32), second: (i32, i32))
    ensures
        ({
            let d1 = match spec_punch_delta(start, first) { Some(d) => d, None => (0int, 0int) };
            let d2 = match spec_punch_delta(first, second) { Some(d) => d, None => (0int, 0int) };
            d1.0 + d2.0 == second.0 - start.0 && d1.1 + d2.1 == second.1 - start.1
        }),
{
}

} // verus!
