//! Automatic strafing of the bunny hop helper: the strafe direction, the
//! keys it holds and when it turns around.
use vstd::prelude::*;

verus! {

/// Direction of the current strafe movement.
#[derive(Debug, Clone, Copy, PartialEq, Eq, Structural)]
pub enum StrafeState {
    Neutral,
    StrafeRight,
    StrafeLeft,
}

impl StrafeState {
    /// Mouse direction sign of a strafe state: right is positive.
    pub open spec fn spec_sign(self) -> int {
        match self {
            StrafeState::Neutral => 0,
            StrafeState::StrafeRight => 1,
            StrafeState::StrafeLeft => -1,
        }
    }

    pub open spec fn spec_opposite(self) -> StrafeState {
        match self {
            StrafeState::Neutral => StrafeState::Neutral,
            StrafeState::StrafeRight => StrafeState::StrafeLeft,
            StrafeState::StrafeLeft => StrafeState::StrafeRight,
        }
    }

    pub fn opposite(&self) -> (r: Self)
        ensures
            r == self.spec_opposite(),
    {
        match self {
            StrafeState::Neutral => StrafeState::Neutral,
            StrafeState::StrafeRight => StrafeState::StrafeLeft,
            StrafeState::StrafeLeft => StrafeState::StrafeRight,
        }
    }

    pub fn sign(&self) -> (r: i32)
        ensures
            r == self.spec_sign(),
    {
        match self {
            StrafeState::Neutral => 0,
            StrafeState::StrafeRight => 1,
            StrafeState::StrafeLeft => -1,
        }
    }
}

/// Turning around twice keeps the direction, and turning around negates the
/// mouse sign.
pub proof fn lemma_opposite_involutive(s: StrafeState)
    ensures
        s.spec_opposite().spec_opposite() == s,
        s.spec_opposite().spec_sign() == -s.spec_sign(),
{
}

/// Keyboard scan code of the key bound to the jump alias.
pub const SC_NUMPAD_MINUS: u16 = 0x4A;
/// Keyboard scan code of `A` (strafe left).
pub const SC_A: u16 = 0x1E;
/// Keyboard scan code of `D` (strafe right).
pub const SC_D: u16 = 0x20;

/// A key going down or up, by scan code.
#[derive(Debug, Clone, Copy, PartialEq, Eq, Structural)]
pub struct KeyStroke {
    pub scan_code: u16,
    pub down: bool,
}

/// The key strokes that put the keyboard into a strafe state: release the
/// key of the other side, then hold the key of this side (both released
/// when neutral).
pub open spec fn spec_keyboard_strokes(state: StrafeState) -> Seq<KeyStroke> {
    match state {
        StrafeState::StrafeLeft => seq![
            KeyStroke { scan_code: SC_D, down: false },
            KeyStroke { scan_code: SC_A, down: true },
        ],
        StrafeState::StrafeRight => seq![
            KeyStroke { scan_code: SC_A, down: false },
            KeyStroke { scan_code: SC_D, down: true },
        ],
        StrafeState::Neutral => seq![
            KeyStroke { scan_code: SC_A, down: false },
            KeyStroke { scan_code: SC_D, down: false },
        ],
    }
}

pub fn keyboard_strokes(state: StrafeState) -> (strokes: Vec<KeyStroke>)
    ensures
        strokes@ == spec_keyboard_strokes(state),
{
    let strokes = match state {
        StrafeState::StrafeLeft => vec![
            KeyStroke { scan_code: SC_D, down: false },
            KeyStroke { scan_code: SC_A, down: true },
        ],
        StrafeState::StrafeRight => vec![
            KeyStroke { scan_code: SC_A, down: false },
            KeyStroke { scan_code: SC_D, down: true },
        ],
        StrafeState::Neutral => vec![
            KeyStroke { scan_code: SC_A, down: false },
            KeyStroke { scan_code: SC_D, down: false },
        ],
    };
    assert(strokes@ =~= spec_keyboard_strokes(state));
    strokes
}

/// Duration of one strafe to a side, in milliseconds.
pub const STRAFE_TIME_MS: u32 = 675;
/// Mouse movement of one full strafe.
pub const STRAFE_TOTAL: u32 = 6000;
/// Smallest pending mouse movement that is sent during a strafe.
pub const MIN_MOUSE_STEP: i32 = 60;

/// What one update asks of the caller.
#[derive(Debug, Clone, Copy, PartialEq, Eq, Structural)]
pub enum StrafeUpdate {
    /// Nothing to send.
    Unchanged,
    /// Strafing stopped: send the strokes of the neutral state.
    Released,
    /// The strafe turned around: move the mouse by `mouse_dx` when given,
    /// then send the strokes of the new state.
    Switched { mouse_dx: Option<i32> },
    /// The strafe goes on: when `started`, first send the strokes of the new
    /// state; then compute the offset the curve expects after `time_delta`
    /// milliseconds and hand it to `apply_curve`.
    Curve { started: bool, time_delta: u64 },
}

/// Milliseconds since `start`, plus `time_offset`, saturated.
pub open spec fn spec_time_delta(now_ms: u64, start_ms: u64, time_offset: u32) -> u64 {
    let elapsed: int = if now_ms >= start_ms { now_ms - start_ms } else { 0 };
    if elapsed + time_offset > u64::MAX { u64::MAX } else { (elapsed + time_offset) as u64 }
}

/// One update of the strafe state: `(direction, start, applied offset, time
/// offset)` before, whether to strafe and the time; gives the state after
/// and what to send.
pub open spec fn spec_strafe_update(
    state: StrafeState,
    start_ms: u64,
    applied: u32,
    time_offset: u32,
    time_ms: u32,
    total: u32,
    should_strafe: bool,
    now_ms: u64,
) -> (StrafeState, u64, u32, u32, StrafeUpdate) {
    if !should_strafe {
        if state == StrafeState::Neutral {
            (state, start_ms, applied, time_offset, StrafeUpdate::Unchanged)
        } else {
            (StrafeState::Neutral, start_ms, 0, time_offset, StrafeUpdate::Released)
        }
    } else {
        let started = state == StrafeState::Neutral;
        let st = if started { StrafeState::StrafeLeft } else { state };
        let start = if started { now_ms } else { start_ms };
        let app = if started { total / 2 } else { applied };
        let toff = if started { time_ms / 2 } else { time_offset };
        let delta = spec_time_delta(now_ms, start, toff);
        if delta > time_ms {
            let difference = total - app;
            (st.spec_opposite(), now_ms, 0, 0, StrafeUpdate::Switched {
                mouse_dx: if difference > 0 { Some((difference * st.spec_sign()) as i32) } else { None },
            })
        } else {
            (st, start, app, toff, StrafeUpdate::Curve { started, time_delta: delta })
        }
    }
}

/// Mouse movement and key stroke sent when the curve asks for
/// `expected_offset`: the movement still missing in the strafe's direction,
/// with the key of that side held, once it exceeds the smallest step.
pub open spec fn spec_curve_step(state: StrafeState, applied: u32, expected_offset: u32) -> Option<(i32, Option<KeyStroke>)> {
    if expected_offset > applied {
        let pending = (expected_offset - applied) * state.spec_sign();
        if pending > MIN_MOUSE_STEP || pending < -MIN_MOUSE_STEP {
            Some((pending as i32, match state {
                StrafeState::StrafeLeft => Some(KeyStroke { scan_code: SC_A, down: true }),
                StrafeState::StrafeRight => Some(KeyStroke { scan_code: SC_D, down: true }),
                StrafeState::Neutral => None,
            }))
        } else {
            None
        }
    } else {
        None
    }
}

/// Automatic strafing between left and right while jumping.
pub struct Autostrafe {
    strafe_time_ms: u32,
    strafe_total: u32,
    strafe_start_ms: u64,
    strafe_state: StrafeState,
    strafe_applied_offset: u32,
    strafe_time_offset: u32,
}

impl Autostrafe {
    #[verifier::type_invariant]
    spec fn offsets_in_range(self) -> bool {
        &&& self.strafe_applied_offset <= self.strafe_total
        &&& self.strafe_total <= i32::MAX
    }

    pub closed spec fn direction(self) -> StrafeState {
        self.strafe_state
    }

    pub closed spec fn start_ms(self) -> u64 {
        self.strafe_start_ms
    }

    pub closed spec fn applied_offset(self) -> u32 {
        self.strafe_applied_offset
    }

    pub closed spec fn time_offset(self) -> u32 {
        self.strafe_time_offset
    }

    pub closed spec fn time_ms(self) -> u32 {
        self.strafe_time_ms
    }

    pub closed spec fn total(self) -> u32 {
        self.strafe_total
    }

    /// A neutral strafe with the standard timing, started at `now_ms`.
    pub fn new(now_ms: u64) -> (strafe: Self)
        ensures
            strafe.direction() == StrafeState::Neutral,
            strafe.start_ms() == now_ms,
            strafe.applied_offset() == 0,
            strafe.time_offset() == 0,
            strafe.time_ms() == STRAFE_TIME_MS,
            strafe.total() == STRAFE_TOTAL,
    {
        Autostrafe {
            strafe_time_ms: STRAFE_TIME_MS,
            strafe_total: STRAFE_TOTAL,
            strafe_start_ms: now_ms,
            strafe_state: StrafeState::Neutral,
            strafe_applied_offset: 0,
            strafe_time_offset: 0,
        }
    }

    /// The current strafe direction.
    pub fn strafe_state(&self) -> (state: StrafeState)
        ensures
            state == self.direction(),
    {
        self.strafe_state
    }

    /// Advances the strafe: `should_strafe` tells whether the jump button is
    /// held, `now_ms` is the time of a monotonic millisecond clock.
    pub fn update(&mut self, should_strafe: bool, now_ms: u64) -> (step: StrafeUpdate)
        ensures
            (final(self).direction(), final(self).start_ms(), final(self).applied_offset(), final(self).time_offset(), step)
                == spec_strafe_update(
                old(self).direction(),
                old(self).start_ms(),
                old(self).applied_offset(),
                old(self).time_offset(),
                old(self).time_ms(),
                old(self).total(),
                should_strafe,
                now_ms,
            ),
            final(self).time_ms() == old(self).time_ms(),
            final(self).total() == old(self).total(),
    {
        proof {
            use_type_invariant(&*self);
        }
        if !should_strafe {
            if self.strafe_state == StrafeState::Neutral {
                return StrafeUpdate::Unchanged;
            }
            self.strafe_state = StrafeState::Neutral;
            self.strafe_applied_offset = 0;
            return StrafeUpdate::Released;
        }
        let started = self.strafe_state == StrafeState::Neutral;
        if started {
            self.strafe_start_ms = now_ms;
            self.strafe_state = StrafeState::StrafeLeft;
            self.strafe_applied_offset = self.strafe_total / 2;
            self.strafe_time_offset = self.strafe_time_ms / 2;
        }
        let elapsed: u64 = if now_ms >= self.strafe_start_ms { now_ms - self.strafe_start_ms } else { 0 };
        let time_delta = elapsed.saturating_add(self.strafe_time_offset as u64);
        if time_delta > self.strafe_time_ms as u64 {
            let difference = self.strafe_total - self.strafe_applied_offset;
            assert(difference <= i32::MAX);
            let sign = self.strafe_state.sign();
            let mouse_dx = if difference > 0 {
                let magnitude = difference as i32;
                assert(magnitude * sign == difference * self.strafe_state.spec_sign()) by (nonlinear_arith)
                    requires
                        magnitude == difference,
                        sign == self.strafe_state.spec_sign(),
                ;
                Some(magnitude * sign)
            } else {
                None
            };
            self.strafe_state = self.strafe_state.opposite();
            self.strafe_start_ms = now_ms;
            self.strafe_applied_offset = 0;
            self.strafe_time_offset = 0;
            return StrafeUpdate::Switched { mouse_dx };
        }
        StrafeUpdate::Curve { started, time_delta }
    }

    /// Applies the offset the strafe curve expects now (at most the full
    /// movement); returns the mouse movement and key stroke to send, if any.
    pub fn apply_curve(&mut self, expected_offset: u32) -> (sent: Option<(i32, Option<KeyStroke>)>)
        requires
            expected_offset <= old(self).total(),
        ensures
            sent == spec_curve_step(old(self).direction(), old(self).applied_offset(), expected_offset),
            final(self).applied_offset() == if sent is Some { expected_offset } else { old(self).applied_offset() },
            final(self).direction() == old(self).direction(),
            final(self).start_ms() == old(self).start_ms(),
            final(self).time_offset() == old(self).time_offset(),
            final(self).time_ms() == old(self).time_ms(),
            final(self).total() == old(self).total(),
    {
        proof {
            use_type_invariant(&*self);
        }
        if expected_offset <= self.strafe_applied_offset {
            return None;
        }
        let pending = ((expected_offset - self.strafe_applied_offset) as i32) * self.strafe_state.sign();
        if pending > MIN_MOUSE_STEP || pending < -MIN_MOUSE_STEP {
            self.strafe_applied_offset = expected_offset;
            let stroke = match self.strafe_state {
                StrafeState::StrafeLeft => Some(KeyStroke { scan_code: SC_A, down: true }),
                StrafeState::StrafeRight => Some(KeyStroke { scan_code: SC_D, down: true }),
                StrafeState::Neutral => None,
            };
            Some((pending, stroke))
        } else {
            None
        }
    }
}

/// A strafe that has just started never turns around in the same update:
/// the half time offset it starts with stays within the strafe time.
pub proof fn lemma_start_never_switches(time_ms: u32, total: u32, start_ms: u64, applied: u32, time_offset: u32, now_ms: u64)
    ensures
        spec_strafe_update(StrafeState::Neutral, start_ms, applied, time_offset, time_ms, total, true, now_ms).4
            == (StrafeUpdate::Curve { started: true, time_delta: (time_ms / 2) as u64 }),
        spec_strafe_update(StrafeState::Neutral, start_ms, applied, time_offset, time_ms, total, true, now_ms).0
            == StrafeState::StrafeLeft,
{
}

/// Releasing the jump button always ends in the neutral state, and a second
/// release sends nothing.
pub proof fn lemma_release_is_idempotent(
    state: StrafeState,
    start_ms: u64,
    applied: u32,
    time_offset: u32,
    time_ms: u32,
    total: u32,
    now_ms: u64,
    later_ms: u64,
)
    ensures
        ({
            let (s1, st1, a1, t1, _) = spec_strafe_update(state, start_ms, applied, time_offset, time_ms, total, false, now_ms);
            &&& s1 == StrafeState::Neutral
            &&& spec_strafe_update(s1, st1, a1, t1, time_ms, total, false, later_ms).4 == StrafeUpdate::Unchanged
        }),
{
}

/// Each turn-around flips the direction: two turns restore it.
pub proof fn lemma_switch_flips_direction(
    state: StrafeState,
    start_ms: u64,
    applied: u32,
    time_offset: u32,
    time_ms: u32,
    total: u32,
    now_ms: u64,
)
    requires
        state != StrafeState::Neutral,
        spec_strafe_update(state, start_ms, applied, time_offset, time_ms, total, true, now_ms).4 is Switched,
    ensures
        spec_strafe_update(state, start_ms, applied, time_offset, time_ms, total, true, now_ms).0 == state.spec_opposite(),
        spec_strafe_update(state, start_ms, applied, time_offset, time_ms, total, true, now_ms).2 == 0,
{
}

} // verus!
