//! Decisions of the bunny hop loop: when to jump and what to report.
use vstd::prelude::*;
use crate::strafe::{KeyStroke, SC_NUMPAD_MINUS};

verus! {

/// What the bunny hop loop last reported.
#[derive(Debug, Clone, Copy, PartialEq, Eq, Structural)]
pub enum LogState {
    MissingLocalController,
    MissingLocalPawn,
    LocalPawnDead,
    Armed,
    Active,
}

/// What one pass of the loop found in the game.
#[derive(Debug, Clone, Copy, PartialEq, Eq, Structural)]
pub enum BhopObservation {
    /// No local player controller.
    NoController,
    /// The local player's pawn is dead.
    PawnDead,
    /// The local player's pawn could not be found.
    NoPawn,
    /// The pawn was found: whether it is in the air, and whether the jump
    /// button is held.
    Ready { in_air: bool, should_jump: bool },
}

/// Messages of the bunny hop loop.
#[derive(Debug, Clone, Copy, PartialEq, Eq, Structural)]
pub enum BhopMessage {
    /// "Missing local player controller. Waiting..."
    MissingController,
    /// "Local pawn is dead. Waiting..."
    PawnDead,
    /// "Missing local player pawn. Waiting..."
    MissingPawn,
    /// "Sending jumps..."
    SendingJumps,
    /// "Jump initiated, await landing..."
    AwaitLanding,
    /// "Awaiting jump button to be pressed..."
    AwaitJumpButton,
}

impl BhopMessage {
    pub fn text(&self) -> (text: &'static str)
        ensures
            text@ == match *self {
                BhopMessage::MissingController => "Missing local player controller. Waiting..."@,
                BhopMessage::PawnDead => "Local pawn is dead. Waiting..."@,
                BhopMessage::MissingPawn => "Missing local player pawn. Waiting..."@,
                BhopMessage::SendingJumps => "Sending jumps..."@,
                BhopMessage::AwaitLanding => "Jump initiated, await landing..."@,
                BhopMessage::AwaitJumpButton => "Awaiting jump button to be pressed..."@,
            },
    {
        match self {
            BhopMessage::MissingController => "Missing local player controller. Waiting...",
            BhopMessage::PawnDead => "Local pawn is dead. Waiting...",
            BhopMessage::MissingPawn => "Missing local player pawn. Waiting...",
            BhopMessage::SendingJumps => "Sending jumps...",
            BhopMessage::AwaitLanding => "Jump initiated, await landing...",
            BhopMessage::AwaitJumpButton => "Awaiting jump button to be pressed...",
        }
    }
}

/// The outcome of one pass of the loop.
#[derive(Debug, Clone, Copy, PartialEq, Eq, Structural)]
pub struct BhopStep {
    pub log_state: LogState,
    /// Message to log, if any.
    pub message: Option<BhopMessage>,
    /// Whether to press and release the jump key.
    pub jump: bool,
    /// Whether to wait before the next pass (the player is not ready).
    pub wait: bool,
}

/// Whether a pawn with these movement flags is in the air: the on-ground
/// bit (bit 0) is clear.
pub open spec fn spec_in_air(flags: u32) -> bool {
    flags % 2 == 0
}

pub fn is_in_air(flags: u32) -> (in_air: bool)
    ensures
        in_air == spec_in_air(flags),
{
    let bit = flags & 0x01;
    assert(bit == flags % 2) by (bit_vector)
        requires
            bit == flags & 0x01,
    ;
    bit == 0
}

/// One pass of the loop: a missing controller or pawn, or a dead pawn, is
/// reported once and waited on; a pawn on the ground with the jump button
/// held jumps; otherwise the loop arms itself.
pub open spec fn spec_bhop_step(log_state: LogState, observation: BhopObservation) -> BhopStep {
    match observation {
        BhopObservation::NoController => BhopStep {
            log_state: LogState::MissingLocalController,
            message: if log_state != LogState::MissingLocalController { Some(BhopMessage::MissingController) } else { None },
            jump: false,
            wait: true,
        },
        BhopObservation::PawnDead => BhopStep {
            log_state: LogState::LocalPawnDead,
            message: if log_state != LogState::LocalPawnDead { Some(BhopMessage::PawnDead) } else { None },
            jump: false,
            wait: true,
        },
        BhopObservation::NoPawn => BhopStep {
            log_state: LogState::MissingLocalPawn,
            message: if log_state != LogState::MissingLocalPawn { Some(BhopMessage::MissingPawn) } else { None },
            jump: false,
            wait: true,
        },
        BhopObservation::Ready { in_air, should_jump } => if !in_air && should_jump {
            BhopStep {
                log_state: LogState::Active,
                message: if log_state != LogState::Active { Some(BhopMessage::SendingJumps) } else { None },
                jump: true,
                wait: false,
            }
        } else {
            BhopStep {
                log_state: LogState::Armed,
                message: match log_state {
                    LogState::Armed => None,
                    LogState::Active => Some(BhopMessage::AwaitLanding),
                    _ => Some(BhopMessage::AwaitJumpButton),
                },
                jump: false,
                wait: false,
            }
        },
    }
}

pub fn bhop_step(log_state: LogState, observation: BhopObservation) -> (step: BhopStep)
    ensures
        step == spec_bhop_step(log_state, observation),
{
    match observation {
        BhopObservation::NoController => BhopStep {
            log_state: LogState::MissingLocalController,
            message: if log_state != LogState::MissingLocalController { Some(BhopMessage::MissingController) } else { None },
            jump: false,
            wait: true,
        },
        BhopObservation::PawnDead => BhopStep {
            log_state: LogState::LocalPawnDead,
            message: if log_state != LogState::LocalPawnDead { Some(BhopMessage::PawnDead) } else { None },
            jump: false,
            wait: true,
        },
        BhopObservation::NoPawn => BhopStep {
            log_state: LogState::MissingLocalPawn,
            message: if log_state != LogState::MissingLocalPawn { Some(BhopMessage::MissingPawn) } else { None },
            jump: false,
            wait: true,
        },
        BhopObservation::Ready { in_air, should_jump } => if !in_air && should_jump {
            BhopStep {
                log_state: LogState::Active,
                message: if log_state != LogState::Active { Some(BhopMessage::SendingJumps) } else { None },
                jump: true,
                wait: false,
            }
        } else {
            BhopStep {
                log_state: LogState::Armed,
                message: match log_state {
                    LogState::Armed => None,
                    LogState::Active => Some(BhopMessage::AwaitLanding),
                    _ => Some(BhopMessage::AwaitJumpButton),
                },
                jump: false,
                wait: false,
            }
        },
    }
}

/// The strokes of one jump: the jump key pressed, then released.
pub fn jump_strokes() -> (strokes: Vec<KeyStroke>)
    ensures
        strokes@ == seq![
            KeyStroke { scan_code: SC_NUMPAD_MINUS, down: true },
            KeyStroke { scan_code: SC_NUMPAD_MINUS, down: false },
        ],
{
    let strokes = vec![
        KeyStroke { scan_code: SC_NUMPAD_MINUS, down: true },
        KeyStroke { scan_code: SC_NUMPAD_MINUS, down: false },
    ];
    assert(strokes@ =~= seq![
        KeyStroke { scan_code: SC_NUMPAD_MINUS, down: true },
        KeyStroke { scan_code: SC_NUMPAD_MINUS, down: false },
    ]);
    strokes
}

/// Last seen state of a watched key, for logging its changes.
pub struct KeyState {
    pub name: String,
    pub vk: i32,
    pub last_state: u16,
}

impl KeyState {
    pub fn new(vk: i32, name: String) -> (state: Self)
        ensures
            state.name == name,
            state.vk == vk,
            state.last_state == 0,
    {
        KeyState { name, vk, last_state: 0 }
    }

    /// Records the key's new raw state; returns the old and new state when
    /// it changed.
    pub fn update(&mut self, new_state: u16) -> (change: Option<(u16, u16)>)
        ensures
            final(self).last_state == new_state,
            final(self).name == old(self).name,
            final(self).vk == old(self).vk,
            change == if new_state == old(self).last_state {
                None::<(u16, u16)>
            } else {
                Some((old(self).last_state, new_state))
            },
    {
        if new_state == self.last_state {
            return None;
        }
        let previous = self.last_state;
        self.last_state = new_state;
        Some((previous, new_state))
    }
}

/// A report is logged once per change: repeating the same observation logs
/// nothing the second time.
pub proof fn lemma_repeat_is_silent(log_state: LogState, observation: BhopObservation)
    ensures
        spec_bhop_step(spec_bhop_step(log_state, observation).log_state, observation).message is None,
{
}

/// Jumps are only sent for a pawn that stands on the ground while the jump
/// button is held.
pub proof fn lemma_jump_only_from_ground(log_state: LogState, observation: BhopObservation)
    ensures
        spec_bhop_step(log_state, observation).jump <==> (observation matches BhopObservation::Ready { in_air, should_jump }
            && !in_air && should_jump),
{
}

} // verus!
