//! Web radar: the state of the connection to the radar service, the pace of
//! its updates, and the player names it reads from the game.
use vstd::prelude::*;
use crate::text::{utf8_text, c_string, CStringError, spec_is_first_nul};

verus! {

/// State of the connection to the web radar service.
#[derive(Debug, Clone, PartialEq, Eq)]
pub enum WebRadarState {
    Connecting,
    Connected { session_id: String },
    Disconnected { message: String },
}

/// What happened to the connection.
#[derive(Debug, Clone, PartialEq, Eq)]
pub enum WebRadarEvent {
    /// The session was created under this id.
    SessionCreated { session_id: String },
    /// The session could not be created; `error` describes why.
    SessionFailed { error: String },
    /// The service closed the connection.
    ConnectionClosed,
    /// The connection ended with an error, described by `error`.
    ConnectionError { error: String },
    /// The connection was closed on this side.
    ClosedLocally,
}

/// The state after an event: the session id once connected, else a
/// message that says why the radar is disconnected.
pub open spec fn spec_radar_state_after(event: WebRadarEvent) -> (Option<Seq<char>>, Seq<char>) {
    match event {
        WebRadarEvent::SessionCreated { session_id } => (Some(session_id@), Seq::empty()),
        WebRadarEvent::SessionFailed { error } => (None, error@),
        WebRadarEvent::ConnectionClosed => (None, "connection closed"@),
        WebRadarEvent::ConnectionError { error } => (None, "connection error: "@ + error@),
        WebRadarEvent::ClosedLocally => (None, "locally closed"@),
    }
}

impl WebRadarState {
    /// The state a connection takes after `event`.
    pub fn after(event: WebRadarEvent) -> (state: WebRadarState)
        ensures
            match spec_radar_state_after(event) {
                (Some(id), _) => state matches WebRadarState::Connected { session_id } && session_id@ == id,
                (None, message) => state matches WebRadarState::Disconnected { message: m } && m@ == message,
            },
    {
        match event {
            WebRadarEvent::SessionCreated { session_id } => WebRadarState::Connected { session_id },
            WebRadarEvent::SessionFailed { error } => WebRadarState::Disconnected { message: error },
            WebRadarEvent::ConnectionClosed => WebRadarState::Disconnected { message: "connection closed".to_owned() },
            WebRadarEvent::ConnectionError { error } => {
                let mut message = "connection error: ".to_owned();
                message.append(error.as_str());
                WebRadarState::Disconnected { message }
            },
            WebRadarEvent::ClosedLocally => WebRadarState::Disconnected { message: "locally closed".to_owned() },
        }
    }

    pub fn is_connected(&self) -> (connected: bool)
        ensures
            connected == (*self is Connected),
    {
        match self {
            WebRadarState::Connected { .. } => true,
            _ => false,
        }
    }
}

/// Least time between two radar updates, in milliseconds.
pub const UPDATE_DELAY: u128 = 16;

/// Whether the radar sends an update after `elapsed_ms` milliseconds since
/// the last one.
pub fn update_due(elapsed_ms: u128) -> (due: bool)
    ensures
        due == (elapsed_ms >= UPDATE_DELAY),
{
    elapsed_ms >= UPDATE_DELAY
}

/// Item definition index of the default knife.
pub const WEAPON_KNIFE: u16 = 42;

/// The weapon index and defuse kit the radar reports for a player: a
/// living player shows the kit it carries and the weapon in its hands (the
/// knife when no weapon could be read); a dead player shows weapon 0 and no
/// kit.
pub fn radar_equipment(alive: bool, has_defuser: bool, weapon: Option<u16>) -> (equipment: (u16, bool))
    ensures
        equipment == if alive {
            (match weapon {
                Some(w) => w,
                None => WEAPON_KNIFE,
            }, has_defuser)
        } else {
            (0u16, false)
        },
{
    if !alive {
        return (0, false);
    }
    let weapon_type = match weapon {
        Some(w) => w,
        None => WEAPON_KNIFE,
    };
    (weapon_type, has_defuser)
}

/// Why a player name could not be read.
#[derive(Debug, Clone, Copy, PartialEq, Eq, Structural)]
pub enum PlayerNameError {
    /// "player name missing nul terminator"
    MissingNulTerminator,
    /// "invalid player name": the bytes before the terminator are not UTF-8.
    InvalidName,
}

impl PlayerNameError {
    pub fn message(&self) -> (text: &'static str)
        ensures
            text@ == match *self {
                PlayerNameError::MissingNulTerminator => "player name missing nul terminator"@,
                PlayerNameError::InvalidName => "invalid player name"@,
            },
    {
        match self {
            PlayerNameError::MissingNulTerminator => "player name missing nul terminator",
            PlayerNameError::InvalidName => "invalid player name",
        }
    }
}

/// Reads a player name stored as a zero-terminated UTF-8 string: the text
/// before the first zero byte.
pub fn player_name_from_bytes(bytes: &[u8]) -> (name: Result<String, PlayerNameError>)
    ensures
        (forall|j: int| 0 <= j < bytes@.len() ==> bytes@[j] != 0) <==> name == Err::<String, PlayerNameError>(
            PlayerNameError::MissingNulTerminator,
        ),
        forall|i: int| #[trigger] spec_is_first_nul(bytes@, i) ==> {
            match utf8_text(bytes@.subrange(0, i)) {
                Some(text) => name matches Ok(n) && n@ == text,
                None => name == Err::<String, PlayerNameError>(PlayerNameError::InvalidName),
            }
        },
{
    match c_string(bytes) {
        Ok(name) => Ok(name),
        Err(CStringError::MissingNul) => Err(PlayerNameError::MissingNulTerminator),
        Err(CStringError::InvalidUtf8) => Err(PlayerNameError::InvalidName),
    }
}

} // verus!
