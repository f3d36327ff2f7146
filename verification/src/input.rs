//! Conversion of the Windows asynchronous key states into overlay input
//! events.
use vstd::prelude::*;
use crate::keys::{Key, spec_to_imgui_key, to_imgui_key};

verus! {

/// Number of Windows virtual key codes that are polled every frame.
pub const VK_KEY_MAX: usize = 256;

/// A mouse button as the overlay reports it.
#[derive(Debug, Clone, Copy, PartialEq, Eq, Structural)]
pub enum MouseButton {
    Left,
    Right,
    Middle,
    Extra1,
    Extra2,
}

/// What a changed virtual key is reported as.
#[derive(Debug, Clone, Copy, PartialEq, Eq, Structural)]
pub enum InputAction {
    Mouse(MouseButton),
    Key(Key),
    /// The overlay has no key for this virtual key.
    Unmapped,
}

/// One change of a virtual key between two frames.
#[derive(Debug, Clone, Copy, PartialEq, Eq, Structural)]
pub struct InputEvent {
    pub vkey: u16,
    pub pressed: bool,
    /// The modifier flag that changes with this key, if any.
    pub modifier: Option<Key>,
    pub action: InputAction,
}

pub open spec fn spec_mouse_button(vkey: u16) -> Option<MouseButton> {
    match vkey {
        0x01 => Some(MouseButton::Left),
        0x02 => Some(MouseButton::Right),
        0x04 => Some(MouseButton::Middle),
        0x05 => Some(MouseButton::Extra1),
        0x06 => Some(MouseButton::Extra2),
        _ => None,
    }
}

pub open spec fn spec_key_modifier(vkey: u16) -> Option<Key> {
    match vkey {
        0xA0 | 0xA1 => Some(Key::ModShift),
        0xA2 | 0x11 => Some(Key::ModCtrl),
        0x12 | 0xA4 | 0xA5 => Some(Key::ModAlt),
        0x5B | 0x5C => Some(Key::ModSuper),
        _ => None,
    }
}

/// A key counts as held when the most significant bit of its asynchronous
/// state is set.
pub open spec fn spec_is_pressed(state: u16) -> bool {
    state & 0x8000 != 0
}

pub open spec fn spec_input_action(vkey: u16) -> InputAction {
    match spec_mouse_button(vkey) {
        Some(button) => InputAction::Mouse(button),
        None => match spec_to_imgui_key(vkey) {
            Some(key) => InputAction::Key(key),
            None => InputAction::Unmapped,
        },
    }
}

pub open spec fn spec_input_event(vkey: u16, pressed: bool) -> InputEvent {
    InputEvent { vkey, pressed, modifier: spec_key_modifier(vkey), action: spec_input_action(vkey) }
}

/// Events for the first `n` virtual keys, in key order: one for each key
/// whose held state differs from the previous frame.
pub open spec fn spec_input_events(previous: Seq<bool>, states: Seq<u16>, n: int) -> Seq<InputEvent>
    decreases n,
{
    if n <= 0 {
        Seq::empty()
    } else {
        let rest = spec_input_events(previous, states, n - 1);
        let pressed = spec_is_pressed(states[n - 1]);
        if previous[n - 1] == pressed {
            rest
        } else {
            rest.push(spec_input_event((n - 1) as u16, pressed))
        }
    }
}

/// Mouse button behind a virtual key code, if it names one.
pub fn mouse_button(vkey: u16) -> (button: Option<MouseButton>)
    ensures
        button == spec_mouse_button(vkey),
{
    match vkey {
        0x01 => Some(MouseButton::Left),
        0x02 => Some(MouseButton::Right),
        0x04 => Some(MouseButton::Middle),
        0x05 => Some(MouseButton::Extra1),
        0x06 => Some(MouseButton::Extra2),
        _ => None,
    }
}

/// Modifier flag that a virtual key code changes, if any.
pub fn key_modifier(vkey: u16) -> (modifier: Option<Key>)
    ensures
        modifier == spec_key_modifier(vkey),
{
    match vkey {
        0xA0 | 0xA1 => Some(Key::ModShift),
        0xA2 | 0x11 => Some(Key::ModCtrl),
        0x12 | 0xA4 | 0xA5 => Some(Key::ModAlt),
        0x5B | 0x5C => Some(Key::ModSuper),
        _ => None,
    }
}

/// Held state of every polled virtual key.
pub struct InputSystem {
    key_states: Vec<bool>,
}

impl InputSystem {
    #[verifier::type_invariant]
    spec fn wf(self) -> bool {
        self.key_states@.len() == VK_KEY_MAX
    }

    /// Held state of each virtual key, as of the last update.
    pub closed spec fn view_states(self) -> Seq<bool> {
        self.key_states@
    }

    pub fn new() -> (system: Self)
        ensures
            system.view_states() == Seq::new(VK_KEY_MAX as nat, |i: int| false),
    {
        let mut key_states: Vec<bool> = Vec::new();
        let mut i: usize = 0;
        while i < VK_KEY_MAX
            invariant
                i <= VK_KEY_MAX,
                key_states@ == Seq::new(i as nat, |j: int| false),
            decreases VK_KEY_MAX - i,
        {
            key_states.push(false);
            i = i + 1;
        }
        InputSystem { key_states }
    }

    /// Takes the asynchronous state of every virtual key (indexed by key
    /// code) and returns the changes since the last update, in key order.
    pub fn update(&mut self, states: &Vec<u16>) -> (events: Vec<InputEvent>)
        requires
            states@.len() == VK_KEY_MAX,
        ensures
            final(self).view_states() == Seq::new(VK_KEY_MAX as nat, |i: int| spec_is_pressed(states@[i])),
            events@ == spec_input_events(old(self).view_states(), states@, VK_KEY_MAX as int),
    {
        proof { use_type_invariant(&*self); }
        let ghost previous = self.key_states@;
        let mut events: Vec<InputEvent> = Vec::new();
        let mut next_states: Vec<bool> = Vec::new();
        let mut vkey: usize = 0;
        while vkey < VK_KEY_MAX
            invariant
                vkey <= VK_KEY_MAX,
                states@.len() == VK_KEY_MAX,
                previous.len() == VK_KEY_MAX,
                self.key_states@ == previous,
                next_states@ == Seq::new(vkey as nat, |i: int| spec_is_pressed(states@[i])),
                events@ == spec_input_events(previous, states@, vkey as int),
            decreases VK_KEY_MAX - vkey,
        {
            let state = states[vkey];
            let pressed = state & 0x8000 != 0;
            let code = vkey as u16;
            if self.key_states[vkey] != pressed {
                let modifier = key_modifier(code);
                let action = match mouse_button(code) {
                    Some(button) => InputAction::Mouse(button),
                    None => match to_imgui_key(code) {
                        Some(key) => InputAction::Key(key),
                        None => InputAction::Unmapped,
                    },
                };
                events.push(InputEvent { vkey: code, pressed, modifier, action });
            }
            next_states.push(pressed);
            vkey = vkey + 1;
        }
        self.key_states = next_states;
        events
    }
}

/// Polling the same key states twice reports nothing the second time: the
/// held states after an update already match those states.
pub proof fn lemma_same_states_no_events(states: Seq<u16>, n: int)
    requires
        0 <= n <= states.len(),
    ensures
        spec_input_events(Seq::new(states.len(), |i: int| spec_is_pressed(states[i])), states, n).len() == 0,
    decreases n,
{
    if n > 0 {
        lemma_same_states_no_events(states, n - 1);
    }
}

/// Each reported event names a key whose held state changed, with its new
/// state.
pub proof fn lemma_events_are_changes(previous: Seq<bool>, states: Seq<u16>, n: int)
    requires
        0 <= n <= states.len(),
        n <= previous.len(),
        n <= 0x1_0000,
    ensures
        forall|j: int| 0 <= j < spec_input_events(previous, states, n).len() ==> {
            let e = #[trigger] spec_input_events(previous, states, n)[j];
            &&& 0 <= e.vkey < n
            &&& e.pressed == spec_is_pressed(states[e.vkey as int])
            &&& previous[e.vkey as int] != e.pressed
        },
    decreases n,
{
    if n > 0 {
        lemma_events_are_changes(previous, states, n - 1);
    }
}

} // verus!
