//! Hot keys of the settings file.
use vstd::prelude::*;
use crate::keys::{Key, NAMED_KEY_COUNT, key_variant, spec_key_index, spec_key_name, spec_key_variant};
use crate::key_toggle::KeyboardInput;

verus! {

/// Relates the position of a nameable key to the key at that position.
pub proof fn lemma_key_index_variant(key: Key)
    ensures
        spec_key_index(key) matches Some(i) ==> 0 <= i < NAMED_KEY_COUNT
            && spec_key_variant(i) == Some(key),
{
}

/// Every position below the count names a key, and that key sits at that
/// position.
pub proof fn lemma_key_variant_index(index: int)
    requires
        0 <= index < NAMED_KEY_COUNT,
    ensures
        spec_key_variant(index) matches Some(k) && spec_key_index(k) == Some(index),
{
}

/// A key bound to an action in the settings.
#[derive(Debug, Clone, Copy, PartialEq, Eq, Structural)]
pub struct HotKey(pub Key);

impl HotKey {
    /// Name under which the hot key is written to the settings file.
    pub fn name(&self) -> (name: &'static str)
        ensures
            name@ == spec_key_name(self.0),
    {
        self.0.name()
    }

    /// Reads a hot key from its name in the settings file. Only the keys
    /// that a hot key may name are recognised; the first key (in key order)
    /// whose name equals `name` is returned.
    pub fn from_name(name: &str) -> (key: Option<HotKey>)
        ensures
            match key {
                Some(h) => spec_key_index(h.0) matches Some(i) && spec_key_name(h.0) == name@
                    && forall|j: int| 0 <= j < i ==> #[trigger] spec_key_name(spec_key_variant(j)->0) != name@,
                None => forall|k: Key| spec_key_index(k) is Some ==> #[trigger] spec_key_name(k) != name@,
            },
    {
        let wanted = name.to_owned();
        let mut index: usize = 0;
        while index < NAMED_KEY_COUNT
            invariant
                index <= NAMED_KEY_COUNT,
                wanted@ == name@,
                forall|j: int| 0 <= j < index ==> #[trigger] spec_key_name(spec_key_variant(j)->0) != name@,
            decreases NAMED_KEY_COUNT - index,
        {
            proof { lemma_key_variant_index(index as int); }
            let key = key_variant(index).unwrap();
            let candidate = key.name().to_owned();
            if candidate == wanted {
                proof { lemma_key_variant_index(index as int); }
                return Some(HotKey(key));
            }
            index = index + 1;
        }
        proof {
            assert forall|k: Key| spec_key_index(k) is Some implies #[trigger] spec_key_name(k) != name@ by {
                lemma_key_index_variant(k);
                let i = spec_key_index(k)->0;
                assert(spec_key_name(spec_key_variant(i)->0) != name@);
            }
        }
        None
    }
}

/// What the key capture popup saw during one frame.
#[derive(Debug, Clone, Copy, PartialEq, Eq, Structural)]
pub enum KeyCapture {
    /// Escape was pressed: the popup closes and the binding stays.
    Cancelled,
    /// A key was pressed: it becomes the binding and the popup closes.
    Captured(HotKey),
    /// Nothing was pressed.
    Waiting,
}

/// The last key, among the first `n` nameable keys, that was pressed
/// during the frame.
pub open spec fn spec_last_pressed<I: KeyboardInput + ?Sized>(input: &I, n: int) -> Option<Key>
    decreases n,
{
    if n <= 0 {
        None
    } else {
        let key = spec_key_variant(n - 1)->0;
        if input.spec_is_key_pressed(key, true) {
            Some(key)
        } else {
            spec_last_pressed(input, n - 1)
        }
    }
}

/// The outcome of one frame of the key capture popup: Escape cancels;
/// otherwise the last nameable key (in key order) that was pressed is
/// captured.
pub open spec fn spec_capture_hotkey<I: KeyboardInput + ?Sized>(input: &I) -> KeyCapture {
    if input.spec_is_key_pressed(Key::Escape, true) {
        KeyCapture::Cancelled
    } else {
        match spec_last_pressed(input, NAMED_KEY_COUNT as int) {
            Some(key) => KeyCapture::Captured(HotKey(key)),
            None => KeyCapture::Waiting,
        }
    }
}

/// One frame of the popup that waits for a key to bind.
pub fn capture_hotkey<I: KeyboardInput + ?Sized>(input: &I) -> (capture: KeyCapture)
    ensures
        capture == spec_capture_hotkey(input),
{
    if input.is_key_pressed(Key::Escape, true) {
        return KeyCapture::Cancelled;
    }
    let mut captured: Option<Key> = None;
    let mut index: usize = 0;
    while index < NAMED_KEY_COUNT
        invariant
            index <= NAMED_KEY_COUNT,
            captured == spec_last_pressed(input, index as int),
        decreases NAMED_KEY_COUNT - index,
    {
        proof { lemma_key_variant_index(index as int); }
        let key = key_variant(index).unwrap();
        if input.is_key_pressed(key, true) {
            captured = Some(key);
        }
        index = index + 1;
    }
    match captured {
        Some(key) => KeyCapture::Captured(HotKey(key)),
        None => KeyCapture::Waiting,
    }
}

/// Text of the button that shows a binding: the key's name, or "None".
pub fn binding_label(key: &Option<HotKey>) -> (label: &'static str)
    ensures
        label@ == match *key {
            Some(h) => spec_key_name(h.0),
            None => "None"@,
        },
{
    match key {
        Some(h) => h.name(),
        None => "None",
    }
}

/// Whether a widget label is shown as text beside the button: labels that
/// start with "##" only identify the widget.
pub fn shows_label(label: &str) -> (shown: bool)
    ensures
        shown == !(label@.len() >= 2 && label@[0] == '#' && label@[1] == '#'),
{
    let text = label.to_owned();
    let chars = text.as_str();
    if chars.unicode_len() >= 2 && chars.get_char(0) == '#' && chars.get_char(1) == '#' {
        false
    } else {
        true
    }
}

} // verus!
