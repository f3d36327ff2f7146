//! Keyboard keys, hot keys and the mapping of Windows virtual key
//! states into overlay input events.
use vstd::prelude::*;

verus! {

/// A key or mouse button as the overlay's immediate mode GUI names it.
#[derive(Debug, Clone, Copy, PartialEq, Eq, Hash, Structural)]
pub enum Key {
    Tab,
    LeftArrow,
    RightArrow,
    UpArrow,
    DownArrow,
    PageUp,
    PageDown,
    Home,
    End,
    Insert,
    Delete,
    Backspace,
    Space,
    Enter,
    Escape,
    LeftCtrl,
    LeftShift,
    LeftAlt,
    LeftSuper,
    RightCtrl,
    RightShift,
    RightAlt,
    RightSuper,
    Menu,
    Alpha0,
    Alpha1,
    Alpha2,
    Alpha3,
    Alpha4,
    Alpha5,
    Alpha6,
    Alpha7,
    Alpha8,
    Alpha9,
    A,
    B,
    C,
    D,
    E,
    F,
    G,
    H,
    I,
    J,
    K,
    L,
    M,
    N,
    O,
    P,
    Q,
    R,
    S,
    T,
    U,
    V,
    W,
    X,
    Y,
    Z,
    F1,
    F2,
    F3,
    F4,
    F5,
    F6,
    F7,
    F8,
    F9,
    F10,
    F11,
    F12,
    Apostrophe,
    Comma,
    Minus,
    Period,
    Slash,
    Semicolon,
    Equal,
    LeftBracket,
    Backslash,
    RightBracket,
    GraveAccent,
    CapsLock,
    ScrollLock,
    NumLock,
    PrintScreen,
    Pause,
    Keypad0,
    Keypad1,
    Keypad2,
    Keypad3,
    Keypad4,
    Keypad5,
    Keypad6,
    Keypad7,
    Keypad8,
    Keypad9,
    KeypadDecimal,
    KeypadDivide,
    KeypadMultiply,
    KeypadSubtract,
    KeypadAdd,
    KeypadEnter,
    KeypadEqual,
    GamepadStart,
    GamepadBack,
    GamepadFaceLeft,
    GamepadFaceRight,
    GamepadFaceUp,
    GamepadFaceDown,
    GamepadDpadLeft,
    GamepadDpadRight,
    GamepadDpadUp,
    GamepadDpadDown,
    GamepadL1,
    GamepadR1,
    GamepadL2,
    GamepadR2,
    GamepadL3,
    GamepadR3,
    GamepadLStickLeft,
    GamepadLStickRight,
    GamepadLStickUp,
    GamepadLStickDown,
    GamepadRStickLeft,
    GamepadRStickRight,
    GamepadRStickUp,
    GamepadRStickDown,
    MouseLeft,
    MouseRight,
    MouseMiddle,
    MouseX1,
    MouseX2,
    MouseWheelX,
    MouseWheelY,
    ReservedForModCtrl,
    ReservedForModShift,
    ReservedForModAlt,
    ReservedForModSuper,
    ModCtrl,
    ModShift,
    ModAlt,
    ModSuper,
    ModShortcut,
}

/// Number of keys that a hot key may name (all keys but the modifier
/// flags).
pub const NAMED_KEY_COUNT: usize = 140;

/// The name under which a key is written in the settings file.
pub open spec fn spec_key_name(key: Key) -> Seq<char> {
    match key {
        Key::Tab => "Tab"@,
        Key::LeftArrow => "LeftArrow"@,
        Key::RightArrow => "RightArrow"@,
        Key::UpArrow => "UpArrow"@,
        Key::DownArrow => "DownArrow"@,
        Key::PageUp => "PageUp"@,
        Key::PageDown => "PageDown"@,
        Key::Home => "Home"@,
        Key::End => "End"@,
        Key::Insert => "Insert"@,
        Key::Delete => "Delete"@,
        Key::Backspace => "Backspace"@,
        Key::Space => "Space"@,
        Key::Enter => "Enter"@,
        Key::Escape => "Escape"@,
        Key::LeftCtrl => "LeftCtrl"@,
        Key::LeftShift => "LeftShift"@,
        Key::LeftAlt => "LeftAlt"@,
        Key::LeftSuper => "LeftSuper"@,
        Key::RightCtrl => "RightCtrl"@,
        Key::RightShift => "RightShift"@,
        Key::RightAlt => "RightAlt"@,
        Key::RightSuper => "RightSuper"@,
        Key::Menu => "Menu"@,
        Key::Alpha0 => "Alpha0"@,
        Key::Alpha1 => "Alpha1"@,
        Key::Alpha2 => "Alpha2"@,
        Key::Alpha3 => "Alpha3"@,
        Key::Alpha4 => "Alpha4"@,
        Key::Alpha5 => "Alpha5"@,
        Key::Alpha6 => "Alpha6"@,
        Key::Alpha7 => "Alpha7"@,
        Key::Alpha8 => "Alpha8"@,
        Key::Alpha9 => "Alpha9"@,
        Key::A => "A"@,
        Key::B => "B"@,
        Key::C => "C"@,
        Key::D => "D"@,
        Key::E => "E"@,
        Key::F => "F"@,
        Key::G => "G"@,
        Key::H => "H"@,
        Key::I => "I"@,
        Key::J => "J"@,
        Key::K => "K"@,
        Key::L => "L"@,
        Key::M => "M"@,
        Key::N => "N"@,
        Key::O => "O"@,
        Key::P => "P"@,
        Key::Q => "Q"@,
        Key::R => "R"@,
        Key::S => "S"@,
        Key::T => "T"@,
        Key::U => "U"@,
        Key::V => "V"@,
        Key::W => "W"@,
        Key::X => "X"@,
        Key::Y => "Y"@,
        Key::Z => "Z"@,
        Key::F1 => "F1"@,
        Key::F2 => "F2"@,
        Key::F3 => "F3"@,
        Key::F4 => "F4"@,
        Key::F5 => "F5"@,
        Key::F6 => "F6"@,
        Key::F7 => "F7"@,
        Key::F8 => "F8"@,
        Key::F9 => "F9"@,
        Key::F10 => "F10"@,
        Key::F11 => "F11"@,
        Key::F12 => "F12"@,
        Key::Apostrophe => "Apostrophe"@,
        Key::Comma => "Comma"@,
        Key::Minus => "Minus"@,
        Key::Period => "Period"@,
        Key::Slash => "Slash"@,
        Key::Semicolon => "Semicolon"@,
        Key::Equal => "Equal"@,
        Key::LeftBracket => "LeftBracket"@,
        Key::Backslash => "Backslash"@,
        Key::RightBracket => "RightBracket"@,
        Key::GraveAccent => "GraveAccent"@,
        Key::CapsLock => "CapsLock"@,
        Key::ScrollLock => "ScrollLock"@,
        Key::NumLock => "NumLock"@,
        Key::PrintScreen => "PrintScreen"@,
        Key::Pause => "Pause"@,
        Key::Keypad0 => "Keypad0"@,
        Key::Keypad1 => "Keypad1"@,
        Key::Keypad2 => "Keypad2"@,
        Key::Keypad3 => "Keypad3"@,
        Key::Keypad4 => "Keypad4"@,
        Key::Keypad5 => "Keypad5"@,
        Key::Keypad6 => "Keypad6"@,
        Key::Keypad7 => "Keypad7"@,
        Key::Keypad8 => "Keypad8"@,
        Key::Keypad9 => "Keypad9"@,
        Key::KeypadDecimal => "KeypadDecimal"@,
        Key::KeypadDivide => "KeypadDivide"@,
        Key::KeypadMultiply => "KeypadMultiply"@,
        Key::KeypadSubtract => "KeypadSubtract"@,
        Key::KeypadAdd => "KeypadAdd"@,
        Key::KeypadEnter => "KeypadEnter"@,
        Key::KeypadEqual => "KeypadEqual"@,
        Key::GamepadStart => "GamepadStart"@,
        Key::GamepadBack => "GamepadBack"@,
        Key::GamepadFaceLeft => "GamepadFaceLeft"@,
        Key::GamepadFaceRight => "GamepadFaceRight"@,
        Key::GamepadFaceUp => "GamepadFaceUp"@,
        Key::GamepadFaceDown => "GamepadFaceDown"@,
        Key::GamepadDpadLeft => "GamepadDpadLeft"@,
        Key::GamepadDpadRight => "GamepadDpadRight"@,
        Key::GamepadDpadUp => "GamepadDpadUp"@,
        Key::GamepadDpadDown => "GamepadDpadDown"@,
        Key::GamepadL1 => "GamepadL1"@,
        Key::GamepadR1 => "GamepadR1"@,
        Key::GamepadL2 => "GamepadL2"@,
        Key::GamepadR2 => "GamepadR2"@,
        Key::GamepadL3 => "GamepadL3"@,
        Key::GamepadR3 => "GamepadR3"@,
        Key::GamepadLStickLeft => "GamepadLStickLeft"@,
        Key::GamepadLStickRight => "GamepadLStickRight"@,
        Key::GamepadLStickUp => "GamepadLStickUp"@,
        Key::GamepadLStickDown => "GamepadLStickDown"@,
        Key::GamepadRStickLeft => "GamepadRStickLeft"@,
        Key::GamepadRStickRight => "GamepadRStickRight"@,
        Key::GamepadRStickUp => "GamepadRStickUp"@,
        Key::GamepadRStickDown => "GamepadRStickDown"@,
        Key::MouseLeft => "MouseLeft"@,
        Key::MouseRight => "MouseRight"@,
        Key::MouseMiddle => "MouseMiddle"@,
        Key::MouseX1 => "MouseX1"@,
        Key::MouseX2 => "MouseX2"@,
        Key::MouseWheelX => "MouseWheelX"@,
        Key::MouseWheelY => "MouseWheelY"@,
        Key::ReservedForModCtrl => "ReservedForModCtrl"@,
        Key::ReservedForModShift => "ReservedForModShift"@,
        Key::ReservedForModAlt => "ReservedForModAlt"@,
        Key::ReservedForModSuper => "ReservedForModSuper"@,
        Key::ModCtrl => "ModCtrl"@,
        Key::ModShift => "ModShift"@,
        Key::ModAlt => "ModAlt"@,
        Key::ModSuper => "ModSuper"@,
        Key::ModShortcut => "ModShortcut"@,
    }
}

/// Position of a key among the keys that a hot key may name, or `None` for
/// the modifier flags.
pub open spec fn spec_key_index(key: Key) -> Option<int> {
    match key {
        Key::Tab => Some(0),
        Key::LeftArrow => Some(1),
        Key::RightArrow => Some(2),
        Key::UpArrow => Some(3),
        Key::DownArrow => Some(4),
        Key::PageUp => Some(5),
        Key::PageDown => Some(6),
        Key::Home => Some(7),
        Key::End => Some(8),
        Key::Insert => Some(9),
        Key::Delete => Some(10),
        Key::Backspace => Some(11),
        Key::Space => Some(12),
        Key::Enter => Some(13),
        Key::Escape => Some(14),
        Key::LeftCtrl => Some(15),
        Key::LeftShift => Some(16),
        Key::LeftAlt => Some(17),
        Key::LeftSuper => Some(18),
        Key::RightCtrl => Some(19),
        Key::RightShift => Some(20),
        Key::RightAlt => Some(21),
        Key::RightSuper => Some(22),
        Key::Menu => Some(23),
        Key::Alpha0 => Some(24),
        Key::Alpha1 => Some(25),
        Key::Alpha2 => Some(26),
        Key::Alpha3 => Some(27),
        Key::Alpha4 => Some(28),
        Key::Alpha5 => Some(29),
        Key::Alpha6 => Some(30),
        Key::Alpha7 => Some(31),
        Key::Alpha8 => Some(32),
        Key::Alpha9 => Some(33),
        Key::A => Some(34),
        Key::B => Some(35),
        Key::C => Some(36),
        Key::D => Some(37),
        Key::E => Some(38),
        Key::F => Some(39),
        Key::G => Some(40),
        Key::H => Some(41),
        Key::I => Some(42),
        Key::J => Some(43),
        Key::K => Some(44),
        Key::L => Some(45),
        Key::M => Some(46),
        Key::N => Some(47),
        Key::O => Some(48),
        Key::P => Some(49),
        Key::Q => Some(50),
        Key::R => Some(51),
        Key::S => Some(52),
        Key::T => Some(53),
        Key::U => Some(54),
        Key::V => Some(55),
        Key::W => Some(56),
        Key::X => Some(57),
        Key::Y => Some(58),
        Key::Z => Some(59),
        Key::F1 => Some(60),
        Key::F2 => Some(61),
        Key::F3 => Some(62),
        Key::F4 => Some(63),
        Key::F5 => Some(64),
        Key::F6 => Some(65),
        Key::F7 => Some(66),
        Key::F8 => Some(67),
        Key::F9 => Some(68),
        Key::F10 => Some(69),
        Key::F11 => Some(70),
        Key::F12 => Some(71),
        Key::Apostrophe => Some(72),
        Key::Comma => Some(73),
        Key::Minus => Some(74),
        Key::Period => Some(75),
        Key::Slash => Some(76),
        Key::Semicolon => Some(77),
        Key::Equal => Some(78),
        Key::LeftBracket => Some(79),
        Key::Backslash => Some(80),
        Key::RightBracket => Some(81),
        Key::GraveAccent => Some(82),
        Key::CapsLock => Some(83),
        Key::ScrollLock => Some(84),
        Key::NumLock => Some(85),
        Key::PrintScreen => Some(86),
        Key::Pause => Some(87),
        Key::Keypad0 => Some(88),
        Key::Keypad1 => Some(89),
        Key::Keypad2 => Some(90),
        Key::Keypad3 => Some(91),
        Key::Keypad4 => Some(92),
        Key::Keypad5 => Some(93),
        Key::Keypad6 => Some(94),
        Key::Keypad7 => Some(95),
        Key::Keypad8 => Some(96),
        Key::Keypad9 => Some(97),
        Key::KeypadDecimal => Some(98),
        Key::KeypadDivide => Some(99),
        Key::KeypadMultiply => Some(100),
        Key::KeypadSubtract => Some(101),
        Key::KeypadAdd => Some(102),
        Key::KeypadEnter => Some(103),
        Key::KeypadEqual => Some(104),
        Key::GamepadStart => Some(105),
        Key::GamepadBack => Some(106),
        Key::GamepadFaceLeft => Some(107),
        Key::GamepadFaceRight => Some(108),
        Key::GamepadFaceUp => Some(109),
        Key::GamepadFaceDown => Some(110),
        Key::GamepadDpadLeft => Some(111),
        Key::GamepadDpadRight => Some(112),
        Key::GamepadDpadUp => Some(113),
        Key::GamepadDpadDown => Some(114),
        Key::GamepadL1 => Some(115),
        Key::GamepadR1 => Some(116),
        Key::GamepadL2 => Some(117),
        Key::GamepadR2 => Some(118),
        Key::GamepadL3 => Some(119),
        Key::GamepadR3 => Some(120),
        Key::GamepadLStickLeft => Some(121),
        Key::GamepadLStickRight => Some(122),
        Key::GamepadLStickUp => Some(123),
        Key::GamepadLStickDown => Some(124),
        Key::GamepadRStickLeft => Some(125),
        Key::GamepadRStickRight => Some(126),
        Key::GamepadRStickUp => Some(127),
        Key::GamepadRStickDown => Some(128),
        Key::MouseLeft => Some(129),
        Key::MouseRight => Some(130),
        Key::MouseMiddle => Some(131),
        Key::MouseX1 => Some(132),
        Key::MouseX2 => Some(133),
        Key::MouseWheelX => Some(134),
        Key::MouseWheelY => Some(135),
        Key::ReservedForModCtrl => Some(136),
        Key::ReservedForModShift => Some(137),
        Key::ReservedForModAlt => Some(138),
        Key::ReservedForModSuper => Some(139),
        _ => None,
    }
}

/// The key that a hot key index names.
pub open spec fn spec_key_variant(index: int) -> Option<Key> {
    if index == 0 {
        Some(Key::Tab)
    } else if index == 1 {
        Some(Key::LeftArrow)
    } else if index == 2 {
        Some(Key::RightArrow)
    } else if index == 3 {
        Some(Key::UpArrow)
    } else if index == 4 {
        Some(Key::DownArrow)
    } else if index == 5 {
        Some(Key::PageUp)
    } else if index == 6 {
        Some(Key::PageDown)
    } else if index == 7 {
        Some(Key::Home)
    } else if index == 8 {
        Some(Key::End)
    } else if index == 9 {
        Some(Key::Insert)
    } else if index == 10 {
        Some(Key::Delete)
    } else if index == 11 {
        Some(Key::Backspace)
    } else if index == 12 {
        Some(Key::Space)
    } else if index == 13 {
        Some(Key::Enter)
    } else if index == 14 {
        Some(Key::Escape)
    } else if index == 15 {
        Some(Key::LeftCtrl)
    } else if index == 16 {
        Some(Key::LeftShift)
    } else if index == 17 {
        Some(Key::LeftAlt)
    } else if index == 18 {
        Some(Key::LeftSuper)
    } else if index == 19 {
        Some(Key::RightCtrl)
    } else if index == 20 {
        Some(Key::RightShift)
    } else if index == 21 {
        Some(Key::RightAlt)
    } else if index == 22 {
        Some(Key::RightSuper)
    } else if index == 23 {
        Some(Key::Menu)
    } else if index == 24 {
        Some(Key::Alpha0)
    } else if index == 25 {
        Some(Key::Alpha1)
    } else if index == 26 {
        Some(Key::Alpha2)
    } else if index == 27 {
        Some(Key::Alpha3)
    } else if index == 28 {
        Some(Key::Alpha4)
    } else if index == 29 {
        Some(Key::Alpha5)
    } else if index == 30 {
        Some(Key::Alpha6)
    } else if index == 31 {
        Some(Key::Alpha7)
    } else if index == 32 {
        Some(Key::Alpha8)
    } else if index == 33 {
        Some(Key::Alpha9)
    } else if index == 34 {
        Some(Key::A)
    } else if index == 35 {
        Some(Key::B)
    } else if index == 36 {
        Some(Key::C)
    } else if index == 37 {
        Some(Key::D)
    } else if index == 38 {
        Some(Key::E)
    } else if index == 39 {
        Some(Key::F)
    } else if index == 40 {
        Some(Key::G)
    } else if index == 41 {
        Some(Key::H)
    } else if index == 42 {
        Some(Key::I)
    } else if index == 43 {
        Some(Key::J)
    } else if index == 44 {
        Some(Key::K)
    } else if index == 45 {
        Some(Key::L)
    } else if index == 46 {
        Some(Key::M)
    } else if index == 47 {
        Some(Key::N)
    } else if index == 48 {
        Some(Key::O)
    } else if index == 49 {
        Some(Key::P)
    } else if index == 50 {
        Some(Key::Q)
    } else if index == 51 {
        Some(Key::R)
    } else if index == 52 {
        Some(Key::S)
    } else if index == 53 {
        Some(Key::T)
    } else if index == 54 {
        Some(Key::U)
    } else if index == 55 {
        Some(Key::V)
    } else if index == 56 {
        Some(Key::W)
    } else if index == 57 {
        Some(Key::X)
    } else if index == 58 {
        Some(Key::Y)
    } else if index == 59 {
        Some(Key::Z)
    } else if index == 60 {
        Some(Key::F1)
    } else if index == 61 {
        Some(Key::F2)
    } else if index == 62 {
        Some(Key::F3)
    } else if index == 63 {
        Some(Key::F4)
    } else if index == 64 {
        Some(Key::F5)
    } else if index == 65 {
        Some(Key::F6)
    } else if index == 66 {
        Some(Key::F7)
    } else if index == 67 {
        Some(Key::F8)
    } else if index == 68 {
        Some(Key::F9)
    } else if index == 69 {
        Some(Key::F10)
    } else if index == 70 {
        Some(Key::F11)
    } else if index == 71 {
        Some(Key::F12)
    } else if index == 72 {
        Some(Key::Apostrophe)
    } else if index == 73 {
        Some(Key::Comma)
    } else if index == 74 {
        Some(Key::Minus)
    } else if index == 75 {
        Some(Key::Period)
    } else if index == 76 {
        Some(Key::Slash)
    } else if index == 77 {
        Some(Key::Semicolon)
    } else if index == 78 {
        Some(Key::Equal)
    } else if index == 79 {
        Some(Key::LeftBracket)
    } else if index == 80 {
        Some(Key::Backslash)
    } else if index == 81 {
        Some(Key::RightBracket)
    } else if index == 82 {
        Some(Key::GraveAccent)
    } else if index == 83 {
        Some(Key::CapsLock)
    } else if index == 84 {
        Some(Key::ScrollLock)
    } else if index == 85 {
        Some(Key::NumLock)
    } else if index == 86 {
        Some(Key::PrintScreen)
    } else if index == 87 {
        Some(Key::Pause)
    } else if index == 88 {
        Some(Key::Keypad0)
    } else if index == 89 {
        Some(Key::Keypad1)
    } else if index == 90 {
        Some(Key::Keypad2)
    } else if index == 91 {
        Some(Key::Keypad3)
    } else if index == 92 {
        Some(Key::Keypad4)
    } else if index == 93 {
        Some(Key::Keypad5)
    } else if index == 94 {
        Some(Key::Keypad6)
    } else if index == 95 {
        Some(Key::Keypad7)
    } else if index == 96 {
        Some(Key::Keypad8)
    } else if index == 97 {
        Some(Key::Keypad9)
    } else if index == 98 {
        Some(Key::KeypadDecimal)
    } else if index == 99 {
        Some(Key::KeypadDivide)
    } else if index == 100 {
        Some(Key::KeypadMultiply)
    } else if index == 101 {
        Some(Key::KeypadSubtract)
    } else if index == 102 {
        Some(Key::KeypadAdd)
    } else if index == 103 {
        Some(Key::KeypadEnter)
    } else if index == 104 {
        Some(Key::KeypadEqual)
    } else if index == 105 {
        Some(Key::GamepadStart)
    } else if index == 106 {
        Some(Key::GamepadBack)
    } else if index == 107 {
        Some(Key::GamepadFaceLeft)
    } else if index == 108 {
        Some(Key::GamepadFaceRight)
    } else if index == 109 {
        Some(Key::GamepadFaceUp)
    } else if index == 110 {
        Some(Key::GamepadFaceDown)
    } else if index == 111 {
        Some(Key::GamepadDpadLeft)
    } else if index == 112 {
        Some(Key::GamepadDpadRight)
    } else if index == 113 {
        Some(Key::GamepadDpadUp)
    } else if index == 114 {
        Some(Key::GamepadDpadDown)
    } else if index == 115 {
        Some(Key::GamepadL1)
    } else if index == 116 {
        Some(Key::GamepadR1)
    } else if index == 117 {
        Some(Key::GamepadL2)
    } else if index == 118 {
        Some(Key::GamepadR2)
    } else if index == 119 {
        Some(Key::GamepadL3)
    } else if index == 120 {
        Some(Key::GamepadR3)
    } else if index == 121 {
        Some(Key::GamepadLStickLeft)
    } else if index == 122 {
        Some(Key::GamepadLStickRight)
    } else if index == 123 {
        Some(Key::GamepadLStickUp)
    } else if index == 124 {
        Some(Key::GamepadLStickDown)
    } else if index == 125 {
        Some(Key::GamepadRStickLeft)
    } else if index == 126 {
        Some(Key::GamepadRStickRight)
    } else if index == 127 {
        Some(Key::GamepadRStickUp)
    } else if index == 128 {
        Some(Key::GamepadRStickDown)
    } else if index == 129 {
        Some(Key::MouseLeft)
    } else if index == 130 {
        Some(Key::MouseRight)
    } else if index == 131 {
        Some(Key::MouseMiddle)
    } else if index == 132 {
        Some(Key::MouseX1)
    } else if index == 133 {
        Some(Key::MouseX2)
    } else if index == 134 {
        Some(Key::MouseWheelX)
    } else if index == 135 {
        Some(Key::MouseWheelY)
    } else if index == 136 {
        Some(Key::ReservedForModCtrl)
    } else if index == 137 {
        Some(Key::ReservedForModShift)
    } else if index == 138 {
        Some(Key::ReservedForModAlt)
    } else if index == 139 {
        Some(Key::ReservedForModSuper)
    } else {
        None
    }
}

/// Windows virtual key code to overlay key, for the keys that the overlay
/// forwards.
pub open spec fn spec_to_imgui_key(keycode: u16) -> Option<Key> {
    match keycode {
        0x09 => Some(Key::Tab),
        0x25 => Some(Key::LeftArrow),
        0x27 => Some(Key::RightArrow),
        0x10 => Some(Key::LeftShift),
        0x12 => Some(Key::LeftAlt),
        0x26 => Some(Key::UpArrow),
        0x28 => Some(Key::DownArrow),
        0x21 => Some(Key::PageUp),
        0x22 => Some(Key::PageDown),
        0x24 => Some(Key::Home),
        0x23 => Some(Key::End),
        0x2D => Some(Key::Insert),
        0x2E => Some(Key::Delete),
        0x08 => Some(Key::Backspace),
        0x20 => Some(Key::Space),
        0x0D => Some(Key::Enter),
        0x1B => Some(Key::Escape),
        0xDE => Some(Key::Apostrophe),
        0xBC => Some(Key::Comma),
        0xBD => Some(Key::Minus),
        0xBE => Some(Key::Period),
        0xBF => Some(Key::Slash),
        0xBA => Some(Key::Semicolon),
        0xBB => Some(Key::Equal),
        0xDB => Some(Key::LeftBracket),
        0xDC => Some(Key::Backslash),
        0xDD => Some(Key::RightBracket),
        0xC0 => Some(Key::GraveAccent),
        0x14 => Some(Key::CapsLock),
        0x91 => Some(Key::ScrollLock),
        0x90 => Some(Key::NumLock),
        0x2C => Some(Key::PrintScreen),
        0x13 => Some(Key::Pause),
        0x60 => Some(Key::Keypad0),
        0x61 => Some(Key::Keypad1),
        0x62 => Some(Key::Keypad2),
        0x63 => Some(Key::Keypad3),
        0x64 => Some(Key::Keypad4),
        0x65 => Some(Key::Keypad5),
        0x66 => Some(Key::Keypad6),
        0x67 => Some(Key::Keypad7),
        0x68 => Some(Key::Keypad8),
        0x69 => Some(Key::Keypad9),
        0x6E => Some(Key::KeypadDecimal),
        0x6F => Some(Key::KeypadDivide),
        0x6A => Some(Key::KeypadMultiply),
        0x6D => Some(Key::KeypadSubtract),
        0x6B => Some(Key::KeypadAdd),
        0xA0 => Some(Key::LeftShift),
        0xA2 => Some(Key::LeftCtrl),
        0x11 => Some(Key::LeftCtrl),
        0xA3 => Some(Key::RightCtrl),
        0xA4 => Some(Key::LeftAlt),
        0x5B => Some(Key::LeftSuper),
        0xA1 => Some(Key::RightShift),
        0xA5 => Some(Key::RightAlt),
        0x5C => Some(Key::RightSuper),
        0x5D => Some(Key::Menu),
        0x30 => Some(Key::Alpha0),
        0x31 => Some(Key::Alpha1),
        0x32 => Some(Key::Alpha2),
        0x33 => Some(Key::Alpha3),
        0x34 => Some(Key::Alpha4),
        0x35 => Some(Key::Alpha5),
        0x36 => Some(Key::Alpha6),
        0x37 => Some(Key::Alpha7),
        0x38 => Some(Key::Alpha8),
        0x39 => Some(Key::Alpha9),
        0x41 => Some(Key::A),
        0x42 => Some(Key::B),
        0x43 => Some(Key::C),
        0x44 => Some(Key::D),
        0x45 => Some(Key::E),
        0x46 => Some(Key::F),
        0x47 => Some(Key::G),
        0x48 => Some(Key::H),
        0x49 => Some(Key::I),
        0x4A => Some(Key::J),
        0x4B => Some(Key::K),
        0x4C => Some(Key::L),
        0x4D => Some(Key::M),
        0x4E => Some(Key::N),
        0x4F => Some(Key::O),
        0x50 => Some(Key::P),
        0x51 => Some(Key::Q),
        0x52 => Some(Key::R),
        0x53 => Some(Key::S),
        0x54 => Some(Key::T),
        0x55 => Some(Key::U),
        0x56 => Some(Key::V),
        0x57 => Some(Key::W),
        0x58 => Some(Key::X),
        0x59 => Some(Key::Y),
        0x5A => Some(Key::Z),
        0x70 => Some(Key::F1),
        0x71 => Some(Key::F2),
        0x72 => Some(Key::F3),
        0x73 => Some(Key::F4),
        0x74 => Some(Key::F5),
        0x75 => Some(Key::F6),
        0x76 => Some(Key::F7),
        0x77 => Some(Key::F8),
        0x78 => Some(Key::F9),
        0x79 => Some(Key::F10),
        0x7A => Some(Key::F11),
        0x7B => Some(Key::F12),
        _ => None,
    }
}

impl Key {
    /// Name of the key, as written to and read from the settings file.
    pub fn name(&self) -> (name: &'static str)
        ensures
            name@ == spec_key_name(*self),
    {
        match self {
            Key::Tab => "Tab",
            Key::LeftArrow => "LeftArrow",
            Key::RightArrow => "RightArrow",
            Key::UpArrow => "UpArrow",
            Key::DownArrow => "DownArrow",
            Key::PageUp => "PageUp",
            Key::PageDown => "PageDown",
            Key::Home => "Home",
            Key::End => "End",
            Key::Insert => "Insert",
            Key::Delete => "Delete",
            Key::Backspace => "Backspace",
            Key::Space => "Space",
            Key::Enter => "Enter",
            Key::Escape => "Escape",
            Key::LeftCtrl => "LeftCtrl",
            Key::LeftShift => "LeftShift",
            Key::LeftAlt => "LeftAlt",
            Key::LeftSuper => "LeftSuper",
            Key::RightCtrl => "RightCtrl",
            Key::RightShift => "RightShift",
            Key::RightAlt => "RightAlt",
            Key::RightSuper => "RightSuper",
            Key::Menu => "Menu",
            Key::Alpha0 => "Alpha0",
            Key::Alpha1 => "Alpha1",
            Key::Alpha2 => "Alpha2",
            Key::Alpha3 => "Alpha3",
            Key::Alpha4 => "Alpha4",
            Key::Alpha5 => "Alpha5",
            Key::Alpha6 => "Alpha6",
            Key::Alpha7 => "Alpha7",
            Key::Alpha8 => "Alpha8",
            Key::Alpha9 => "Alpha9",
            Key::A => "A",
            Key::B => "B",
            Key::C => "C",
            Key::D => "D",
            Key::E => "E",
            Key::F => "F",
            Key::G => "G",
            Key::H => "H",
            Key::I => "I",
            Key::J => "J",
            Key::K => "K",
            Key::L => "L",
            Key::M => "M",
            Key::N => "N",
            Key::O => "O",
            Key::P => "P",
            Key::Q => "Q",
            Key::R => "R",
            Key::S => "S",
            Key::T => "T",
            Key::U => "U",
            Key::V => "V",
            Key::W => "W",
            Key::X => "X",
            Key::Y => "Y",
            Key::Z => "Z",
            Key::F1 => "F1",
            Key::F2 => "F2",
            Key::F3 => "F3",
            Key::F4 => "F4",
            Key::F5 => "F5",
            Key::F6 => "F6",
            Key::F7 => "F7",
            Key::F8 => "F8",
            Key::F9 => "F9",
            Key::F10 => "F10",
            Key::F11 => "F11",
            Key::F12 => "F12",
            Key::Apostrophe => "Apostrophe",
            Key::Comma => "Comma",
            Key::Minus => "Minus",
            Key::Period => "Period",
            Key::Slash => "Slash",
            Key::Semicolon => "Semicolon",
            Key::Equal => "Equal",
            Key::LeftBracket => "LeftBracket",
            Key::Backslash => "Backslash",
            Key::RightBracket => "RightBracket",
            Key::GraveAccent => "GraveAccent",
            Key::CapsLock => "CapsLock",
            Key::ScrollLock => "ScrollLock",
            Key::NumLock => "NumLock",
            Key::PrintScreen => "PrintScreen",
            Key::Pause => "Pause",
            Key::Keypad0 => "Keypad0",
            Key::Keypad1 => "Keypad1",
            Key::Keypad2 => "Keypad2",
            Key::Keypad3 => "Keypad3",
            Key::Keypad4 => "Keypad4",
            Key::Keypad5 => "Keypad5",
            Key::Keypad6 => "Keypad6",
            Key::Keypad7 => "Keypad7",
            Key::Keypad8 => "Keypad8",
            Key::Keypad9 => "Keypad9",
            Key::KeypadDecimal => "KeypadDecimal",
            Key::KeypadDivide => "KeypadDivide",
            Key::KeypadMultiply => "KeypadMultiply",
            Key::KeypadSubtract => "KeypadSubtract",
            Key::KeypadAdd => "KeypadAdd",
            Key::KeypadEnter => "KeypadEnter",
            Key::KeypadEqual => "KeypadEqual",
            Key::GamepadStart => "GamepadStart",
            Key::GamepadBack => "GamepadBack",
            Key::GamepadFaceLeft => "GamepadFaceLeft",
            Key::GamepadFaceRight => "GamepadFaceRight",
            Key::GamepadFaceUp => "GamepadFaceUp",
            Key::GamepadFaceDown => "GamepadFaceDown",
            Key::GamepadDpadLeft => "GamepadDpadLeft",
            Key::GamepadDpadRight => "GamepadDpadRight",
            Key::GamepadDpadUp => "GamepadDpadUp",
            Key::GamepadDpadDown => "GamepadDpadDown",
            Key::GamepadL1 => "GamepadL1",
            Key::GamepadR1 => "GamepadR1",
            Key::GamepadL2 => "GamepadL2",
            Key::GamepadR2 => "GamepadR2",
            Key::GamepadL3 => "GamepadL3",
            Key::GamepadR3 => "GamepadR3",
            Key::GamepadLStickLeft => "GamepadLStickLeft",
            Key::GamepadLStickRight => "GamepadLStickRight",
            Key::GamepadLStickUp => "GamepadLStickUp",
            Key::GamepadLStickDown => "GamepadLStickDown",
            Key::GamepadRStickLeft => "GamepadRStickLeft",
            Key::GamepadRStickRight => "GamepadRStickRight",
            Key::GamepadRStickUp => "GamepadRStickUp",
            Key::GamepadRStickDown => "GamepadRStickDown",
            Key::MouseLeft => "MouseLeft",
            Key::MouseRight => "MouseRight",
            Key::MouseMiddle => "MouseMiddle",
            Key::MouseX1 => "MouseX1",
            Key::MouseX2 => "MouseX2",
            Key::MouseWheelX => "MouseWheelX",
            Key::MouseWheelY => "MouseWheelY",
            Key::ReservedForModCtrl => "ReservedForModCtrl",
            Key::ReservedForModShift => "ReservedForModShift",
            Key::ReservedForModAlt => "ReservedForModAlt",
            Key::ReservedForModSuper => "ReservedForModSuper",
            Key::ModCtrl => "ModCtrl",
            Key::ModShift => "ModShift",
            Key::ModAlt => "ModAlt",
            Key::ModSuper => "ModSuper",
            Key::ModShortcut => "ModShortcut",
        }
    }
}

/// The `index`-th key that a hot key may name.
pub fn key_variant(index: usize) -> (key: Option<Key>)
    ensures
        key == spec_key_variant(index as int),
{
    if index == 0 {
        Some(Key::Tab)
    } else if index == 1 {
        Some(Key::LeftArrow)
    } else if index == 2 {
        Some(Key::RightArrow)
    } else if index == 3 {
        Some(Key::UpArrow)
    } else if index == 4 {
        Some(Key::DownArrow)
    } else if index == 5 {
        Some(Key::PageUp)
    } else if index == 6 {
        Some(Key::PageDown)
    } else if index == 7 {
        Some(Key::Home)
    } else if index == 8 {
        Some(Key::End)
    } else if index == 9 {
        Some(Key::Insert)
    } else if index == 10 {
        Some(Key::Delete)
    } else if index == 11 {
        Some(Key::Backspace)
    } else if index == 12 {
        Some(Key::Space)
    } else if index == 13 {
        Some(Key::Enter)
    } else if index == 14 {
        Some(Key::Escape)
    } else if index == 15 {
        Some(Key::LeftCtrl)
    } else if index == 16 {
        Some(Key::LeftShift)
    } else if index == 17 {
        Some(Key::LeftAlt)
    } else if index == 18 {
        Some(Key::LeftSuper)
    } else if index == 19 {
        Some(Key::RightCtrl)
    } else if index == 20 {
        Some(Key::RightShift)
    } else if index == 21 {
        Some(Key::RightAlt)
    } else if index == 22 {
        Some(Key::RightSuper)
    } else if index == 23 {
        Some(Key::Menu)
    } else if index == 24 {
        Some(Key::Alpha0)
    } else if index == 25 {
        Some(Key::Alpha1)
    } else if index == 26 {
        Some(Key::Alpha2)
    } else if index == 27 {
        Some(Key::Alpha3)
    } else if index == 28 {
        Some(Key::Alpha4)
    } else if index == 29 {
        Some(Key::Alpha5)
    } else if index == 30 {
        Some(Key::Alpha6)
    } else if index == 31 {
        Some(Key::Alpha7)
    } else if index == 32 {
        Some(Key::Alpha8)
    } else if index == 33 {
        Some(Key::Alpha9)
    } else if index == 34 {
        Some(Key::A)
    } else if index == 35 {
        Some(Key::B)
    } else if index == 36 {
        Some(Key::C)
    } else if index == 37 {
        Some(Key::D)
    } else if index == 38 {
        Some(Key::E)
    } else if index == 39 {
        Some(Key::F)
    } else if index == 40 {
        Some(Key::G)
    } else if index == 41 {
        Some(Key::H)
    } else if index == 42 {
        Some(Key::I)
    } else if index == 43 {
        Some(Key::J)
    } else if index == 44 {
        Some(Key::K)
    } else if index == 45 {
        Some(Key::L)
    } else if index == 46 {
        Some(Key::M)
    } else if index == 47 {
        Some(Key::N)
    } else if index == 48 {
        Some(Key::O)
    } else if index == 49 {
        Some(Key::P)
    } else if index == 50 {
        Some(Key::Q)
    } else if index == 51 {
        Some(Key::R)
    } else if index == 52 {
        Some(Key::S)
    } else if index == 53 {
        Some(Key::T)
    } else if index == 54 {
        Some(Key::U)
    } else if index == 55 {
        Some(Key::V)
    } else if index == 56 {
        Some(Key::W)
    } else if index == 57 {
        Some(Key::X)
    } else if index == 58 {
        Some(Key::Y)
    } else if index == 59 {
        Some(Key::Z)
    } else if index == 60 {
        Some(Key::F1)
    } else if index == 61 {
        Some(Key::F2)
    } else if index == 62 {
        Some(Key::F3)
    } else if index == 63 {
        Some(Key::F4)
    } else if index == 64 {
        Some(Key::F5)
    } else if index == 65 {
        Some(Key::F6)
    } else if index == 66 {
        Some(Key::F7)
    } else if index == 67 {
        Some(Key::F8)
    } else if index == 68 {
        Some(Key::F9)
    } else if index == 69 {
        Some(Key::F10)
    } else if index == 70 {
        Some(Key::F11)
    } else if index == 71 {
        Some(Key::F12)
    } else if index == 72 {
        Some(Key::Apostrophe)
    } else if index == 73 {
        Some(Key::Comma)
    } else if index == 74 {
        Some(Key::Minus)
    } else if index == 75 {
        Some(Key::Period)
    } else if index == 76 {
        Some(Key::Slash)
    } else if index == 77 {
        Some(Key::Semicolon)
    } else if index == 78 {
        Some(Key::Equal)
    } else if index == 79 {
        Some(Key::LeftBracket)
    } else if index == 80 {
        Some(Key::Backslash)
    } else if index == 81 {
        Some(Key::RightBracket)
    } else if index == 82 {
        Some(Key::GraveAccent)
    } else if index == 83 {
        Some(Key::CapsLock)
    } else if index == 84 {
        Some(Key::ScrollLock)
    } else if index == 85 {
        Some(Key::NumLock)
    } else if index == 86 {
        Some(Key::PrintScreen)
    } else if index == 87 {
        Some(Key::Pause)
    } else if index == 88 {
        Some(Key::Keypad0)
    } else if index == 89 {
        Some(Key::Keypad1)
    } else if index == 90 {
        Some(Key::Keypad2)
    } else if index == 91 {
        Some(Key::Keypad3)
    } else if index == 92 {
        Some(Key::Keypad4)
    } else if index == 93 {
        Some(Key::Keypad5)
    } else if index == 94 {
        Some(Key::Keypad6)
    } else if index == 95 {
        Some(Key::Keypad7)
    } else if index == 96 {
        Some(Key::Keypad8)
    } else if index == 97 {
        Some(Key::Keypad9)
    } else if index == 98 {
        Some(Key::KeypadDecimal)
    } else if index == 99 {
        Some(Key::KeypadDivide)
    } else if index == 100 {
        Some(Key::KeypadMultiply)
    } else if index == 101 {
        Some(Key::KeypadSubtract)
    } else if index == 102 {
        Some(Key::KeypadAdd)
    } else if index == 103 {
        Some(Key::KeypadEnter)
    } else if index == 104 {
        Some(Key::KeypadEqual)
    } else if index == 105 {
        Some(Key::GamepadStart)
    } else if index == 106 {
        Some(Key::GamepadBack)
    } else if index == 107 {
        Some(Key::GamepadFaceLeft)
    } else if index == 108 {
        Some(Key::GamepadFaceRight)
    } else if index == 109 {
        Some(Key::GamepadFaceUp)
    } else if index == 110 {
        Some(Key::GamepadFaceDown)
    } else if index == 111 {
        Some(Key::GamepadDpadLeft)
    } else if index == 112 {
        Some(Key::GamepadDpadRight)
    } else if index == 113 {
        Some(Key::GamepadDpadUp)
    } else if index == 114 {
        Some(Key::GamepadDpadDown)
    } else if index == 115 {
        Some(Key::GamepadL1)
    } else if index == 116 {
        Some(Key::GamepadR1)
    } else if index == 117 {
        Some(Key::GamepadL2)
    } else if index == 118 {
        Some(Key::GamepadR2)
    } else if index == 119 {
        Some(Key::GamepadL3)
    } else if index == 120 {
        Some(Key::GamepadR3)
    } else if index == 121 {
        Some(Key::GamepadLStickLeft)
    } else if index == 122 {
        Some(Key::GamepadLStickRight)
    } else if index == 123 {
        Some(Key::GamepadLStickUp)
    } else if index == 124 {
        Some(Key::GamepadLStickDown)
    } else if index == 125 {
        Some(Key::GamepadRStickLeft)
    } else if index == 126 {
        Some(Key::GamepadRStickRight)
    } else if index == 127 {
        Some(Key::GamepadRStickUp)
    } else if index == 128 {
        Some(Key::GamepadRStickDown)
    } else if index == 129 {
        Some(Key::MouseLeft)
    } else if index == 130 {
        Some(Key::MouseRight)
    } else if index == 131 {
        Some(Key::MouseMiddle)
    } else if index == 132 {
        Some(Key::MouseX1)
    } else if index == 133 {
        Some(Key::MouseX2)
    } else if index == 134 {
        Some(Key::MouseWheelX)
    } else if index == 135 {
        Some(Key::MouseWheelY)
    } else if index == 136 {
        Some(Key::ReservedForModCtrl)
    } else if index == 137 {
        Some(Key::ReservedForModShift)
    } else if index == 138 {
        Some(Key::ReservedForModAlt)
    } else if index == 139 {
        Some(Key::ReservedForModSuper)
    } else {
        None
    }
}

/// Maps a Windows virtual key code to the overlay key it is
/// reported as.
pub fn to_imgui_key(keycode: u16) -> (key: Option<Key>)
    ensures
        key == spec_to_imgui_key(keycode),
{
    match keycode {
        0x09 => Some(Key::Tab),
        0x25 => Some(Key::LeftArrow),
        0x27 => Some(Key::RightArrow),
        0x10 => Some(Key::LeftShift),
        0x12 => Some(Key::LeftAlt),
        0x26 => Some(Key::UpArrow),
        0x28 => Some(Key::DownArrow),
        0x21 => Some(Key::PageUp),
        0x22 => Some(Key::PageDown),
        0x24 => Some(Key::Home),
        0x23 => Some(Key::End),
        0x2D => Some(Key::Insert),
        0x2E => Some(Key::Delete),
        0x08 => Some(Key::Backspace),
        0x20 => Some(Key::Space),
        0x0D => Some(Key::Enter),
        0x1B => Some(Key::Escape),
        0xDE => Some(Key::Apostrophe),
        0xBC => Some(Key::Comma),
        0xBD => Some(Key::Minus),
        0xBE => Some(Key::Period),
        0xBF => Some(Key::Slash),
        0xBA => Some(Key::Semicolon),
        0xBB => Some(Key::Equal),
        0xDB => Some(Key::LeftBracket),
        0xDC => Some(Key::Backslash),
        0xDD => Some(Key::RightBracket),
        0xC0 => Some(Key::GraveAccent),
        0x14 => Some(Key::CapsLock),
        0x91 => Some(Key::ScrollLock),
        0x90 => Some(Key::NumLock),
        0x2C => Some(Key::PrintScreen),
        0x13 => Some(Key::Pause),
        0x60 => Some(Key::Keypad0),
        0x61 => Some(Key::Keypad1),
        0x62 => Some(Key::Keypad2),
        0x63 => Some(Key::Keypad3),
        0x64 => Some(Key::Keypad4),
        0x65 => Some(Key::Keypad5),
        0x66 => Some(Key::Keypad6),
        0x67 => Some(Key::Keypad7),
        0x68 => Some(Key::Keypad8),
        0x69 => Some(Key::Keypad9),
        0x6E => Some(Key::KeypadDecimal),
        0x6F => Some(Key::KeypadDivide),
        0x6A => Some(Key::KeypadMultiply),
        0x6D => Some(Key::KeypadSubtract),
        0x6B => Some(Key::KeypadAdd),
        0xA0 => Some(Key::LeftShift),
        0xA2 => Some(Key::LeftCtrl),
        0x11 => Some(Key::LeftCtrl),
        0xA3 => Some(Key::RightCtrl),
        0xA4 => Some(Key::LeftAlt),
        0x5B => Some(Key::LeftSuper),
        0xA1 => Some(Key::RightShift),
        0xA5 => Some(Key::RightAlt),
        0x5C => Some(Key::RightSuper),
        0x5D => Some(Key::Menu),
        0x30 => Some(Key::Alpha0),
        0x31 => Some(Key::Alpha1),
        0x32 => Some(Key::Alpha2),
        0x33 => Some(Key::Alpha3),
        0x34 => Some(Key::Alpha4),
        0x35 => Some(Key::Alpha5),
        0x36 => Some(Key::Alpha6),
        0x37 => Some(Key::Alpha7),
        0x38 => Some(Key::Alpha8),
        0x39 => Some(Key::Alpha9),
        0x41 => Some(Key::A),
        0x42 => Some(Key::B),
        0x43 => Some(Key::C),
        0x44 => Some(Key::D),
        0x45 => Some(Key::E),
        0x46 => Some(Key::F),
        0x47 => Some(Key::G),
        0x48 => Some(Key::H),
        0x49 => Some(Key::I),
        0x4A => Some(Key::J),
        0x4B => Some(Key::K),
        0x4C => Some(Key::L),
        0x4D => Some(Key::M),
        0x4E => Some(Key::N),
        0x4F => Some(Key::O),
        0x50 => Some(Key::P),
        0x51 => Some(Key::Q),
        0x52 => Some(Key::R),
        0x53 => Some(Key::S),
        0x54 => Some(Key::T),
        0x55 => Some(Key::U),
        0x56 => Some(Key::V),
        0x57 => Some(Key::W),
        0x58 => Some(Key::X),
        0x59 => Some(Key::Y),
        0x5A => Some(Key::Z),
        0x70 => Some(Key::F1),
        0x71 => Some(Key::F2),
        0x72 => Some(Key::F3),
        0x73 => Some(Key::F4),
        0x74 => Some(Key::F5),
        0x75 => Some(Key::F6),
        0x76 => Some(Key::F7),
        0x77 => Some(Key::F8),
        0x78 => Some(Key::F9),
        0x79 => Some(Key::F10),
        0x7A => Some(Key::F11),
        0x7B => Some(Key::F12),
        _ => None,
    }
}

/// The virtual key code that stands for an overlay key, for the keys that
/// the overlay is told of; a shift, control or alt key stands for its
/// generic code.
spec fn spec_vkey_of(key: Key) -> Option<u16> {
    match key {
        Key::Tab => Some(0x09),
        Key::LeftArrow => Some(0x25),
        Key::RightArrow => Some(0x27),
        Key::LeftShift => Some(0x10),
        Key::LeftAlt => Some(0x12),
        Key::UpArrow => Some(0x26),
        Key::DownArrow => Some(0x28),
        Key::PageUp => Some(0x21),
        Key::PageDown => Some(0x22),
        Key::Home => Some(0x24),
        Key::End => Some(0x23),
        Key::Insert => Some(0x2D),
        Key::Delete => Some(0x2E),
        Key::Backspace => Some(0x08),
        Key::Space => Some(0x20),
        Key::Enter => Some(0x0D),
        Key::Escape => Some(0x1B),
        Key::Apostrophe => Some(0xDE),
        Key::Comma => Some(0xBC),
        Key::Minus => Some(0xBD),
        Key::Period => Some(0xBE),
        Key::Slash => Some(0xBF),
        Key::Semicolon => Some(0xBA),
        Key::Equal => Some(0xBB),
        Key::LeftBracket => Some(0xDB),
        Key::Backslash => Some(0xDC),
        Key::RightBracket => Some(0xDD),
        Key::GraveAccent => Some(0xC0),
        Key::CapsLock => Some(0x14),
        Key::ScrollLock => Some(0x91),
        Key::NumLock => Some(0x90),
        Key::PrintScreen => Some(0x2C),
        Key::Pause => Some(0x13),
        Key::Keypad0 => Some(0x60),
        Key::Keypad1 => Some(0x61),
        Key::Keypad2 => Some(0x62),
        Key::Keypad3 => Some(0x63),
        Key::Keypad4 => Some(0x64),
        Key::Keypad5 => Some(0x65),
        Key::Keypad6 => Some(0x66),
        Key::Keypad7 => Some(0x67),
        Key::Keypad8 => Some(0x68),
        Key::Keypad9 => Some(0x69),
        Key::KeypadDecimal => Some(0x6E),
        Key::KeypadDivide => Some(0x6F),
        Key::KeypadMultiply => Some(0x6A),
        Key::KeypadSubtract => Some(0x6D),
        Key::KeypadAdd => Some(0x6B),
        Key::LeftCtrl => Some(0x11),
        Key::RightCtrl => Some(0xA3),
        Key::LeftSuper => Some(0x5B),
        Key::RightShift => Some(0xA1),
        Key::RightAlt => Some(0xA5),
        Key::RightSuper => Some(0x5C),
        Key::Menu => Some(0x5D),
        Key::Alpha0 => Some(0x30),
        Key::Alpha1 => Some(0x31),
        Key::Alpha2 => Some(0x32),
        Key::Alpha3 => Some(0x33),
        Key::Alpha4 => Some(0x34),
        Key::Alpha5 => Some(0x35),
        Key::Alpha6 => Some(0x36),
        Key::Alpha7 => Some(0x37),
        Key::Alpha8 => Some(0x38),
        Key::Alpha9 => Some(0x39),
        Key::A => Some(0x41),
        Key::B => Some(0x42),
        Key::C => Some(0x43),
        Key::D => Some(0x44),
        Key::E => Some(0x45),
        Key::F => Some(0x46),
        Key::G => Some(0x47),
        Key::H => Some(0x48),
        Key::I => Some(0x49),
        Key::J => Some(0x4A),
        Key::K => Some(0x4B),
        Key::L => Some(0x4C),
        Key::M => Some(0x4D),
        Key::N => Some(0x4E),
        Key::O => Some(0x4F),
        Key::P => Some(0x50),
        Key::Q => Some(0x51),
        Key::R => Some(0x52),
        Key::S => Some(0x53),
        Key::T => Some(0x54),
        Key::U => Some(0x55),
        Key::V => Some(0x56),
        Key::W => Some(0x57),
        Key::X => Some(0x58),
        Key::Y => Some(0x59),
        Key::Z => Some(0x5A),
        Key::F1 => Some(0x70),
        Key::F2 => Some(0x71),
        Key::F3 => Some(0x72),
        Key::F4 => Some(0x73),
        Key::F5 => Some(0x74),
        Key::F6 => Some(0x75),
        Key::F7 => Some(0x76),
        Key::F8 => Some(0x77),
        Key::F9 => Some(0x78),
        Key::F10 => Some(0x79),
        Key::F11 => Some(0x7A),
        Key::F12 => Some(0x7B),
        _ => None,
    }
}

/// The generic code of a left shift, control or alt key; any other code
/// stands for itself.
spec fn spec_vkey_alias(keycode: u16) -> u16 {
    if keycode == 0xA0 {
        0x10
    } else if keycode == 0xA2 {
        0x11
    } else if keycode == 0xA4 {
        0x12
    } else {
        keycode
    }
}

proof fn lemma_vkey_of_inverts(keycode: u16)
    ensures
        spec_to_imgui_key(keycode) matches Some(key) ==> spec_vkey_of(key) == Some(spec_vkey_alias(keycode)),
{
}

/// No two virtual keys give the same overlay key, but for the generic and
/// the left shift (0x10, 0xA0), control (0x11, 0xA2) and alt (0x12, 0xA4)
/// codes, which both give the left key.
pub proof fn lemma_to_imgui_key_injective(first: u16, second: u16)
    requires
        spec_to_imgui_key(first) is Some,
        spec_to_imgui_key(first) == spec_to_imgui_key(second),
    ensures
        first == second || (first == 0x10 && second == 0xA0) || (first == 0xA0 && second == 0x10) || (first == 0x11
            && second == 0xA2) || (first == 0xA2 && second == 0x11) || (first == 0x12 && second == 0xA4) || (first
            == 0xA4 && second == 0x12),
{
    lemma_vkey_of_inverts(first);
    lemma_vkey_of_inverts(second);
}

/// The generic and left shift, control and alt codes give the left key.
pub proof fn lemma_to_imgui_key_modifier_aliases()
    ensures
        spec_to_imgui_key(0x10) == Some(Key::LeftShift) && spec_to_imgui_key(0xA0) == Some(Key::LeftShift),
        spec_to_imgui_key(0x11) == Some(Key::LeftCtrl) && spec_to_imgui_key(0xA2) == Some(Key::LeftCtrl),
        spec_to_imgui_key(0x12) == Some(Key::LeftAlt) && spec_to_imgui_key(0xA4) == Some(Key::LeftAlt),
{
}

/// The arrow codes, in Windows order left (0x25), up, right and down
/// (0x28), give the overlay's arrows pointing the same way.
pub proof fn lemma_to_imgui_key_arrows()
    ensures
        spec_to_imgui_key(0x25) == Some(Key::LeftArrow),
        spec_to_imgui_key(0x26) == Some(Key::UpArrow),
        spec_to_imgui_key(0x27) == Some(Key::RightArrow),
        spec_to_imgui_key(0x28) == Some(Key::DownArrow),
{
}

/// Position among the keys of the overlay key that a virtual key gives.
pub open spec fn spec_imgui_key_position(keycode: u16) -> Option<int> {
    match spec_to_imgui_key(keycode) {
        Some(key) => spec_key_index(key),
        None => None,
    }
}

/// Runs of consecutive virtual key codes give runs of consecutive overlay
/// keys in the same order: the letters A to Z (0x41 to 0x5A), the digits 0
/// to 9 (0x30 to 0x39), the keypad digits (0x60 to 0x69) and F1 to F12
/// (0x70 to 0x7B).
pub proof fn lemma_to_imgui_key_runs(keycode: u16)
    ensures
        0x41 <= keycode <= 0x5A ==> spec_imgui_key_position(keycode) == Some(
            spec_key_index(Key::A)->0 + (keycode - 0x41),
        ),
        0x30 <= keycode <= 0x39 ==> spec_imgui_key_position(keycode) == Some(
            spec_key_index(Key::Alpha0)->0 + (keycode - 0x30),
        ),
        0x60 <= keycode <= 0x69 ==> spec_imgui_key_position(keycode) == Some(
            spec_key_index(Key::Keypad0)->0 + (keycode - 0x60),
        ),
        0x70 <= keycode <= 0x7B ==> spec_imgui_key_position(keycode) == Some(
            spec_key_index(Key::F1)->0 + (keycode - 0x70),
        ),
{
}

} // verus!
