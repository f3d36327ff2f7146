//! The names under which hot keys are written are distinct, so that a key
//! read back from its name is the key that was written.
use vstd::prelude::*;
use crate::keys::{Key, spec_key_index, spec_key_name, spec_key_variant};
use crate::hotkey::lemma_key_variant_index;

verus! {

/// Tells the nameable keys apart by the length and the characters of their
/// names.
spec fn spec_key_by_name(name: Seq<char>) -> Option<Key> {
    if name.len() == 1 {
        if name[0] == 'A' {
            Some(Key::A)
        } else if name[0] == 'B' {
            Some(Key::B)
        } else if name[0] == 'C' {
            Some(Key::C)
        } else if name[0] == 'D' {
            Some(Key::D)
        } else if name[0] == 'E' {
            Some(Key::E)
        } else if name[0] == 'F' {
            Some(Key::F)
        } else if name[0] == 'G' {
            Some(Key::G)
        } else if name[0] == 'H' {
            Some(Key::H)
        } else if name[0] == 'I' {
            Some(Key::I)
        } else if name[0] == 'J' {
            Some(Key::J)
        } else if name[0] == 'K' {
            Some(Key::K)
        } else if name[0] == 'L' {
            Some(Key::L)
        } else if name[0] == 'M' {
            Some(Key::M)
        } else if name[0] == 'N' {
            Some(Key::N)
        } else if name[0] == 'O' {
            Some(Key::O)
        } else if name[0] == 'P' {
            Some(Key::P)
        } else if name[0] == 'Q' {
            Some(Key::Q)
        } else if name[0] == 'R' {
            Some(Key::R)
        } else if name[0] == 'S' {
            Some(Key::S)
        } else if name[0] == 'T' {
            Some(Key::T)
        } else if name[0] == 'U' {
            Some(Key::U)
        } else if name[0] == 'V' {
            Some(Key::V)
        } else if name[0] == 'W' {
            Some(Key::W)
        } else if name[0] == 'X' {
            Some(Key::X)
        } else if name[0] == 'Y' {
            Some(Key::Y)
        } else {
            Some(Key::Z)
        }
    } else if name.len() == 2 {
        if name[1] == '1' {
            Some(Key::F1)
        } else if name[1] == '2' {
            Some(Key::F2)
        } else if name[1] == '3' {
            Some(Key::F3)
        } else if name[1] == '4' {
            Some(Key::F4)
        } else if name[1] == '5' {
            Some(Key::F5)
        } else if name[1] == '6' {
            Some(Key::F6)
        } else if name[1] == '7' {
            Some(Key::F7)
        } else if name[1] == '8' {
            Some(Key::F8)
        } else {
            Some(Key::F9)
        }
    } else if name.len() == 3 {
        if name[0] == 'T' {
            Some(Key::Tab)
        } else if name[0] == 'E' {
            Some(Key::End)
        } else {
            if name[2] == '0' {
                Some(Key::F10)
            } else if name[2] == '1' {
                Some(Key::F11)
            } else {
                Some(Key::F12)
            }
        }
    } else if name.len() == 4 {
        if name[0] == 'H' {
            Some(Key::Home)
        } else {
            Some(Key::Menu)
        }
    } else if name.len() == 5 {
        if name[0] == 'S' {
            if name[1] == 'p' {
                Some(Key::Space)
            } else {
                Some(Key::Slash)
            }
        } else if name[0] == 'E' {
            if name[1] == 'n' {
                Some(Key::Enter)
            } else {
                Some(Key::Equal)
            }
        } else if name[0] == 'C' {
            Some(Key::Comma)
        } else if name[0] == 'M' {
            Some(Key::Minus)
        } else {
            Some(Key::Pause)
        }
    } else if name.len() == 6 {
        if name[0] == 'P' {
            if name[1] == 'a' {
                Some(Key::PageUp)
            } else {
                Some(Key::Period)
            }
        } else if name[0] == 'I' {
            Some(Key::Insert)
        } else if name[0] == 'D' {
            Some(Key::Delete)
        } else if name[0] == 'E' {
            Some(Key::Escape)
        } else {
            if name[5] == '0' {
                Some(Key::Alpha0)
            } else if name[5] == '1' {
                Some(Key::Alpha1)
            } else if name[5] == '2' {
                Some(Key::Alpha2)
            } else if name[5] == '3' {
                Some(Key::Alpha3)
            } else if name[5] == '4' {
                Some(Key::Alpha4)
            } else if name[5] == '5' {
                Some(Key::Alpha5)
            } else if name[5] == '6' {
                Some(Key::Alpha6)
            } else if name[5] == '7' {
                Some(Key::Alpha7)
            } else if name[5] == '8' {
                Some(Key::Alpha8)
            } else {
                Some(Key::Alpha9)
            }
        }
    } else if name.len() == 7 {
        if name[0] == 'U' {
            Some(Key::UpArrow)
        } else if name[0] == 'L' {
            Some(Key::LeftAlt)
        } else if name[0] == 'N' {
            Some(Key::NumLock)
        } else if name[0] == 'K' {
            if name[6] == '0' {
                Some(Key::Keypad0)
            } else if name[6] == '1' {
                Some(Key::Keypad1)
            } else if name[6] == '2' {
                Some(Key::Keypad2)
            } else if name[6] == '3' {
                Some(Key::Keypad3)
            } else if name[6] == '4' {
                Some(Key::Keypad4)
            } else if name[6] == '5' {
                Some(Key::Keypad5)
            } else if name[6] == '6' {
                Some(Key::Keypad6)
            } else if name[6] == '7' {
                Some(Key::Keypad7)
            } else if name[6] == '8' {
                Some(Key::Keypad8)
            } else {
                Some(Key::Keypad9)
            }
        } else {
            if name[6] == '1' {
                Some(Key::MouseX1)
            } else {
                Some(Key::MouseX2)
            }
        }
    } else if name.len() == 8 {
        if name[0] == 'P' {
            Some(Key::PageDown)
        } else if name[0] == 'L' {
            Some(Key::LeftCtrl)
        } else if name[0] == 'R' {
            Some(Key::RightAlt)
        } else {
            Some(Key::CapsLock)
        }
    } else if name.len() == 9 {
        if name[0] == 'L' {
            if name[4] == 'A' {
                Some(Key::LeftArrow)
            } else {
                if name[5] == 'h' {
                    Some(Key::LeftShift)
                } else {
                    Some(Key::LeftSuper)
                }
            }
        } else if name[0] == 'D' {
            Some(Key::DownArrow)
        } else if name[0] == 'B' {
            if name[5] == 'p' {
                Some(Key::Backspace)
            } else {
                Some(Key::Backslash)
            }
        } else if name[0] == 'R' {
            Some(Key::RightCtrl)
        } else if name[0] == 'S' {
            Some(Key::Semicolon)
        } else if name[0] == 'K' {
            Some(Key::KeypadAdd)
        } else if name[0] == 'G' {
            if name[7] == 'L' {
                if name[8] == '1' {
                    Some(Key::GamepadL1)
                } else if name[8] == '2' {
                    Some(Key::GamepadL2)
                } else {
                    Some(Key::GamepadL3)
                }
            } else {
                if name[8] == '1' {
                    Some(Key::GamepadR1)
                } else if name[8] == '2' {
                    Some(Key::GamepadR2)
                } else {
                    Some(Key::GamepadR3)
                }
            }
        } else {
            Some(Key::MouseLeft)
        }
    } else if name.len() == 10 {
        if name[0] == 'R' {
            if name[5] == 'A' {
                Some(Key::RightArrow)
            } else {
                if name[6] == 'h' {
                    Some(Key::RightShift)
                } else {
                    Some(Key::RightSuper)
                }
            }
        } else if name[0] == 'A' {
            Some(Key::Apostrophe)
        } else if name[0] == 'S' {
            Some(Key::ScrollLock)
        } else {
            Some(Key::MouseRight)
        }
    } else if name.len() == 11 {
        if name[0] == 'L' {
            Some(Key::LeftBracket)
        } else if name[0] == 'G' {
            if name[1] == 'r' {
                Some(Key::GraveAccent)
            } else {
                Some(Key::GamepadBack)
            }
        } else if name[0] == 'P' {
            Some(Key::PrintScreen)
        } else if name[0] == 'K' {
            if name[7] == 'n' {
                Some(Key::KeypadEnter)
            } else {
                Some(Key::KeypadEqual)
            }
        } else {
            if name[5] == 'M' {
                Some(Key::MouseMiddle)
            } else {
                if name[10] == 'X' {
                    Some(Key::MouseWheelX)
                } else {
                    Some(Key::MouseWheelY)
                }
            }
        }
    } else if name.len() == 12 {
        if name[0] == 'R' {
            Some(Key::RightBracket)
        } else if name[0] == 'K' {
            Some(Key::KeypadDivide)
        } else {
            Some(Key::GamepadStart)
        }
    } else if name.len() == 13 {
        if name[0] == 'K' {
            Some(Key::KeypadDecimal)
        } else {
            if name[7] == 'F' {
                Some(Key::GamepadFaceUp)
            } else {
                Some(Key::GamepadDpadUp)
            }
        }
    } else if name.len() == 14 {
        if name[6] == 'M' {
            Some(Key::KeypadMultiply)
        } else {
            Some(Key::KeypadSubtract)
        }
    } else if name.len() == 15 {
        if name[7] == 'F' {
            if name[11] == 'L' {
                Some(Key::GamepadFaceLeft)
            } else {
                Some(Key::GamepadFaceDown)
            }
        } else if name[7] == 'D' {
            if name[11] == 'L' {
                Some(Key::GamepadDpadLeft)
            } else {
                Some(Key::GamepadDpadDown)
            }
        } else if name[7] == 'L' {
            Some(Key::GamepadLStickUp)
        } else {
            Some(Key::GamepadRStickUp)
        }
    } else if name.len() == 16 {
        if name[7] == 'F' {
            Some(Key::GamepadFaceRight)
        } else {
            Some(Key::GamepadDpadRight)
        }
    } else if name.len() == 17 {
        if name[0] == 'G' {
            if name[7] == 'L' {
                if name[13] == 'L' {
                    Some(Key::GamepadLStickLeft)
                } else {
                    Some(Key::GamepadLStickDown)
                }
            } else {
                if name[13] == 'L' {
                    Some(Key::GamepadRStickLeft)
                } else {
                    Some(Key::GamepadRStickDown)
                }
            }
        } else {
            Some(Key::ReservedForModAlt)
        }
    } else if name.len() == 18 {
        if name[0] == 'G' {
            if name[7] == 'L' {
                Some(Key::GamepadLStickRight)
            } else {
                Some(Key::GamepadRStickRight)
            }
        } else {
            Some(Key::ReservedForModCtrl)
        }
    } else if name.len() == 19 {
        if name[15] == 'h' {
            Some(Key::ReservedForModShift)
        } else {
            Some(Key::ReservedForModSuper)
        }
    } else {
        None
    }
}

/// The name of a nameable key tells which key it is.
proof fn lemma_name_identifies_key(key: Key)
    requires
        spec_key_index(key) is Some,
    ensures
        spec_key_by_name(spec_key_name(key)) == Some(key),
{
    match key {
        Key::Tab => {
            reveal_strlit("Tab");
        },
        Key::LeftArrow => {
            reveal_strlit("LeftArrow");
        },
        Key::RightArrow => {
            reveal_strlit("RightArrow");
        },
        Key::UpArrow => {
            reveal_strlit("UpArrow");
        },
        Key::DownArrow => {
            reveal_strlit("DownArrow");
        },
        Key::PageUp => {
            reveal_strlit("PageUp");
        },
        Key::PageDown => {
            reveal_strlit("PageDown");
        },
        Key::Home => {
            reveal_strlit("Home");
        },
        Key::End => {
            reveal_strlit("End");
        },
        Key::Insert => {
            reveal_strlit("Insert");
        },
        Key::Delete => {
            reveal_strlit("Delete");
        },
        Key::Backspace => {
            reveal_strlit("Backspace");
        },
        Key::Space => {
            reveal_strlit("Space");
        },
        Key::Enter => {
            reveal_strlit("Enter");
        },
        Key::Escape => {
            reveal_strlit("Escape");
        },
        Key::LeftCtrl => {
            reveal_strlit("LeftCtrl");
        },
        Key::LeftShift => {
            reveal_strlit("LeftShift");
        },
        Key::LeftAlt => {
            reveal_strlit("LeftAlt");
        },
        Key::LeftSuper => {
            reveal_strlit("LeftSuper");
        },
        Key::RightCtrl => {
            reveal_strlit("RightCtrl");
        },
        Key::RightShift => {
            reveal_strlit("RightShift");
        },
        Key::RightAlt => {
            reveal_strlit("RightAlt");
        },
        Key::RightSuper => {
            reveal_strlit("RightSuper");
        },
        Key::Menu => {
            reveal_strlit("Menu");
        },
        Key::Alpha0 => {
            reveal_strlit("Alpha0");
        },
        Key::Alpha1 => {
            reveal_strlit("Alpha1");
        },
        Key::Alpha2 => {
            reveal_strlit("Alpha2");
        },
        Key::Alpha3 => {
            reveal_strlit("Alpha3");
        },
        Key::Alpha4 => {
            reveal_strlit("Alpha4");
        },
        Key::Alpha5 => {
            reveal_strlit("Alpha5");
        },
        Key::Alpha6 => {
            reveal_strlit("Alpha6");
        },
        Key::Alpha7 => {
            reveal_strlit("Alpha7");
        },
        Key::Alpha8 => {
            reveal_strlit("Alpha8");
        },
        Key::Alpha9 => {
            reveal_strlit("Alpha9");
        },
        Key::A => {
            reveal_strlit("A");
        },
        Key::B => {
            reveal_strlit("B");
        },
        Key::C => {
            reveal_strlit("C");
        },
        Key::D => {
            reveal_strlit("D");
        },
        Key::E => {
            reveal_strlit("E");
        },
        Key::F => {
            reveal_strlit("F");
        },
        Key::G => {
            reveal_strlit("G");
        },
        Key::H => {
            reveal_strlit("H");
        },
        Key::I => {
            reveal_strlit("I");
        },
        Key::J => {
            reveal_strlit("J");
        },
        Key::K => {
            reveal_strlit("K");
        },
        Key::L => {
            reveal_strlit("L");
        },
        Key::M => {
            reveal_strlit("M");
        },
        Key::N => {
            reveal_strlit("N");
        },
        Key::O => {
            reveal_strlit("O");
        },
        Key::P => {
            reveal_strlit("P");
        },
        Key::Q => {
            reveal_strlit("Q");
        },
        Key::R => {
            reveal_strlit("R");
        },
        Key::S => {
            reveal_strlit("S");
        },
        Key::T => {
            reveal_strlit("T");
        },
        Key::U => {
            reveal_strlit("U");
        },
        Key::V => {
            reveal_strlit("V");
        },
        Key::W => {
            reveal_strlit("W");
        },
        Key::X => {
            reveal_strlit("X");
        },
        Key::Y => {
            reveal_strlit("Y");
        },
        Key::Z => {
            reveal_strlit("Z");
        },
        Key::F1 => {
            reveal_strlit("F1");
        },
        Key::F2 => {
            reveal_strlit("F2");
        },
        Key::F3 => {
            reveal_strlit("F3");
        },
        Key::F4 => {
            reveal_strlit("F4");
        },
        Key::F5 => {
            reveal_strlit("F5");
        },
        Key::F6 => {
            reveal_strlit("F6");
        },
        Key::F7 => {
            reveal_strlit("F7");
        },
        Key::F8 => {
            reveal_strlit("F8");
        },
        Key::F9 => {
            reveal_strlit("F9");
        },
        Key::F10 => {
            reveal_strlit("F10");
        },
        Key::F11 => {
            reveal_strlit("F11");
        },
        Key::F12 => {
            reveal_strlit("F12");
        },
        Key::Apostrophe => {
            reveal_strlit("Apostrophe");
        },
        Key::Comma => {
            reveal_strlit("Comma");
        },
        Key::Minus => {
            reveal_strlit("Minus");
        },
        Key::Period => {
            reveal_strlit("Period");
        },
        Key::Slash => {
            reveal_strlit("Slash");
        },
        Key::Semicolon => {
            reveal_strlit("Semicolon");
        },
        Key::Equal => {
            reveal_strlit("Equal");
        },
        Key::LeftBracket => {
            reveal_strlit("LeftBracket");
        },
        Key::Backslash => {
            reveal_strlit("Backslash");
        },
        Key::RightBracket => {
            reveal_strlit("RightBracket");
        },
        Key::GraveAccent => {
            reveal_strlit("GraveAccent");
        },
        Key::CapsLock => {
            reveal_strlit("CapsLock");
        },
        Key::ScrollLock => {
            reveal_strlit("ScrollLock");
        },
        Key::NumLock => {
            reveal_strlit("NumLock");
        },
        Key::PrintScreen => {
            reveal_strlit("PrintScreen");
        },
        Key::Pause => {
            reveal_strlit("Pause");
        },
        Key::Keypad0 => {
            reveal_strlit("Keypad0");
        },
        Key::Keypad1 => {
            reveal_strlit("Keypad1");
        },
        Key::Keypad2 => {
            reveal_strlit("Keypad2");
        },
        Key::Keypad3 => {
            reveal_strlit("Keypad3");
        },
        Key::Keypad4 => {
            reveal_strlit("Keypad4");
        },
        Key::Keypad5 => {
            reveal_strlit("Keypad5");
        },
        Key::Keypad6 => {
            reveal_strlit("Keypad6");
        },
        Key::Keypad7 => {
            reveal_strlit("Keypad7");
        },
        Key::Keypad8 => {
            reveal_strlit("Keypad8");
        },
        Key::Keypad9 => {
            reveal_strlit("Keypad9");
        },
        Key::KeypadDecimal => {
            reveal_strlit("KeypadDecimal");
        },
        Key::KeypadDivide => {
            reveal_strlit("KeypadDivide");
        },
        Key::KeypadMultiply => {
            reveal_strlit("KeypadMultiply");
        },
        Key::KeypadSubtract => {
            reveal_strlit("KeypadSubtract");
        },
        Key::KeypadAdd => {
            reveal_strlit("KeypadAdd");
        },
        Key::KeypadEnter => {
            reveal_strlit("KeypadEnter");
        },
        Key::KeypadEqual => {
            reveal_strlit("KeypadEqual");
        },
        Key::GamepadStart => {
            reveal_strlit("GamepadStart");
        },
        Key::GamepadBack => {
            reveal_strlit("GamepadBack");
        },
        Key::GamepadFaceLeft => {
            reveal_strlit("GamepadFaceLeft");
        },
        Key::GamepadFaceRight => {
            reveal_strlit("GamepadFaceRight");
        },
        Key::GamepadFaceUp => {
            reveal_strlit("GamepadFaceUp");
        },
        Key::GamepadFaceDown => {
            reveal_strlit("GamepadFaceDown");
        },
        Key::GamepadDpadLeft => {
            reveal_strlit("GamepadDpadLeft");
        },
        Key::GamepadDpadRight => {
            reveal_strlit("GamepadDpadRight");
        },
        Key::GamepadDpadUp => {
            reveal_strlit("GamepadDpadUp");
        },
        Key::GamepadDpadDown => {
            reveal_strlit("GamepadDpadDown");
        },
        Key::GamepadL1 => {
            reveal_strlit("GamepadL1");
        },
        Key::GamepadR1 => {
            reveal_strlit("GamepadR1");
        },
        Key::GamepadL2 => {
            reveal_strlit("GamepadL2");
        },
        Key::GamepadR2 => {
            reveal_strlit("GamepadR2");
        },
        Key::GamepadL3 => {
            reveal_strlit("GamepadL3");
        },
        Key::GamepadR3 => {
            reveal_strlit("GamepadR3");
        },
        Key::GamepadLStickLeft => {
            reveal_strlit("GamepadLStickLeft");
        },
        Key::GamepadLStickRight => {
            reveal_strlit("GamepadLStickRight");
        },
        Key::GamepadLStickUp => {
            reveal_strlit("GamepadLStickUp");
        },
        Key::GamepadLStickDown => {
            reveal_strlit("GamepadLStickDown");
        },
        Key::GamepadRStickLeft => {
            reveal_strlit("GamepadRStickLeft");
        },
        Key::GamepadRStickRight => {
            reveal_strlit("GamepadRStickRight");
        },
        Key::GamepadRStickUp => {
            reveal_strlit("GamepadRStickUp");
        },
        Key::GamepadRStickDown => {
            reveal_strlit("GamepadRStickDown");
        },
        Key::MouseLeft => {
            reveal_strlit("MouseLeft");
        },
        Key::MouseRight => {
            reveal_strlit("MouseRight");
        },
        Key::MouseMiddle => {
            reveal_strlit("MouseMiddle");
        },
        Key::MouseX1 => {
            reveal_strlit("MouseX1");
        },
        Key::MouseX2 => {
            reveal_strlit("MouseX2");
        },
        Key::MouseWheelX => {
            reveal_strlit("MouseWheelX");
        },
        Key::MouseWheelY => {
            reveal_strlit("MouseWheelY");
        },
        Key::ReservedForModCtrl => {
            reveal_strlit("ReservedForModCtrl");
        },
        Key::ReservedForModShift => {
            reveal_strlit("ReservedForModShift");
        },
        Key::ReservedForModAlt => {
            reveal_strlit("ReservedForModAlt");
        },
        Key::ReservedForModSuper => {
            reveal_strlit("ReservedForModSuper");
        },
        _ => {},
    }
}

/// Different keys that a hot key may name have different names.
pub proof fn lemma_hotkey_names_distinct(first: Key, second: Key)
    requires
        spec_key_index(first) is Some,
        spec_key_index(second) is Some,
        spec_key_name(first) == spec_key_name(second),
    ensures
        first == second,
{
    lemma_name_identifies_key(first);
    lemma_name_identifies_key(second);
}

/// A key is the first, in key order, that carries its name: reading its
/// name back finds this key.
pub proof fn lemma_hotkey_name_round_trip(key: Key)
    requires
        spec_key_index(key) is Some,
    ensures
        forall|j: int| 0 <= j < spec_key_index(key)->0 ==> #[trigger] spec_key_name(spec_key_variant(j)->0)
            != spec_key_name(key),
{
    assert forall|j: int| 0 <= j < spec_key_index(key)->0 implies #[trigger] spec_key_name(spec_key_variant(j)->0)
        != spec_key_name(key) by {
        crate::hotkey::lemma_key_index_variant(key);
        lemma_key_variant_index(j);
        let other = spec_key_variant(j)->0;
        if spec_key_name(other) == spec_key_name(key) {
            lemma_hotkey_names_distinct(other, key);
        }
    }
}

} // verus!
