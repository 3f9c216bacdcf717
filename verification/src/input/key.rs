//! Physical keys and mouse buttons, and the names they are logged under.

use crate::text::{decimal_digits, decimal_string};
use vstd::prelude::*;
use vstd::string::*;

verus! {

/// A physical key of the keyboard. `Unknown` carries the platform's code of a key
/// that has no name here.
#[derive(Debug, Clone, Copy, PartialEq, Eq, Hash, Structural)]
pub enum Key {
    Alt,
    AltGr,
    Backspace,
    CapsLock,
    ControlLeft,
    ControlRight,
    Delete,
    DownArrow,
    End,
    Escape,
    F1,
    F10,
    F11,
    F12,
    F2,
    F3,
    F4,
    F5,
    F6,
    F7,
    F8,
    F9,
    Home,
    LeftArrow,
    MetaLeft,
    MetaRight,
    PageDown,
    PageUp,
    Return,
    RightArrow,
    ShiftLeft,
    ShiftRight,
    Space,
    Tab,
    UpArrow,
    PrintScreen,
    ScrollLock,
    Pause,
    NumLock,
    BackQuote,
    Num1,
    Num2,
    Num3,
    Num4,
    Num5,
    Num6,
    Num7,
    Num8,
    Num9,
    Num0,
    Minus,
    Equal,
    KeyQ,
    KeyW,
    KeyE,
    KeyR,
    KeyT,
    KeyY,
    KeyU,
    KeyI,
    KeyO,
    KeyP,
    LeftBracket,
    RightBracket,
    KeyA,
    KeyS,
    KeyD,
    KeyF,
    KeyG,
    KeyH,
    KeyJ,
    KeyK,
    KeyL,
    SemiColon,
    Quote,
    BackSlash,
    IntlBackslash,
    KeyZ,
    KeyX,
    KeyC,
    KeyV,
    KeyB,
    KeyN,
    KeyM,
    Comma,
    Dot,
    Slash,
    Insert,
    KpReturn,
    KpMinus,
    KpPlus,
    KpMultiply,
    KpDivide,
    Kp0,
    Kp1,
    Kp2,
    Kp3,
    Kp4,
    Kp5,
    Kp6,
    Kp7,
    Kp8,
    Kp9,
    KpDelete,
    Function,
    Unknown(u32),
}

/// A mouse button. `Unknown` carries the platform's code of a further button.
#[derive(Debug, Clone, Copy, PartialEq, Eq, Hash, Structural)]
pub enum Button {
    Left,
    Right,
    Middle,
    Unknown(u8),
}

/// The name of a key: that of its variant, and for an unknown key `Unknown`
/// with the code in round brackets.
pub open spec fn key_name(key: Key) -> Seq<char> {
    match key {
        Key::Alt => "Alt"@,
        Key::AltGr => "AltGr"@,
        Key::Backspace => "Backspace"@,
        Key::CapsLock => "CapsLock"@,
        Key::ControlLeft => "ControlLeft"@,
        Key::ControlRight => "ControlRight"@,
        Key::Delete => "Delete"@,
        Key::DownArrow => "DownArrow"@,
        Key::End => "End"@,
        Key::Escape => "Escape"@,
        Key::F1 => "F1"@,
        Key::F10 => "F10"@,
        Key::F11 => "F11"@,
        Key::F12 => "F12"@,
        Key::F2 => "F2"@,
        Key::F3 => "F3"@,
        Key::F4 => "F4"@,
        Key::F5 => "F5"@,
        Key::F6 => "F6"@,
        Key::F7 => "F7"@,
        Key::F8 => "F8"@,
        Key::F9 => "F9"@,
        Key::Home => "Home"@,
        Key::LeftArrow => "LeftArrow"@,
        Key::MetaLeft => "MetaLeft"@,
        Key::MetaRight => "MetaRight"@,
        Key::PageDown => "PageDown"@,
        Key::PageUp => "PageUp"@,
        Key::Return => "Return"@,
        Key::RightArrow => "RightArrow"@,
        Key::ShiftLeft => "ShiftLeft"@,
        Key::ShiftRight => "ShiftRight"@,
        Key::Space => "Space"@,
        Key::Tab => "Tab"@,
        Key::UpArrow => "UpArrow"@,
        Key::PrintScreen => "PrintScreen"@,
        Key::ScrollLock => "ScrollLock"@,
        Key::Pause => "Pause"@,
        Key::NumLock => "NumLock"@,
        Key::BackQuote => "BackQuote"@,
        Key::Num1 => "Num1"@,
        Key::Num2 => "Num2"@,
        Key::Num3 => "Num3"@,
        Key::Num4 => "Num4"@,
        Key::Num5 => "Num5"@,
        Key::Num6 => "Num6"@,
        Key::Num7 => "Num7"@,
        Key::Num8 => "Num8"@,
        Key::Num9 => "Num9"@,
        Key::Num0 => "Num0"@,
        Key::Minus => "Minus"@,
        Key::Equal => "Equal"@,
        Key::KeyQ => "KeyQ"@,
        Key::KeyW => "KeyW"@,
        Key::KeyE => "KeyE"@,
        Key::KeyR => "KeyR"@,
        Key::KeyT => "KeyT"@,
        Key::KeyY => "KeyY"@,
        Key::KeyU => "KeyU"@,
        Key::KeyI => "KeyI"@,
        Key::KeyO => "KeyO"@,
        Key::KeyP => "KeyP"@,
        Key::LeftBracket => "LeftBracket"@,
        Key::RightBracket => "RightBracket"@,
        Key::KeyA => "KeyA"@,
        Key::KeyS => "KeyS"@,
        Key::KeyD => "KeyD"@,
        Key::KeyF => "KeyF"@,
        Key::KeyG => "KeyG"@,
        Key::KeyH => "KeyH"@,
        Key::KeyJ => "KeyJ"@,
        Key::KeyK => "KeyK"@,
        Key::KeyL => "KeyL"@,
        Key::SemiColon => "SemiColon"@,
        Key::Quote => "Quote"@,
        Key::BackSlash => "BackSlash"@,
        Key::IntlBackslash => "IntlBackslash"@,
        Key::KeyZ => "KeyZ"@,
        Key::KeyX => "KeyX"@,
        Key::KeyC => "KeyC"@,
        Key::KeyV => "KeyV"@,
        Key::KeyB => "KeyB"@,
        Key::KeyN => "KeyN"@,
        Key::KeyM => "KeyM"@,
        Key::Comma => "Comma"@,
        Key::Dot => "Dot"@,
        Key::Slash => "Slash"@,
        Key::Insert => "Insert"@,
        Key::KpReturn => "KpReturn"@,
        Key::KpMinus => "KpMinus"@,
        Key::KpPlus => "KpPlus"@,
        Key::KpMultiply => "KpMultiply"@,
        Key::KpDivide => "KpDivide"@,
        Key::Kp0 => "Kp0"@,
        Key::Kp1 => "Kp1"@,
        Key::Kp2 => "Kp2"@,
        Key::Kp3 => "Kp3"@,
        Key::Kp4 => "Kp4"@,
        Key::Kp5 => "Kp5"@,
        Key::Kp6 => "Kp6"@,
        Key::Kp7 => "Kp7"@,
        Key::Kp8 => "Kp8"@,
        Key::Kp9 => "Kp9"@,
        Key::KpDelete => "KpDelete"@,
        Key::Function => "Function"@,
        Key::Unknown(code) => "Unknown("@ + decimal_digits(code as nat) + ")"@,
    }
}

/// The name of a mouse button, formed like that of a key.
pub open spec fn button_name(button: Button) -> Seq<char> {
    match button {
        Button::Left => "Left"@,
        Button::Right => "Right"@,
        Button::Middle => "Middle"@,
        Button::Unknown(code) => "Unknown("@ + decimal_digits(code as nat) + ")"@,
    }
}

/// A text followed by a number in round brackets.
pub fn with_code(text: &str, code: u32) -> (s: String)
    ensures
        s@ == text@ + "("@ + decimal_digits(code as nat) + ")"@,
{
    let mut s = String::from_str(text);
    s.append("(");
    let digits = decimal_string(code);
    s.append(digits.as_str());
    s.append(")");
    s
}

impl Key {
    /// The name of the key.
    pub fn name(self) -> (s: String)
        ensures
            s@ == key_name(self),
    {
        match self {
            Key::Alt => String::from_str("Alt"),
            Key::AltGr => String::from_str("AltGr"),
            Key::Backspace => String::from_str("Backspace"),
            Key::CapsLock => String::from_str("CapsLock"),
            Key::ControlLeft => String::from_str("ControlLeft"),
            Key::ControlRight => String::from_str("ControlRight"),
            Key::Delete => String::from_str("Delete"),
            Key::DownArrow => String::from_str("DownArrow"),
            Key::End => String::from_str("End"),
            Key::Escape => String::from_str("Escape"),
            Key::F1 => String::from_str("F1"),
            Key::F10 => String::from_str("F10"),
            Key::F11 => String::from_str("F11"),
            Key::F12 => String::from_str("F12"),
            Key::F2 => String::from_str("F2"),
            Key::F3 => String::from_str("F3"),
            Key::F4 => String::from_str("F4"),
            Key::F5 => String::from_str("F5"),
            Key::F6 => String::from_str("F6"),
            Key::F7 => String::from_str("F7"),
            Key::F8 => String::from_str("F8"),
            Key::F9 => String::from_str("F9"),
            Key::Home => String::from_str("Home"),
            Key::LeftArrow => String::from_str("LeftArrow"),
            Key::MetaLeft => String::from_str("MetaLeft"),
            Key::MetaRight => String::from_str("MetaRight"),
            Key::PageDown => String::from_str("PageDown"),
            Key::PageUp => String::from_str("PageUp"),
            Key::Return => String::from_str("Return"),
            Key::RightArrow => String::from_str("RightArrow"),
            Key::ShiftLeft => String::from_str("ShiftLeft"),
            Key::ShiftRight => String::from_str("ShiftRight"),
            Key::Space => String::from_str("Space"),
            Key::Tab => String::from_str("Tab"),
            Key::UpArrow => String::from_str("UpArrow"),
            Key::PrintScreen => String::from_str("PrintScreen"),
            Key::ScrollLock => String::from_str("ScrollLock"),
            Key::Pause => String::from_str("Pause"),
            Key::NumLock => String::from_str("NumLock"),
            Key::BackQuote => String::from_str("BackQuote"),
            Key::Num1 => String::from_str("Num1"),
            Key::Num2 => String::from_str("Num2"),
            Key::Num3 => String::from_str("Num3"),
            Key::Num4 => String::from_str("Num4"),
            Key::Num5 => String::from_str("Num5"),
            Key::Num6 => String::from_str("Num6"),
            Key::Num7 => String::from_str("Num7"),
            Key::Num8 => String::from_str("Num8"),
            Key::Num9 => String::from_str("Num9"),
            Key::Num0 => String::from_str("Num0"),
            Key::Minus => String::from_str("Minus"),
            Key::Equal => String::from_str("Equal"),
            Key::KeyQ => String::from_str("KeyQ"),
            Key::KeyW => String::from_str("KeyW"),
            Key::KeyE => String::from_str("KeyE"),
            Key::KeyR => String::from_str("KeyR"),
            Key::KeyT => String::from_str("KeyT"),
            Key::KeyY => String::from_str("KeyY"),
            Key::KeyU => String::from_str("KeyU"),
            Key::KeyI => String::from_str("KeyI"),
            Key::KeyO => String::from_str("KeyO"),
            Key::KeyP => String::from_str("KeyP"),
            Key::LeftBracket => String::from_str("LeftBracket"),
            Key::RightBracket => String::from_str("RightBracket"),
            Key::KeyA => String::from_str("KeyA"),
            Key::KeyS => String::from_str("KeyS"),
            Key::KeyD => String::from_str("KeyD"),
            Key::KeyF => String::from_str("KeyF"),
            Key::KeyG => String::from_str("KeyG"),
            Key::KeyH => String::from_str("KeyH"),
            Key::KeyJ => String::from_str("KeyJ"),
            Key::KeyK => String::from_str("KeyK"),
            Key::KeyL => String::from_str("KeyL"),
            Key::SemiColon => String::from_str("SemiColon"),
            Key::Quote => String::from_str("Quote"),
            Key::BackSlash => String::from_str("BackSlash"),
            Key::IntlBackslash => String::from_str("IntlBackslash"),
            Key::KeyZ => String::from_str("KeyZ"),
            Key::KeyX => String::from_str("KeyX"),
            Key::KeyC => String::from_str("KeyC"),
            Key::KeyV => String::from_str("KeyV"),
            Key::KeyB => String::from_str("KeyB"),
            Key::KeyN => String::from_str("KeyN"),
            Key::KeyM => String::from_str("KeyM"),
            Key::Comma => String::from_str("Comma"),
            Key::Dot => String::from_str("Dot"),
            Key::Slash => String::from_str("Slash"),
            Key::Insert => String::from_str("Insert"),
            Key::KpReturn => String::from_str("KpReturn"),
            Key::KpMinus => String::from_str("KpMinus"),
            Key::KpPlus => String::from_str("KpPlus"),
            Key::KpMultiply => String::from_str("KpMultiply"),
            Key::KpDivide => String::from_str("KpDivide"),
            Key::Kp0 => String::from_str("Kp0"),
            Key::Kp1 => String::from_str("Kp1"),
            Key::Kp2 => String::from_str("Kp2"),
            Key::Kp3 => String::from_str("Kp3"),
            Key::Kp4 => String::from_str("Kp4"),
            Key::Kp5 => String::from_str("Kp5"),
            Key::Kp6 => String::from_str("Kp6"),
            Key::Kp7 => String::from_str("Kp7"),
            Key::Kp8 => String::from_str("Kp8"),
            Key::Kp9 => String::from_str("Kp9"),
            Key::KpDelete => String::from_str("KpDelete"),
            Key::Function => String::from_str("Function"),
            Key::Unknown(code) => {
                proof {
                    reveal_strlit("Unknown");
                    reveal_strlit("Unknown(");
                    reveal_strlit("(");
                }
                assert("Unknown"@ + "("@ =~= "Unknown("@);
                with_code("Unknown", code)
            },
        }
    }
}

impl Button {
    /// The name of the button.
    pub fn name(self) -> (s: String)
        ensures
            s@ == button_name(self),
    {
        match self {
            Button::Left => String::from_str("Left"),
            Button::Right => String::from_str("Right"),
            Button::Middle => String::from_str("Middle"),
            Button::Unknown(code) => {
                proof {
                    reveal_strlit("Unknown");
                    reveal_strlit("Unknown(");
                    reveal_strlit("(");
                }
                assert("Unknown"@ + "("@ =~= "Unknown("@);
                with_code("Unknown", code as u32)
            },
        }
    }
}

} // verus!
