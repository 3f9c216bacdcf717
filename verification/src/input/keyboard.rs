//! Labels of physical keys pressed without Shift.

use crate::input::key::{key_name, with_code, Key};
use crate::text::decimal_digits;
use vstd::prelude::*;
use vstd::string::*;

verus! {

/// The label of an unknown key by its code: the media and system keys that are
/// known by code have a glyph and a short name; any other code is shown in round
/// brackets after a glyph and the word `Unknown`.
pub open spec fn unknown_key_label(code: u32) -> Seq<char> {
    if code == 12 {
        ""@
    } else if code == 172 {
        "\u{f02dc} home"@
    } else if code == 173 {
        "\u{f0581} mute"@
    } else if code == 174 {
        "\u{f075e} vol-"@
    } else if code == 175 {
        "\u{f075d} vol+"@
    } else if code == 176 {
        "\u{f04ad} next"@
    } else if code == 177 {
        "\u{f04ae} prev"@
    } else if code == 178 {
        "\u{f04d} stop"@
    } else if code == 179 {
        "\u{f040e} play"@
    } else if code == 180 {
        "\u{eb1c} mail"@
    } else if code == 181 {
        "\u{f075a} fn"@
    } else if code == 183 {
        "\u{f03cb} App"@
    } else if code == 223 {
        "`"@
    } else {
        "\u{f0633} Unknown"@ + "("@ + decimal_digits(code as nat) + ")"@
    }
}

/// The label of a key pressed without Shift. Letters, digits and the keypad give
/// their character; modifiers an icon and a name; keys whose label depends on
/// the layout a raw name that is normalised later; a key without a label of its
/// own the name of the key.
pub open spec fn physical_label(key: Key) -> Seq<char> {
    match key {
        Key::KeyA => "A"@,
        Key::KeyB => "B"@,
        Key::KeyC => "C"@,
        Key::KeyD => "D"@,
        Key::KeyE => "E"@,
        Key::KeyF => "F"@,
        Key::KeyG => "G"@,
        Key::KeyH => "H"@,
        Key::KeyI => "I"@,
        Key::KeyJ => "J"@,
        Key::KeyK => "K"@,
        Key::KeyL => "L"@,
        Key::KeyM => "M"@,
        Key::KeyN => "N"@,
        Key::KeyO => "O"@,
        Key::KeyP => "P"@,
        Key::KeyQ => "Q"@,
        Key::KeyR => "R"@,
        Key::KeyS => "S"@,
        Key::KeyT => "T"@,
        Key::KeyU => "U"@,
        Key::KeyV => "V"@,
        Key::KeyW => "W"@,
        Key::KeyX => "X"@,
        Key::KeyY => "Y"@,
        Key::KeyZ => "Z"@,
        Key::Num1 => "1"@,
        Key::Num2 => "2"@,
        Key::Num3 => "3"@,
        Key::Num4 => "4"@,
        Key::Num5 => "5"@,
        Key::Num6 => "6"@,
        Key::Num7 => "7"@,
        Key::Num8 => "8"@,
        Key::Num9 => "9"@,
        Key::Num0 => "0"@,
        Key::Kp0 => "0"@,
        Key::Kp1 => "1"@,
        Key::Kp2 => "2"@,
        Key::Kp3 => "3"@,
        Key::Kp4 => "4"@,
        Key::Kp5 => "5"@,
        Key::Kp6 => "6"@,
        Key::Kp7 => "7"@,
        Key::Kp8 => "8"@,
        Key::Kp9 => "9"@,
        Key::KpPlus => "+"@,
        Key::KpDivide => "/"@,
        Key::KpMinus => "-"@,
        Key::KpMultiply => "*"@,
        Key::KpReturn => "Enter"@,
        Key::KpDelete => "Dot"@,
        Key::Return => "Enter"@,
        Key::Tab => "Tab"@,
        Key::Escape => "Escape"@,
        Key::Backspace => "Backspace"@,
        Key::Space => "Space"@,
        Key::ShiftLeft | Key::ShiftRight => "\u{21e7} shift"@,
        Key::ControlLeft | Key::ControlRight => "\u{2303} control"@,
        Key::Alt | Key::AltGr => "\u{2325} alt"@,
        Key::MetaLeft | Key::MetaRight => "\u{e62a} Meta"@,
        Key::CapsLock => "\u{21ea} Caps"@,
        Key::F1 => "F1"@,
        Key::F2 => "F2"@,
        Key::F3 => "F3"@,
        Key::F4 => "F4"@,
        Key::F5 => "F5"@,
        Key::F6 => "F6"@,
        Key::F7 => "F7"@,
        Key::F8 => "F8"@,
        Key::F9 => "F9"@,
        Key::F10 => "F10"@,
        Key::F11 => "F11"@,
        Key::F12 => "F12"@,
        Key::Minus => "-"@,
        Key::Equal => "="@,
        Key::LeftBracket => "LeftBracket"@,
        Key::RightBracket => "RightBracket"@,
        Key::BackSlash => "BackSlash"@,
        Key::SemiColon => "SemiColon"@,
        Key::BackQuote => "BackQuote"@,
        Key::Quote => "Quote"@,
        Key::Comma => "Comma"@,
        Key::Dot => "Period"@,
        Key::Slash => "Slash"@,
        Key::Insert => "Insert"@,
        Key::Delete => "Delete"@,
        Key::Home => "Home"@,
        Key::End => "End"@,
        Key::PageUp => "PageUp"@,
        Key::PageDown => "PageDown"@,
        Key::UpArrow => "UpArrow"@,
        Key::DownArrow => "DownArrow"@,
        Key::LeftArrow => "LeftArrow"@,
        Key::RightArrow => "RightArrow"@,
        Key::Unknown(code) => unknown_key_label(code),
        Key::PrintScreen
        | Key::ScrollLock
        | Key::Pause
        | Key::NumLock
        | Key::IntlBackslash
        | Key::Function => key_name(key),
    }
}

fn resolve_unknown_key(code: u32) -> (label: String)
    ensures
        label@ == unknown_key_label(code),
{
    if code == 12 {
        String::from_str("")
    } else if code == 172 {
        String::from_str("\u{f02dc} home")
    } else if code == 173 {
        String::from_str("\u{f0581} mute")
    } else if code == 174 {
        String::from_str("\u{f075e} vol-")
    } else if code == 175 {
        String::from_str("\u{f075d} vol+")
    } else if code == 176 {
        String::from_str("\u{f04ad} next")
    } else if code == 177 {
        String::from_str("\u{f04ae} prev")
    } else if code == 178 {
        String::from_str("\u{f04d} stop")
    } else if code == 179 {
        String::from_str("\u{f040e} play")
    } else if code == 180 {
        String::from_str("\u{eb1c} mail")
    } else if code == 181 {
        String::from_str("\u{f075a} fn")
    } else if code == 183 {
        String::from_str("\u{f03cb} App")
    } else if code == 223 {
        String::from_str("`")
    } else {
        with_code("\u{f0633} Unknown", code)
    }
}

/// Resolves a key pressed without Shift to its label.
pub fn resolve_physical_key(key: Key) -> (label: String)
    ensures
        label@ == physical_label(key),
{
    match key {
        Key::KeyA => String::from_str("A"),
        Key::KeyB => String::from_str("B"),
        Key::KeyC => String::from_str("C"),
        Key::KeyD => String::from_str("D"),
        Key::KeyE => String::from_str("E"),
        Key::KeyF => String::from_str("F"),
        Key::KeyG => String::from_str("G"),
        Key::KeyH => String::from_str("H"),
        Key::KeyI => String::from_str("I"),
        Key::KeyJ => String::from_str("J"),
        Key::KeyK => String::from_str("K"),
        Key::KeyL => String::from_str("L"),
        Key::KeyM => String::from_str("M"),
        Key::KeyN => String::from_str("N"),
        Key::KeyO => String::from_str("O"),
        Key::KeyP => String::from_str("P"),
        Key::KeyQ => String::from_str("Q"),
        Key::KeyR => String::from_str("R"),
        Key::KeyS => String::from_str("S"),
        Key::KeyT => String::from_str("T"),
        Key::KeyU => String::from_str("U"),
        Key::KeyV => String::from_str("V"),
        Key::KeyW => String::from_str("W"),
        Key::KeyX => String::from_str("X"),
        Key::KeyY => String::from_str("Y"),
        Key::KeyZ => String::from_str("Z"),
        Key::Num1 => String::from_str("1"),
        Key::Num2 => String::from_str("2"),
        Key::Num3 => String::from_str("3"),
        Key::Num4 => String::from_str("4"),
        Key::Num5 => String::from_str("5"),
        Key::Num6 => String::from_str("6"),
        Key::Num7 => String::from_str("7"),
        Key::Num8 => String::from_str("8"),
        Key::Num9 => String::from_str("9"),
        Key::Num0 => String::from_str("0"),
        Key::Kp0 => String::from_str("0"),
        Key::Kp1 => String::from_str("1"),
        Key::Kp2 => String::from_str("2"),
        Key::Kp3 => String::from_str("3"),
        Key::Kp4 => String::from_str("4"),
        Key::Kp5 => String::from_str("5"),
        Key::Kp6 => String::from_str("6"),
        Key::Kp7 => String::from_str("7"),
        Key::Kp8 => String::from_str("8"),
        Key::Kp9 => String::from_str("9"),
        Key::KpPlus => String::from_str("+"),
        Key::KpDivide => String::from_str("/"),
        Key::KpMinus => String::from_str("-"),
        Key::KpMultiply => String::from_str("*"),
        Key::KpReturn => String::from_str("Enter"),
        Key::KpDelete => String::from_str("Dot"),
        Key::Return => String::from_str("Enter"),
        Key::Tab => String::from_str("Tab"),
        Key::Escape => String::from_str("Escape"),
        Key::Backspace => String::from_str("Backspace"),
        Key::Space => String::from_str("Space"),
        Key::ShiftLeft | Key::ShiftRight => String::from_str("\u{21e7} shift"),
        Key::ControlLeft | Key::ControlRight => String::from_str("\u{2303} control"),
        Key::Alt | Key::AltGr => String::from_str("\u{2325} alt"),
        Key::MetaLeft | Key::MetaRight => String::from_str("\u{e62a} Meta"),
        Key::CapsLock => String::from_str("\u{21ea} Caps"),
        Key::F1 => String::from_str("F1"),
        Key::F2 => String::from_str("F2"),
        Key::F3 => String::from_str("F3"),
        Key::F4 => String::from_str("F4"),
        Key::F5 => String::from_str("F5"),
        Key::F6 => String::from_str("F6"),
        Key::F7 => String::from_str("F7"),
        Key::F8 => String::from_str("F8"),
        Key::F9 => String::from_str("F9"),
        Key::F10 => String::from_str("F10"),
        Key::F11 => String::from_str("F11"),
        Key::F12 => String::from_str("F12"),
        Key::Minus => String::from_str("-"),
        Key::Equal => String::from_str("="),
        Key::LeftBracket => String::from_str("LeftBracket"),
        Key::RightBracket => String::from_str("RightBracket"),
        Key::BackSlash => String::from_str("BackSlash"),
        Key::SemiColon => String::from_str("SemiColon"),
        Key::BackQuote => String::from_str("BackQuote"),
        Key::Quote => String::from_str("Quote"),
        Key::Comma => String::from_str("Comma"),
        Key::Dot => String::from_str("Period"),
        Key::Slash => String::from_str("Slash"),
        Key::Insert => String::from_str("Insert"),
        Key::Delete => String::from_str("Delete"),
        Key::Home => String::from_str("Home"),
        Key::End => String::from_str("End"),
        Key::PageUp => String::from_str("PageUp"),
        Key::PageDown => String::from_str("PageDown"),
        Key::UpArrow => String::from_str("UpArrow"),
        Key::DownArrow => String::from_str("DownArrow"),
        Key::LeftArrow => String::from_str("LeftArrow"),
        Key::RightArrow => String::from_str("RightArrow"),
        Key::Unknown(code) => resolve_unknown_key(code),
        Key::PrintScreen
        | Key::ScrollLock
        | Key::Pause
        | Key::NumLock
        | Key::IntlBackslash
        | Key::Function => key.name(),
    }
}

} // verus!
